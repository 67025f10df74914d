use vstd::prelude::*;

verus! {

/// The greeting capability: a type that can say hello. The spec function
/// `greeting` gives the exact text of the line that `hello` produces.
pub trait Greet {
    /// The text of this value's greeting line.
    spec fn greeting(&self) -> Seq<char>;

    /// Produce the greeting line.
    fn hello(&self) -> (r: String)
        ensures
            r@ == self.greeting(),
    ;
}

/// A named person; the one implementor of `Greet` here. The name is set at
/// construction and never changed.
pub struct Person {
    pub name: String,
}

impl Greet for Person {
    open spec fn greeting(&self) -> Seq<char> {
        "Hello "@ + self.name@
    }

    fn hello(&self) -> (r: String) {
        let mut line = String::from_str("Hello ");
        line.append(self.name.as_str());
        line
    }
}

/// Calls the value's `hello` operation exactly once: the result is that one
/// greeting line, and nothing else is produced.
pub fn check<T: Greet>(data: T) -> (r: String)
    ensures
        r@ == data.greeting(),
{
    data.hello()
}

/// The two lines the trait demo prints: one from a direct call of `hello`
/// on a person named Kamal, one from passing that person to `check`.
pub fn program_a_lines() -> (r: Vec<String>)
    ensures
        r@.len() == 2,
        r@[0]@ == "Hello Kamal"@,
        r@[1]@ == "Hello Kamal"@,
{
    let p1 = Person { name: String::from_str("Kamal") };
    let first = p1.hello();
    let second = check(p1);
    proof {
        reveal_strlit("Hello ");
        reveal_strlit("Kamal");
        reveal_strlit("Hello Kamal");
        assert(first@ =~= "Hello Kamal"@);
        assert(second@ =~= "Hello Kamal"@);
    }
    let mut lines: Vec<String> = Vec::new();
    lines.push(first);
    lines.push(second);
    lines
}

} // verus!
