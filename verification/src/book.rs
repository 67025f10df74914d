use vstd::prelude::*;

use crate::decimal;

verus! {

/// A book record. The text fields borrow from longer-lived data (string
/// literals in the demo), and the whole record is a plain value: assigning
/// it duplicates it, and the two copies share no mutable state.
#[derive(Debug, Clone, Copy)]
pub struct Book<'a> {
    pub name: &'a str,
    pub date: &'a str,
    pub quantity: i32,
}

impl<'a> Book<'a> {
    /// The text of the `name ...` line printed for this book.
    pub open spec fn name_line_seq(self) -> Seq<char> {
        "name "@ + self.name@
    }

    /// The debug rendering of this book: field names, values and order
    /// exactly as declared.
    pub open spec fn debug_seq(self) -> Seq<char> {
        "Book { name: \""@ + self.name@ + "\", date: \""@ + self.date@ + "\", quantity: "@
            + decimal::dec_i32(self.quantity as int) + " }"@
    }

    /// Produce the `name ...` line.
    pub fn name_line(&self) -> (r: String)
        ensures
            r@ == self.name_line_seq(),
    {
        let mut line = String::from_str("name ");
        line.append(self.name);
        line
    }

    /// Produce the debug rendering.
    pub fn debug_repr(&self) -> (r: String)
        ensures
            r@ == self.debug_seq(),
    {
        let mut line = String::from_str("Book { name: \"");
        line.append(self.name);
        line.append("\", date: \"");
        line.append(self.date);
        line.append("\", quantity: ");
        let q = decimal::i32_to_string(self.quantity);
        line.append(q.as_str());
        line.append(" }");
        line
    }

    /// Replace the quantity, leaving the text fields as they were.
    pub fn set_quantity(&mut self, new_quantity: i32)
        ensures
            final(self).quantity == new_quantity,
            final(self).name == old(self).name,
            final(self).date == old(self).date,
    {
        self.quantity = new_quantity;
    }
}

/// The lines the struct demo prints: for each book in the one-element
/// sequence a `name ...` line and a `full details = ...` line, then a
/// final `cb1 = ...` line for the duplicate retained before the sequence
/// was built.
pub fn program_b_lines() -> (r: Vec<String>)
    ensures
        r@.len() == 3,
        r@[0]@ == "name Rust programmong"@,
        r@[1]@
            == "full details = Book { name: \"Rust programmong\", date: \"19-Sep-2025\", quantity: 10 }"@,
        r@[2]@ == "cb1 = Book { name: \"Rust programmong\", date: \"19-Sep-2025\", quantity: 10 }"@,
{
    let b1 = Book { name: "Rust programmong", date: "19-Sep-2025", quantity: 10 };
    let cb1 = b1;
    let v1: Vec<Book> = vec![b1];
    let mut lines: Vec<String> = Vec::new();
    let mut i: usize = 0;
    while i < v1.len()
        invariant
            i <= v1@.len(),
            v1@.len() == 1,
            v1@[0] == b1,
            lines@.len() == 2 * i,
            i == 1 ==> lines@[0]@ == b1.name_line_seq(),
            i == 1 ==> lines@[1]@ == "full details = "@ + b1.debug_seq(),
        decreases v1@.len() - i,
    {
        let entry = v1[i];
        let line1 = entry.name_line();
        let mut line2 = String::from_str("full details = ");
        let details = entry.debug_repr();
        line2.append(details.as_str());
        lines.push(line1);
        lines.push(line2);
        i = i + 1;
    }
    let mut line3 = String::from_str("cb1 = ");
    let dup_details = cb1.debug_repr();
    line3.append(dup_details.as_str());
    lines.push(line3);
    proof {
        reveal_strlit("Rust programmong");
        reveal_strlit("19-Sep-2025");
        reveal_strlit("name ");
        reveal_strlit("name Rust programmong");
        reveal_strlit("Book { name: \"");
        reveal_strlit("\", date: \"");
        reveal_strlit("\", quantity: ");
        reveal_strlit(" }");
        reveal_strlit("full details = ");
        reveal_strlit("cb1 = ");
        reveal_strlit(
            "full details = Book { name: \"Rust programmong\", date: \"19-Sep-2025\", quantity: 10 }",
        );
        reveal_strlit("cb1 = Book { name: \"Rust programmong\", date: \"19-Sep-2025\", quantity: 10 }");
        assert(decimal::dec_of(1nat) =~= seq!['1']);
        assert(decimal::dec_i32(10int) =~= seq!['1', '0']);
        assert(lines@[0]@ =~= "name Rust programmong"@);
        assert(lines@[1]@
            =~= "full details = Book { name: \"Rust programmong\", date: \"19-Sep-2025\", quantity: 10 }"@);
        assert(lines@[2]@
            =~= "cb1 = Book { name: \"Rust programmong\", date: \"19-Sep-2025\", quantity: 10 }"@);
    }
    lines
}

/// Law: duplicating a book gives an independent, fully equal copy. The
/// duplicate equals the original, and replacing the quantity of one copy
/// yields a value whose text fields are still those of the original, while
/// the original itself keeps all its fields.
pub proof fn lemma_duplicate_independent<'a>(original: Book<'a>, new_quantity: i32)
    ensures
        ({
            let duplicate = original;
            let mutated = Book { quantity: new_quantity, ..duplicate };
            &&& duplicate == original
            &&& mutated.name == original.name
            &&& mutated.date == original.date
            &&& mutated.quantity == new_quantity
        }),
{
}

} // verus!
