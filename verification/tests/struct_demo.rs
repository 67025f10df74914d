use syllabus::book::{program_b_lines, Book};

#[test]
fn program_b_three_lines() {
    let lines = program_b_lines();
    assert_eq!(lines.len(), 3);
    assert_eq!(lines[0], "name Rust programmong");
    assert_eq!(
        lines[1],
        "full details = Book { name: \"Rust programmong\", date: \"19-Sep-2025\", quantity: 10 }"
    );
    assert_eq!(
        lines[2],
        "cb1 = Book { name: \"Rust programmong\", date: \"19-Sep-2025\", quantity: 10 }"
    );
}

#[test]
fn debug_repr_matches_derived_debug() {
    let b = Book { name: "Rust programmong", date: "19-Sep-2025", quantity: 10 };
    assert_eq!(b.debug_repr(), format!("{:?}", b));
}

#[test]
fn debug_repr_negative_quantity() {
    let b = Book { name: "n", date: "d", quantity: -42 };
    assert_eq!(b.debug_repr(), "Book { name: \"n\", date: \"d\", quantity: -42 }");
    assert_eq!(b.debug_repr(), format!("{:?}", b));
}

#[test]
fn name_line_text() {
    let b = Book { name: "Rust programmong", date: "19-Sep-2025", quantity: 10 };
    assert_eq!(b.name_line(), "name Rust programmong");
}

#[test]
fn duplicate_is_independent() {
    let b1 = Book { name: "Rust programmong", date: "19-Sep-2025", quantity: 10 };
    let mut cb1 = b1;
    cb1.set_quantity(99);
    assert_eq!(b1.quantity, 10);
    assert_eq!(cb1.quantity, 99);
    assert_eq!(cb1.name, b1.name);
    assert_eq!(cb1.date, b1.date);
    let v: Vec<Book> = vec![b1];
    for entry in v {
        assert_eq!(entry.name, "Rust programmong");
    }
    assert_eq!(b1.quantity, 10);
    assert_eq!(b1.name, "Rust programmong");
}

#[test]
fn program_b_deterministic() {
    assert_eq!(program_b_lines(), program_b_lines());
}
