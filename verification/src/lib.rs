//! Two small teaching demos, each with its observable output pinned down:
//! a greeting capability dispatched through a generic bound, and a copyable
//! book record rendered field by field. Each demo's trace function returns
//! the exact lines the demo prints.

pub mod book;
pub mod decimal;
pub mod greeting;
