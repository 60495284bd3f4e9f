//! The outcome record of one failed check.
//!
//! An `ErrorMessage` is created only when a rule fails; the engine then
//! annotates it with the column and the formatted key before appending it
//! to the report.

use vstd::prelude::*;
use crate::store::DBCol;

verus! {

/// One recorded rule failure.
#[derive(Debug)]
pub struct ErrorMessage {
    /// The column the failing record belongs to; set by the engine.
    pub col: Option<DBCol>,
    /// The formatted key of the failing record; set by the engine.
    pub key: Option<String>,
    /// The identifier of the rule that failed.
    pub func: String,
    /// A human-readable description of what failed.
    pub reason: String,
}

/// The mathematical value of an [`ErrorMessage`].
pub struct ErrorView {
    pub col: Option<DBCol>,
    pub key: Option<Seq<char>>,
    pub func: Seq<char>,
    pub reason: Seq<char>,
}

impl View for ErrorMessage {
    type V = ErrorView;

    open spec fn view(&self) -> ErrorView {
        ErrorView {
            col: self.col,
            key: match self.key {
                Some(k) => Some(k@),
                None => None,
            },
            func: self.func@,
            reason: self.reason@,
        }
    }
}

impl ErrorMessage {
    /// A fresh failure record, not yet annotated with column or key.
    pub fn new(func: String, reason: String) -> (r: Self)
        ensures
            r@.col is None,
            r@.key is None,
            r@.func == func@,
            r@.reason == reason@,
    {
        Self { col: None, key: None, func, reason }
    }
}

} // verus!
