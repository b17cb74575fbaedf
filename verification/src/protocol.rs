//! Wire-level message types shared between the edge node and the
//! administrative backend.

use vstd::prelude::*;

verus! {

/// Which kind of credential an access attempt used.
#[derive(Clone, Copy, Debug, PartialEq, Eq, Structural)]
pub enum CodeType {
    Pin,
    Fob,
}

impl CodeType {
    /// The label used for this kind on the wire and in the entry log.
    pub fn to_string(&self) -> (r: String)
        ensures
            *self is Pin ==> r@ == "pin"@,
            *self is Fob ==> r@ == "fob"@,
    {
        match self {
            CodeType::Pin => "pin".to_string(),
            CodeType::Fob => "fob".to_string(),
        }
    }
}

/// One access attempt and its outcome, forwarded to the backend.
///
/// The timestamp is the event time in nanoseconds since the Unix epoch.
#[derive(Clone, Copy, Debug, PartialEq, Eq, Structural)]
pub struct Audit {
    pub timestamp: u64,
    pub code: i32,
    pub code_type: CodeType,
    pub success: bool,
}

/// The only legal mutations of the credential store, as sent by the
/// backend on the mutation topic.
#[derive(Debug, PartialEq, Eq)]
pub enum UserAction {
    Add(i32),
    Del(i32),
    Replace { old: i32, new: i32 },
    Bulk(Vec<i32>),
}

} // verus!
