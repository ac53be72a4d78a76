use vstd::prelude::*;

verus! {

/// An application-level failure (input read, listing, fetch or download),
/// carried as data so the main loop can surface it without terminating.
#[derive(Clone, Debug, PartialEq)]
pub struct AppError {
    pub msg: String,
}

impl AppError {
    pub fn new(msg: &str) -> (e: AppError)
        ensures
            e.msg@ == msg@,
    {
        AppError { msg: msg.to_owned() }
    }
}

} // verus!
