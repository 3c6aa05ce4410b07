//! Named log targets: events whose target matches `prefix` also go to
//! `<name>.log`.
use vstd::prelude::*;

verus! {

/// One named target → one log file.
#[derive(Debug, Clone, PartialEq, Eq)]
pub struct LogTarget {
    pub name: String,
    pub prefix: String,
}

impl LogTarget {
    pub fn new(name: &str, prefix: &str) -> (r: Self)
        ensures
            r.name@ == name@,
            r.prefix@ == prefix@,
    {
        LogTarget { name: String::from_str(name), prefix: String::from_str(prefix) }
    }
}

} // verus!
