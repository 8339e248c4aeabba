//! The SEV backend's identity and readiness rule.
//!
//! Probing the host (device nodes, kernel support) is I/O done outside
//! this crate; the rule over the probe results is decided here.

use vstd::prelude::*;

verus! {

/// One host probe and whether it passed.
#[derive(Clone, Debug)]
pub struct Datum {
    /// Name of the probe.
    pub name: String,
    /// Whether the probe passed.
    pub pass: bool,
}

/// The SEV backend.
pub struct Backend;

impl Backend {
    /// Name of this backend.
    pub fn name(&self) -> (r: String)
        ensures
            r@ == "sev"@,
    {
        String::from_str("sev")
    }

    /// Whether the backend is usable: every probe passed.
    pub fn have(&self, data: &Vec<Datum>) -> (r: bool)
        ensures
            r == forall|i: int| 0 <= i < data@.len() ==> (#[trigger] data@[i]).pass,
    {
        let n = data.len();
        let mut i: usize = 0;
        while i < n
            invariant
                n == data@.len(),
                i <= n,
                forall|j: int| 0 <= j < i ==> (#[trigger] data@[j]).pass,
            decreases n - i,
        {
            if !data[i].pass {
                return false;
            }
            i += 1;
        }
        true
    }
}

} // verus!
