//! The network descriptor that the generator reads.
use vstd::prelude::*;

verus! {

/// One remote endpoint: its identifying name, its URL, and an optional
/// rate-limit hint in compute units per second.
#[derive(Clone, Debug)]
pub struct Network {
    pub name: String,
    pub url: String,
    pub compute_units_per_second: Option<u64>,
}

impl Network {
    pub fn new(name: String, url: String, compute_units_per_second: Option<u64>) -> (r: Network)
        ensures
            r.name@ == name@,
            r.url@ == url@,
            r.compute_units_per_second == compute_units_per_second,
    {
        Network { name, url, compute_units_per_second }
    }
}

} // verus!
