//! The settings of the shared HTTP client.
use vstd::prelude::*;

verus! {

/// How the client of a run is built: how many connections it may open at
/// once, and whether it accepts invalid TLS certificates.
#[derive(Clone, Copy, Debug, PartialEq, Eq, Structural)]
pub struct Config {
    pub n_threads: usize,
    pub ignore_certificate: bool,
}

} // verus!
