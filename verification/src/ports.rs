//! Choice of the listen ports: an explicitly requested port is used as
//! is; otherwise the operating system is asked for a free port, with a
//! random port from a fixed range as the last resort.

use vstd::prelude::*;

use rand::Rng;

verus! {

/// Relies on portpicker::pick_unused_port: probes the operating system
/// for a TCP/UDP port that is currently free.  The outcome depends on
/// the machine's state, so nothing is claimed of it.
#[verifier::external_body]
fn pick_unused_port_from_os() -> (r: Option<u16>) {
    portpicker::pick_unused_port()
}

/// Relies on rand: `thread_rng` and `Rng::gen_range`, which returns a
/// value uniformly sampled from the given range and panics only on an
/// empty range — the literal range here is not empty.
#[verifier::external_body]
fn random_fallback_port() -> (r: u16)
    ensures
        15000 <= r < 55000,
{
    let mut rng = rand::thread_rng();
    rng.gen_range(15000..55000)
}

/// The port the instance will listen on: the requested one when given,
/// otherwise one the operating system reported free, otherwise a random
/// port from the fallback range.
pub fn choose_port(requested: Option<u16>) -> (r: u16)
    ensures
        requested matches Some(p) ==> r == p,
{
    match requested {
        Some(p) => p,
        None => match pick_unused_port_from_os() {
            Some(p) => p,
            None => random_fallback_port(),
        },
    }
}

} // verus!
