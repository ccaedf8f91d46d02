//! Endpoint allocator: a free loopback port and a fresh access token per
//! launch.
//!
//! The port comes from OS-assisted probing and the token from an
//! unpredictable random source, so both live behind trusted declarations;
//! everything downstream is verified for every value they may produce.

use vstd::prelude::*;

use crate::errors::LaunchError;
use crate::text::{all_digits, dec_digits, lemma_dec_digits_value, u64_to_string};

verus! {

/// One launch's network endpoint. The token is a convenience credential for
/// the local shutdown call, created fresh per launch and never reused.
pub struct Endpoint {
    pub port: u16,
    pub token: String,
}

/// Relies on portpicker::pick_unused_port: it probes for a TCP/UDP port that
/// is unbound at probe time, or gives up after a bounded number of attempts.
/// The outcome depends on the machine's state, so nothing is promised of the
/// returned port number.
#[verifier::external_body]
fn pick_unused_port() -> (r: Option<u16>) {
    portpicker::pick_unused_port()
}

/// Relies on rand::random: a machine word drawn from the thread-local
/// generator. Nothing can be promised of a random value.
#[verifier::external_body]
fn random_u64() -> (r: u64) {
    rand::random::<u64>()
}

/// Picks a free port and generates a fresh token, the decimal rendering of a
/// random machine word. Fails only when no free port could be found.
pub fn allocate() -> (r: Result<Endpoint, LaunchError>)
    ensures
        r matches Ok(e) ==> exists|n: u64| e.token@ == dec_digits(n as nat),
        r matches Ok(e) ==> all_digits(e.token@) && e.token@.len() >= 1,
        r matches Err(err) ==> err == LaunchError::NoPortAvailable,
{
    match pick_unused_port() {
        Some(port) => {
            let n = random_u64();
            let token = u64_to_string(n);
            proof {
                assert(token@ == dec_digits(n as nat));
                lemma_dec_digits_value(n as nat);
                assert(dec_digits(n as nat).len() >= 1);
            }
            Ok(Endpoint { port, token })
        },
        None => Err(LaunchError::NoPortAvailable),
    }
}

} // verus!
