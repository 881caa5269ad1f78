pub mod middleware;
pub mod routes;
pub mod service;

use vstd::prelude::*;

verus! {

/// Why the plain status service could not be built.
#[derive(Clone, Copy, Debug, Eq, PartialEq, Structural)]
pub enum Error {
    BadAddr,
}

} // verus!
