use vstd::prelude::*;

verus! {

/// Why the configurable status service could not be built.
#[derive(Clone, Copy, Debug, Eq, PartialEq, Structural)]
pub enum Error {
    BadAddr,
    NoRouting,
    NoState,
}

/// The decision of the service's build step: an unparsable bind address is
/// reported first, then a missing route table, then a missing state
/// handle; a service with all three builds.
pub fn build_check(addr_ok: bool, has_routes: bool, has_state: bool) -> (r: Result<(), Error>)
    ensures
        r == if !addr_ok {
            Err::<(), Error>(Error::BadAddr)
        } else if !has_routes {
            Err::<(), Error>(Error::NoRouting)
        } else if !has_state {
            Err::<(), Error>(Error::NoState)
        } else {
            Ok::<(), Error>(())
        },
{
    if !addr_ok {
        Err(Error::BadAddr)
    } else if !has_routes {
        Err(Error::NoRouting)
    } else if !has_state {
        Err(Error::NoState)
    } else {
        Ok(())
    }
}

} // verus!
