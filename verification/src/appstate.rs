use vstd::prelude::*;

use core::marker::PhantomData;

use crate::state::appstate::State;

verus! {

/// A minimal application state carrying only a flag byte, generic over a
/// phantom payload type; a placeholder used where a service is generic
/// over its state type.
pub struct AppState<'a, T> {
    flags: u8,
    _marker: PhantomData<&'a T>,
}

pub fn new<'a, T>() -> (r: AppState<'a, T>)
    ensures
        r.flags_spec() == 0,
{
    AppState::<'a, T> { flags: 0, _marker: PhantomData }
}

impl<'a, T> AppState<'a, T> {
    /// The flag byte.
    pub closed spec fn flags_spec(&self) -> u8 {
        self.flags
    }
}

impl<'a, T> Default for AppState<'a, T> {
    fn default() -> (r: Self)
        ensures
            r.flags_spec() == 0,
    {
        AppState { flags: 0, _marker: PhantomData }
    }
}

impl<'a, T> Clone for AppState<'a, T> {
    fn clone(&self) -> (r: Self)
        ensures
            r.flags_spec() == self.flags_spec(),
    {
        AppState { flags: self.flags, _marker: PhantomData }
    }
}

impl<'a, T: Send + Sync> State for AppState<'a, T> {

}

} // verus!
