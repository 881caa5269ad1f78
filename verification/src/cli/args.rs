use vstd::prelude::*;

verus! {

#[verifier::external_type_specification]
#[verifier::external_body]
pub struct ExLevelFilter(log::LevelFilter);

/// A newtype over the log crate's level filter, so that the command line
/// can carry one as a typed argument.
pub struct ArgLevelFilter(pub log::LevelFilter);

impl Clone for ArgLevelFilter {
    fn clone(&self) -> (r: Self) {
        ArgLevelFilter(self.0)
    }
}

} // verus!
