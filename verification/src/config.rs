use vstd::prelude::*;

verus! {

/// Configuration of the device-listing subcommand.
pub struct ListConfig {}

/// Configuration of the listen subcommand: the interfaces to capture on.
pub struct ListenConfig {
    pub interfaces: Option<Vec<String>>,
}

/// Where the status surface binds.
#[derive(Clone, Debug)]
pub struct Http {
    pub host: String,
    pub port: u16,
}

/// Configuration of the run subcommand.
pub struct RunConfig {
    pub api_http: Http,
}

} // verus!
