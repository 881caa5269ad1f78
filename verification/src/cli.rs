pub mod args;

use vstd::prelude::*;

use crate::cli::args::ArgLevelFilter;
use crate::config::{Http, ListenConfig, RunConfig};

verus! {

/// The parsed command line: the log level and the chosen subcommand.
pub struct Cli {
    pub log_level: ArgLevelFilter,
    pub command: Option<Commands>,
}

/// The subcommands.
pub enum Commands {
    /// List interfaces.
    List {},
    /// Listen to one or more interfaces.
    Listen(ArgsListen),
    /// Run.
    Run(ArgsRun),
    Version,
}

/// Arguments of the listen subcommand.
pub struct ArgsListen {
    pub interfaces: Option<Vec<String>>,
    pub all_interfaces: bool,
}

/// Arguments of the run subcommand.
pub struct ArgsRun {
    pub host: String,
    pub port: u16,
}

impl ListenConfig {
    /// The listen configuration these arguments ask for.
    pub fn from_args(args: &ArgsListen) -> (r: ListenConfig)
        ensures
            r.interfaces is Some <==> args.interfaces is Some,
            args.interfaces matches Some(xs) ==> r.interfaces matches Some(ys) && ys@ == xs@,
    {
        let interfaces = match &args.interfaces {
            None => None,
            Some(xs) => {
                let n = xs.len();
                let mut ys: Vec<String> = Vec::new();
                for k in 0..n
                    invariant
                        n == xs.len(),
                        ys@.len() == k,
                        forall|i: int| 0 <= i < k ==> ys@[i] == xs@[i],
                {
                    ys.push(xs[k].clone());
                }
                proof {
                    assert(ys@ =~= xs@);
                }
                Some(ys)
            },
        };
        ListenConfig { interfaces }
    }
}

impl RunConfig {
    /// The run configuration these arguments ask for.
    pub fn from_args(args: &ArgsRun) -> (r: RunConfig)
        ensures
            r.api_http.host@ == args.host@,
            r.api_http.port == args.port,
    {
        RunConfig { api_http: Http { host: args.host.clone(), port: args.port } }
    }
}

} // verus!
