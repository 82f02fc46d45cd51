//! The arguments that name the model and its input.

use vstd::prelude::*;

verus! {

/// References to a model description and to the input to run it on. A
/// reference that is left out stands for its default.
#[derive(Clone, Debug)]
pub struct CliArgs {
    pub config_fname: Option<String>,
    pub inp_fname: Option<String>,
}

/// The two files from which the circuit provider builds a circuit instance.
#[derive(Clone, Debug)]
pub struct CircuitSource {
    pub config_fname: String,
    pub inp_fname: String,
}

/// Where the model description is found when no reference is given.
pub open spec fn default_config_fname() -> Seq<char> {
    "/data/model.msgpack"@
}

/// Where the input is found when no reference is given.
pub open spec fn default_inp_fname() -> Seq<char> {
    "/data/inp.msgpack"@
}

/// The name that `given` stands for: itself, or `fallback` when absent.
pub open spec fn resolved(given: Option<String>, fallback: Seq<char>) -> Seq<char> {
    match given {
        Some(s) => s@,
        None => fallback,
    }
}

impl Default for CliArgs {
    /// Both references left out.
    fn default() -> (r: CliArgs)
        ensures
            r.config_fname is None,
            r.inp_fname is None,
    {
        CliArgs { config_fname: None, inp_fname: None }
    }
}

impl CliArgs {
    /// Resolves the two references, filling in the defaults, into what the
    /// circuit provider is asked to load.
    pub fn gen_circuit(&self) -> (r: CircuitSource)
        ensures
            r.config_fname@ == resolved(self.config_fname, default_config_fname()),
            r.inp_fname@ == resolved(self.inp_fname, default_inp_fname()),
    {
        let config_fname = match &self.config_fname {
            Some(s) => s.clone(),
            None => "/data/model.msgpack".to_owned(),
        };
        let inp_fname = match &self.inp_fname {
            Some(s) => s.clone(),
            None => "/data/inp.msgpack".to_owned(),
        };
        CircuitSource { config_fname, inp_fname }
    }
}

} // verus!
