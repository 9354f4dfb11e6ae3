//! The command line and environment of a tracer launch.

use vstd::prelude::*;

use crate::config::GlobalConfig;
use crate::definition::{texts, Trace};
use crate::script::Backend;

verus! {

/// Program that runs the tracer with elevated privileges.
pub const ELEVATION_PROGRAM: &'static str = "sudo";

/// Makes the elevation program read its credential from standard input.
pub const CREDENTIAL_FROM_STDIN: &'static str = "-S";

/// How to start the tracer: program, arguments, and added environment.
pub struct LaunchPlan {
    pub program: String,
    pub args: Vec<String>,
    pub envs: Vec<(String, String)>,
}

/// The configured tracer binary for backend `b`.
pub open spec fn tracer_path_text(cfg: GlobalConfig, b: Backend) -> Seq<char> {
    match b {
        Backend::Stap => cfg.stap_path@,
        Backend::Bpf => cfg.bpf_path@,
    }
}

/// The arguments of the elevation program: its flag, the tracer, the
/// script, then the definition's own options.
pub open spec fn launch_args_text(
    cfg: GlobalConfig,
    b: Backend,
    script: Seq<char>,
    options: Seq<Seq<char>>,
) -> Seq<Seq<char>> {
    seq![CREDENTIAL_FROM_STDIN@, tracer_path_text(cfg, b), script] + options
}

/// The environment pairs of `def`, name with value, position by position.
pub open spec fn env_pairs_match(envs: Seq<(String, String)>, def: Trace) -> bool {
    &&& envs.len() == def.environment@.len()
    &&& forall|i: int|
        0 <= i < envs.len() ==> envs[i].0@ == def.environment@[i]@ && envs[i].1@
            == def.values@[i]@
}

/// The plan that launches `script` for `def` with the tracer of backend `b`.
pub fn launch_plan(def: &Trace, b: Backend, cfg: &GlobalConfig, script: &str) -> (r: LaunchPlan)
    requires
        def.environment@.len() == def.values@.len(),
    ensures
        r.program@ == ELEVATION_PROGRAM@,
        texts(r.args@) == launch_args_text(*cfg, b, script@, texts(def.options@)),
        env_pairs_match(r.envs@, *def),
{
    let mut args: Vec<String> = Vec::new();
    args.push(String::from_str(CREDENTIAL_FROM_STDIN));
    match b {
        Backend::Stap => args.push(cfg.stap_path.clone()),
        Backend::Bpf => args.push(cfg.bpf_path.clone()),
    }
    args.push(String::from_str(script));
    let ghost head = seq![CREDENTIAL_FROM_STDIN@, tracer_path_text(*cfg, b), script@];
    assert(texts(args@) =~= head);
    let n = def.options.len();
    let mut i: usize = 0;
    while i < n
        invariant
            n == def.options@.len(),
            i <= n,
            texts(args@) == head + texts(def.options@.subrange(0, i as int)),
        decreases n - i,
    {
        let ghost before = args@;
        args.push(def.options[i].clone());
        assert(args@ =~= before.push(def.options@[i as int]));
        assert(texts(args@) =~= texts(before).push(def.options@[i as int]@));
        assert(texts(def.options@.subrange(0, i + 1)) =~= texts(def.options@.subrange(0, i as int)).push(
            def.options@[i as int]@,
        ));
        assert(texts(args@) =~= head + texts(def.options@.subrange(0, i + 1)));
        i = i + 1;
    }
    assert(def.options@.subrange(0, n as int) =~= def.options@);
    let mut envs: Vec<(String, String)> = Vec::new();
    let m = def.environment.len();
    let mut j: usize = 0;
    while j < m
        invariant
            m == def.environment@.len(),
            m == def.values@.len(),
            j <= m,
            envs@.len() == j,
            forall|k: int|
                0 <= k < j ==> envs@[k].0@ == def.environment@[k]@ && envs@[k].1@
                    == def.values@[k]@,
        decreases m - j,
    {
        envs.push((def.environment[j].clone(), def.values[j].clone()));
        j = j + 1;
    }
    LaunchPlan { program: String::from_str(ELEVATION_PROGRAM), args, envs }
}

} // verus!
