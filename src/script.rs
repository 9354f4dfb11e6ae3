//! Rendering a trace definition into probe-script text for one of the two
//! tracer backends, and naming the script file.

use vstd::prelude::*;

use crate::definition::{texts, Trace};
use crate::entropy::fresh_identifier;
use crate::text::{decimal_text, push_decimal};

verus! {

/// The tracer technology a script is written for.
#[derive(Debug, Clone, Copy, PartialEq, Eq, Structural)]
pub enum Backend {
    Stap,
    Bpf,
}

pub const STAP_NAME: &'static str = "STAP";

pub const BPF_NAME: &'static str = "BPF";

pub const STAP_PROBE_HEAD: &'static str = "\nprobe process(\"";

pub const STAP_PROBE_MID: &'static str = "\").function(\"";

pub const STAP_PROBE_TAIL: &'static str =
    "\").call {\n    printf(\"probe: %s\", ppfunc());\n    print_usyms(ucallers(5));\n}\n";

pub const BPF_PROBE_HEAD: &'static str = "uprobe:";

pub const BPF_PROBE_MID: &'static str = ":";

pub const BPF_PROBE_TAIL: &'static str =
    " { printf(\"probe: %s\\n%s\\n\", probe, ustack(perf, 5)); }";

pub const STAP_END_HEAD: &'static str = "probe timer.s(";

pub const STAP_END_TAIL: &'static str = ") {exit(); }\n";

pub const BPF_END_HEAD: &'static str = "interval:s:(";

pub const BPF_END_TAIL: &'static str = ") { exit(); }\n";

/// Directory that holds generated scripts.
pub const SCRIPT_DIR: &'static str = "/tmp/";

pub const STAP_EXTENSION: &'static str = ".stap";

pub const BPF_EXTENSION: &'static str = ".bpf";

/// The probe stanza for one function of `process`.
pub open spec fn stanza_text(b: Backend, process: Seq<char>, func: Seq<char>) -> Seq<char> {
    match b {
        Backend::Stap => STAP_PROBE_HEAD@ + process + STAP_PROBE_MID@ + func + STAP_PROBE_TAIL@,
        Backend::Bpf => BPF_PROBE_HEAD@ + process + BPF_PROBE_MID@ + func + BPF_PROBE_TAIL@,
    }
}

/// One stanza per function, in the order of `funcs`, concatenated.
pub open spec fn probes_text(b: Backend, process: Seq<char>, funcs: Seq<Seq<char>>) -> Seq<char>
    decreases funcs.len(),
{
    if funcs.len() == 0 {
        Seq::empty()
    } else {
        probes_text(b, process, funcs.drop_last()) + stanza_text(b, process, funcs.last())
    }
}

/// The stanza that ends the trace after `duration` seconds.
pub open spec fn terminator_text(b: Backend, duration: nat) -> Seq<char> {
    match b {
        Backend::Stap => STAP_END_HEAD@ + decimal_text(duration) + STAP_END_TAIL@,
        Backend::Bpf => BPF_END_HEAD@ + decimal_text(duration) + BPF_END_TAIL@,
    }
}

/// The whole script: every probe stanza, then the terminator.
pub open spec fn script_text(
    b: Backend,
    process: Seq<char>,
    funcs: Seq<Seq<char>>,
    duration: nat,
) -> Seq<char> {
    probes_text(b, process, funcs) + terminator_text(b, duration)
}

/// The file extension that marks scripts of backend `b`.
pub open spec fn extension_text(b: Backend) -> Seq<char> {
    match b {
        Backend::Stap => STAP_EXTENSION@,
        Backend::Bpf => BPF_EXTENSION@,
    }
}

/// Where the script with identifier `id` is written.
pub open spec fn script_path_text(b: Backend, id: Seq<char>) -> Seq<char> {
    SCRIPT_DIR@ + id + extension_text(b)
}

/// The backend named `s`: `"STAP"` or `"BPF"`, nothing else.
pub open spec fn backend_named(s: Seq<char>) -> Option<Backend> {
    if s == STAP_NAME@ {
        Some(Backend::Stap)
    } else if s == BPF_NAME@ {
        Some(Backend::Bpf)
    } else {
        None
    }
}

impl Backend {
    /// The backend a request names.
    pub fn from_name(s: &str) -> (r: Option<Backend>)
        ensures
            r == backend_named(s@),
    {
        let t = String::from_str(s);
        if t == String::from_str(STAP_NAME) {
            Some(Backend::Stap)
        } else if t == String::from_str(BPF_NAME) {
            Some(Backend::Bpf)
        } else {
            None
        }
    }
}

fn push_stanza(s: &mut String, b: Backend, process: &str, func: &str)
    ensures
        final(s)@ == old(s)@ + stanza_text(b, process@, func@),
{
    match b {
        Backend::Stap => {
            s.append(STAP_PROBE_HEAD);
            s.append(process);
            s.append(STAP_PROBE_MID);
            s.append(func);
            s.append(STAP_PROBE_TAIL);
        },
        Backend::Bpf => {
            s.append(BPF_PROBE_HEAD);
            s.append(process);
            s.append(BPF_PROBE_MID);
            s.append(func);
            s.append(BPF_PROBE_TAIL);
        },
    }
    assert(s@ =~= old(s)@ + stanza_text(b, process@, func@));
}

/// The probe stanza for `func` in `process`.
pub fn stanza(b: Backend, process: &str, func: &str) -> (r: String)
    ensures
        r@ == stanza_text(b, process@, func@),
{
    let mut s = String::new();
    push_stanza(&mut s, b, process, func);
    assert(s@ =~= stanza_text(b, process@, func@));
    s
}

fn push_ending(s: &mut String, b: Backend, duration: u64)
    ensures
        final(s)@ == old(s)@ + terminator_text(b, duration as nat),
{
    match b {
        Backend::Stap => {
            s.append(STAP_END_HEAD);
            push_decimal(s, duration);
            s.append(STAP_END_TAIL);
        },
        Backend::Bpf => {
            s.append(BPF_END_HEAD);
            push_decimal(s, duration);
            s.append(BPF_END_TAIL);
        },
    }
    assert(s@ =~= old(s)@ + terminator_text(b, duration as nat));
}

/// The stanza that makes the tracer exit after `duration` seconds.
pub fn ending(b: Backend, duration: u64) -> (r: String)
    ensures
        r@ == terminator_text(b, duration as nat),
{
    let mut s = String::new();
    push_ending(&mut s, b, duration);
    assert(s@ =~= terminator_text(b, duration as nat));
    s
}

/// The path of the script with identifier `id`.
pub fn script_path(b: Backend, id: &str) -> (r: String)
    ensures
        r@ == script_path_text(b, id@),
{
    let mut s = String::from_str(SCRIPT_DIR);
    s.append(id);
    match b {
        Backend::Stap => s.append(STAP_EXTENSION),
        Backend::Bpf => s.append(BPF_EXTENSION),
    }
    s
}

/// A fresh script path for backend `b`: a random 128-bit identifier in
/// the script directory, with the backend's extension. `None` when the
/// operating system's random generator fails.
pub fn artifact_name(b: Backend) -> (r: Option<String>)
    ensures
        r matches Some(name) ==> exists|id: Seq<char>|
            id.len() == 36 && name@ == script_path_text(b, id),
{
    match fresh_identifier() {
        Some(id) => Some(script_path(b, id.as_str())),
        None => None,
    }
}

/// A rendered script and the path it is to be written to.
pub struct GeneratedScript {
    pub name: String,
    pub content: String,
}

impl Trace {
    /// The probe stanzas of every function in the list, in list order.
    pub fn to_content(&self, b: Backend) -> (r: String)
        ensures
            r@ == probes_text(b, self.process@, texts(self.function_list@)),
    {
        let mut s = String::new();
        let n = self.function_list.len();
        let mut i: usize = 0;
        while i < n
            invariant
                n == self.function_list@.len(),
                i <= n,
                s@ == probes_text(b, self.process@, texts(self.function_list@.subrange(0, i as int))),
            decreases n - i,
        {
            push_stanza(&mut s, b, self.process.as_str(), self.function_list[i].as_str());
            proof {
                let funcs = texts(self.function_list@.subrange(0, i + 1));
                assert(funcs.drop_last() =~= texts(self.function_list@.subrange(0, i as int)));
                assert(funcs.last() == self.function_list@[i as int]@);
            }
            i = i + 1;
        }
        assert(self.function_list@.subrange(0, n as int) =~= self.function_list@);
        s
    }

    /// The SystemTap probe stanzas of this definition.
    pub fn to_content_stap(&self) -> (r: String)
        ensures
            r@ == probes_text(Backend::Stap, self.process@, texts(self.function_list@)),
    {
        self.to_content(Backend::Stap)
    }

    /// The bpftrace probe stanzas of this definition.
    pub fn to_content_bpf(&self) -> (r: String)
        ensures
            r@ == probes_text(Backend::Bpf, self.process@, texts(self.function_list@)),
    {
        self.to_content(Backend::Bpf)
    }

    /// The complete script for backend `b` that ends after `duration`
    /// seconds, at the path of identifier `id`.
    pub fn to_script_at(&self, b: Backend, duration: u64, id: &str) -> (r: GeneratedScript)
        ensures
            r.content@ == script_text(b, self.process@, texts(self.function_list@), duration as nat),
            r.name@ == script_path_text(b, id@),
    {
        let mut content = self.to_content(b);
        push_ending(&mut content, b, duration);
        GeneratedScript { name: script_path(b, id), content }
    }

    /// The complete script for backend `b` that ends after `duration`
    /// seconds, at a fresh path. `None` when no fresh identifier could be
    /// drawn.
    pub fn to_script(&self, b: Backend, duration: u64) -> (r: Option<GeneratedScript>)
        ensures
            r matches Some(s) ==> {
                &&& s.content@ == script_text(
                    b,
                    self.process@,
                    texts(self.function_list@),
                    duration as nat,
                )
                &&& exists|id: Seq<char>| id.len() == 36 && s.name@ == script_path_text(b, id)
            },
    {
        match fresh_identifier() {
            Some(id) => Some(self.to_script_at(b, duration, id.as_str())),
            None => None,
        }
    }
}

} // verus!
