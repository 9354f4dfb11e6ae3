//! One trace run: the decisions of the execution and streaming pipeline.
//!
//! The run is a state machine. Its current step says what the caller must
//! do next (write the script, submit a chunk, spawn the tracer, read its
//! output, ...); the caller does it and reports the outcome as an event.
//! The machine never performs I/O itself.

use vstd::prelude::*;

use crate::config::GlobalConfig;
use crate::definition::{texts, Trace};
use crate::entropy::fresh_identifier;
use crate::registry::{put_running, remove_running, Registry, RunningTrace};
use crate::launch::{env_pairs_match, launch_args_text, launch_plan, LaunchPlan, ELEVATION_PROGRAM};
use crate::script::{backend_named, script_path_text, script_text, Backend, GeneratedScript};
use crate::submission::{
    base64_encoding, encode_body, opt_text, start_chunk, ChunkStatus, SubmissionChunk,
};

verus! {

/// What the caller has to do next.
#[derive(Debug, Clone, Copy, PartialEq, Eq, Structural)]
pub enum RunStep {
    /// Write the generated script to its path.
    WriteScript,
    /// Submit the pending start chunk.
    SubmitStart,
    /// Spawn the tracer as the launch plan says, with all three standard
    /// streams piped.
    Spawn,
    /// Write the credential to the tracer's standard input and close it.
    WriteCredential,
    /// Kill and reap a tracer that could not be given its credential.
    Reap,
    /// Insert the running trace into the registry under the run's name.
    Register,
    /// Read up to the chunk size from the tracer's standard output.
    Read,
    /// Submit the pending work-in-progress chunk.
    SubmitOutput,
    /// Read the tracer's standard error to its end.
    ReadStderr,
    /// Submit the pending finished chunk.
    SubmitFinished,
    /// Remove the run's name from the registry.
    Unregister,
    /// Nothing is left to do.
    Done,
}

/// The outcome of the step the caller performed.
pub enum RunEvent {
    Completed,
    Failed,
    /// The bytes that one read of standard output returned.
    Output(Vec<u8>),
    /// Everything the tracer wrote to standard error.
    ErrorOutput(String),
}

/// The steps during which the run's name is in the registry.
pub open spec fn is_registered_step(s: RunStep) -> bool {
    ||| s == RunStep::Read
    ||| s == RunStep::SubmitOutput
    ||| s == RunStep::ReadStderr
    ||| s == RunStep::SubmitFinished
    ||| s == RunStep::Unregister
}

/// The steps before any output has been read.
pub open spec fn is_launch_step(s: RunStep) -> bool {
    ||| s == RunStep::WriteScript
    ||| s == RunStep::SubmitStart
    ||| s == RunStep::Spawn
    ||| s == RunStep::WriteCredential
    ||| s == RunStep::Reap
    ||| s == RunStep::Register
}

/// The step that follows `s` when the caller reports `e`.
pub open spec fn next_step(s: RunStep, e: RunEvent, chunk_size: nat) -> RunStep {
    match s {
        RunStep::WriteScript => if e is Completed { RunStep::SubmitStart } else { RunStep::Done },
        RunStep::SubmitStart => RunStep::Spawn,
        RunStep::Spawn => if e is Completed { RunStep::WriteCredential } else { RunStep::Done },
        RunStep::WriteCredential => if e is Completed { RunStep::Register } else { RunStep::Reap },
        RunStep::Reap => RunStep::Done,
        RunStep::Register => RunStep::Read,
        RunStep::Read => match e {
            RunEvent::Output(b) => if b@.len() == chunk_size {
                RunStep::SubmitOutput
            } else {
                RunStep::ReadStderr
            },
            _ => RunStep::Unregister,
        },
        RunStep::SubmitOutput => RunStep::Read,
        RunStep::ReadStderr => if e is ErrorOutput { RunStep::SubmitFinished } else { RunStep::Unregister },
        RunStep::SubmitFinished => RunStep::Unregister,
        RunStep::Unregister => RunStep::Done,
        RunStep::Done => RunStep::Done,
    }
}

/// The byte sequences of `s` joined in order.
pub open spec fn flatten_bytes(s: Seq<Seq<u8>>) -> Seq<u8>
    decreases s.len(),
{
    if s.len() == 0 {
        Seq::empty()
    } else {
        flatten_bytes(s.drop_last()) + s.last()
    }
}

/// Chunk `c` is output chunk number `i + 1` of artifact `name`, carrying
/// `payload`; the terminal chunk also carries standard error, the others
/// carry a full read.
pub open spec fn output_chunk_fits(
    c: SubmissionChunk,
    i: int,
    name: Seq<char>,
    payload: Seq<u8>,
    chunk_size: nat,
    terminal: bool,
) -> bool {
    &&& c.trace@ == name
    &&& c.no == i + 1
    &&& opt_text(c.body) == Some(base64_encoding(payload))
    &&& if terminal {
        c.status == ChunkStatus::Finished && c.stderr is Some
    } else {
        c.status == ChunkStatus::Wip && c.stderr is None && payload.len() == chunk_size
    }
}

/// `c` announces artifact `name`.
pub open spec fn is_start_chunk(c: SubmissionChunk, name: Seq<char>) -> bool {
    &&& c.trace@ == name
    &&& c.status == ChunkStatus::Start
    &&& c.body is None
    &&& c.stderr is None
    &&& c.no == 0
}

/// The abstract state of a run.
pub struct RunView {
    pub step: RunStep,
    pub name: Seq<char>,
    /// The definition the run was started from.
    pub trace_id: i32,
    pub content: Seq<char>,
    pub plan: LaunchPlan,
    pub credential: Seq<char>,
    pub chunk_size: nat,
    /// Output chunks produced so far.
    pub sent: nat,
    /// Whether the terminal chunk has been produced.
    pub finished: bool,
    /// The bytes of the short read, held until standard error is read.
    pub tail: Seq<u8>,
    /// The chunk the caller is to submit now, if any.
    pub pending: Option<SubmissionChunk>,
    /// Every output chunk produced, in order.
    pub log: Seq<SubmissionChunk>,
    /// The output bytes each chunk of `log` carries.
    pub payloads: Seq<Seq<u8>>,
    /// Every byte read from standard output.
    pub stdout: Seq<u8>,
}

impl RunView {
    /// The run's invariant: output chunks are numbered from 1 without gaps,
    /// all but a terminal one carry a full read, their bytes followed by
    /// the held tail are exactly what was read, and a chunk is pending
    /// exactly at the submitting steps.
    pub open spec fn wf(self) -> bool {
        &&& self.chunk_size > 0
        &&& self.log.len() == self.sent
        &&& self.payloads.len() == self.sent
        &&& self.sent <= u64::MAX
        &&& flatten_bytes(self.payloads) + self.tail == self.stdout
        &&& forall|i: int|
            0 <= i < self.log.len() ==> output_chunk_fits(
                #[trigger] self.log[i],
                i,
                self.name,
                self.payloads[i],
                self.chunk_size,
                self.finished && i == self.log.len() - 1,
            )
        &&& self.finished ==> self.sent >= 1 && self.tail.len() == 0
        &&& self.finished ==> (self.step == RunStep::SubmitFinished || self.step
            == RunStep::Unregister || self.step == RunStep::Done)
        &&& is_launch_step(self.step) ==> self.sent == 0 && self.stdout.len() == 0
            && !self.finished
        &&& (self.step == RunStep::Read || self.step == RunStep::SubmitOutput) ==> self.tail.len()
            == 0 && !self.finished
        &&& self.step == RunStep::ReadStderr ==> !self.finished && self.sent < u64::MAX
        &&& self.step == RunStep::SubmitFinished ==> self.finished
        &&& (self.pending is Some <==> (self.step == RunStep::SubmitStart || self.step
            == RunStep::SubmitOutput || self.step == RunStep::SubmitFinished))
        &&& self.step == RunStep::SubmitStart ==> is_start_chunk(self.pending->0, self.name)
        &&& (self.step == RunStep::SubmitOutput || self.step == RunStep::SubmitFinished)
            ==> self.sent >= 1 && self.pending == Some(self.log.last())
    }

    /// Whether `e` is an outcome the current step can have.
    pub open spec fn accepts(self, e: RunEvent) -> bool {
        match self.step {
            RunStep::Read => match e {
                RunEvent::Output(b) => b@.len() <= self.chunk_size && self.sent < u64::MAX - 1,
                RunEvent::Failed => true,
                _ => false,
            },
            RunStep::ReadStderr => e is ErrorOutput || e is Failed,
            RunStep::Done => false,
            _ => e is Completed || e is Failed,
        }
    }
}

/// The state of one trace run.
pub struct TraceRun {
    step: RunStep,
    trace_id: i32,
    script: GeneratedScript,
    plan: LaunchPlan,
    credential: String,
    chunk_size: usize,
    sent: u64,
    finished: bool,
    tail: Vec<u8>,
    pending: Option<SubmissionChunk>,
    log: Ghost<Seq<SubmissionChunk>>,
    payloads: Ghost<Seq<Seq<u8>>>,
    stdout: Ghost<Seq<u8>>,
}

impl View for TraceRun {
    type V = RunView;

    closed spec fn view(&self) -> RunView {
        RunView {
            step: self.step,
            name: self.script.name@,
            trace_id: self.trace_id,
            content: self.script.content@,
            plan: self.plan,
            credential: self.credential@,
            chunk_size: self.chunk_size as nat,
            sent: self.sent as nat,
            finished: self.finished,
            tail: self.tail@,
            pending: self.pending,
            log: self.log@,
            payloads: self.payloads@,
            stdout: self.stdout@,
        }
    }
}

proof fn lemma_flatten_push(s: Seq<Seq<u8>>, b: Seq<u8>)
    ensures
        flatten_bytes(s.push(b)) == flatten_bytes(s) + b,
{
    assert(s.push(b).drop_last() =~= s);
}

impl TraceRun {
    pub open spec fn wf(&self) -> bool {
        self@.wf()
    }

    /// What the caller has to do next.
    pub fn step(&self) -> (r: RunStep)
        ensures
            r == self@.step,
    {
        self.step
    }

    /// The artifact name: the path of the generated script.
    pub fn name(&self) -> (r: &String)
        ensures
            r@ == self@.name,
    {
        &self.script.name
    }

    /// The script to write at the `WriteScript` step.
    pub fn script(&self) -> (r: &GeneratedScript)
        ensures
            r.name@ == self@.name,
            r.content@ == self@.content,
    {
        &self.script
    }

    /// How to spawn the tracer at the `Spawn` step.
    pub fn launch_plan(&self) -> (r: &LaunchPlan)
        ensures
            *r == self@.plan,
    {
        &self.plan
    }

    /// The credential to write at the `WriteCredential` step.
    pub fn credential(&self) -> (r: &String)
        ensures
            r@ == self@.credential,
    {
        &self.credential
    }

    /// The size of each read of standard output.
    pub fn chunk_size(&self) -> (r: usize)
        ensures
            r == self@.chunk_size,
    {
        self.chunk_size
    }

    /// The chunk to submit at a submitting step.
    pub fn pending_chunk(&self) -> (r: Option<&SubmissionChunk>)
        ensures
            r matches Some(c) ==> self@.pending == Some(*c),
            r is None <==> self@.pending is None,
    {
        match &self.pending {
            Some(c) => Some(c),
            None => None,
        }
    }

    /// Whether the run produced its terminal chunk.
    pub fn ended_normally(&self) -> (r: bool)
        ensures
            r == self@.finished,
    {
        self.finished
    }

    /// Whether `e` is an outcome the current step can have.
    pub fn accepts(&self, e: &RunEvent) -> (r: bool)
        ensures
            r == self@.accepts(*e),
    {
        match self.step {
            RunStep::Read => match e {
                RunEvent::Output(b) => b.len() <= self.chunk_size && self.sent < u64::MAX - 1,
                RunEvent::Failed => true,
                _ => false,
            },
            RunStep::ReadStderr => match e {
                RunEvent::ErrorOutput(_) => true,
                RunEvent::Failed => true,
                _ => false,
            },
            RunStep::Done => false,
            _ => match e {
                RunEvent::Completed => true,
                RunEvent::Failed => true,
                _ => false,
            },
        }
    }

    /// Moves the run past its current step, given that step's outcome.
    ///
    /// A failure to write the script or to spawn the tracer ends the run
    /// before anything is registered; a failure to write the credential
    /// ends it after reaping the tracer. A full read becomes the next
    /// work-in-progress chunk; the first short read ends the stream: after
    /// standard error is read, it becomes the finished chunk. A failed read
    /// ends the stream with no terminal chunk. Submissions never fail a run.
    pub fn advance(&mut self, event: RunEvent)
        requires
            old(self).wf(),
            old(self)@.accepts(event),
        ensures
            final(self).wf(),
            final(self)@.step == next_step(old(self)@.step, event, old(self)@.chunk_size),
            final(self)@.name == old(self)@.name,
            final(self)@.trace_id == old(self)@.trace_id,
            final(self)@.content == old(self)@.content,
            final(self)@.plan == old(self)@.plan,
            final(self)@.credential == old(self)@.credential,
            final(self)@.chunk_size == old(self)@.chunk_size,
            old(self)@.step == RunStep::WriteScript && event is Completed ==> (final(self)@.pending
                matches Some(c) && is_start_chunk(c, old(self)@.name)),
            old(self)@.step == RunStep::Read ==> match event {
                RunEvent::Output(b) => {
                    &&& final(self)@.stdout == old(self)@.stdout + b@
                    &&& b@.len() == old(self)@.chunk_size ==> {
                        &&& final(self)@.pending matches Some(c)
                        &&& c.trace@ == old(self)@.name
                        &&& c.status == ChunkStatus::Wip
                        &&& c.no == old(self)@.sent + 1
                        &&& c.stderr is None
                        &&& opt_text(c.body) == Some(base64_encoding(b@))
                        &&& final(self)@.log == old(self)@.log.push(c)
                    }
                    &&& b@.len() < old(self)@.chunk_size ==> final(self)@.log == old(self)@.log
                        && final(self)@.tail == b@
                },
                _ => final(self)@.log == old(self)@.log && final(self)@.stdout == old(self)@.stdout,
            },
            old(self)@.step == RunStep::ReadStderr ==> match event {
                RunEvent::ErrorOutput(t) => {
                    &&& final(self)@.pending matches Some(c)
                    &&& c.trace@ == old(self)@.name
                    &&& c.status == ChunkStatus::Finished
                    &&& c.no == old(self)@.sent + 1
                    &&& c.stderr == Some(t)
                    &&& opt_text(c.body) == Some(base64_encoding(old(self)@.tail))
                    &&& final(self)@.log == old(self)@.log.push(c)
                },
                _ => final(self)@.log == old(self)@.log,
            },
            old(self)@.step != RunStep::Read ==> final(self)@.stdout == old(self)@.stdout,
            old(self)@.step != RunStep::Read && old(self)@.step != RunStep::ReadStderr
                ==> final(self)@.log == old(self)@.log,
    {
        match self.step {
            RunStep::WriteScript => {
                match event {
                    RunEvent::Completed => {
                        self.pending = Some(start_chunk(self.script.name.as_str()));
                        self.step = RunStep::SubmitStart;
                    },
                    _ => {
                        self.step = RunStep::Done;
                    },
                }
            },
            RunStep::SubmitStart => {
                self.pending = None;
                self.step = RunStep::Spawn;
            },
            RunStep::Spawn => {
                match event {
                    RunEvent::Completed => {
                        self.step = RunStep::WriteCredential;
                    },
                    _ => {
                        self.step = RunStep::Done;
                    },
                }
            },
            RunStep::WriteCredential => {
                match event {
                    RunEvent::Completed => {
                        self.step = RunStep::Register;
                    },
                    _ => {
                        self.step = RunStep::Reap;
                    },
                }
            },
            RunStep::Reap => {
                self.step = RunStep::Done;
            },
            RunStep::Register => {
                self.step = RunStep::Read;
            },
            RunStep::Read => {
                match event {
                    RunEvent::Output(bytes) => {
                        proof {
                            assert(self.tail@ =~= Seq::<u8>::empty());
                            assert(flatten_bytes(self.payloads@) =~= self.stdout@);
                        }
                        self.stdout = Ghost(self.stdout@ + bytes@);
                        if bytes.len() == self.chunk_size {
                            let no = self.sent + 1;
                            let chunk = SubmissionChunk {
                                trace: self.script.name.clone(),
                                status: ChunkStatus::Wip,
                                body: Some(encode_body(bytes.as_slice())),
                                stderr: None,
                                no,
                            };
                            proof {
                                lemma_flatten_push(self.payloads@, bytes@);
                                assert(flatten_bytes(self.payloads@.push(bytes@)) + self.tail@
                                    =~= self.stdout@);
                            }
                            self.log = Ghost(self.log@.push(chunk));
                            self.payloads = Ghost(self.payloads@.push(bytes@));
                            self.sent = no;
                            self.pending = Some(chunk);
                            self.step = RunStep::SubmitOutput;
                        } else {
                            self.tail = bytes;
                            self.step = RunStep::ReadStderr;
                        }
                    },
                    _ => {
                        self.step = RunStep::Unregister;
                    },
                }
            },
            RunStep::SubmitOutput => {
                self.pending = None;
                self.step = RunStep::Read;
            },
            RunStep::ReadStderr => {
                match event {
                    RunEvent::ErrorOutput(text) => {
                        let no = self.sent + 1;
                        let ghost tail = self.tail@;
                        let body = Some(encode_body(self.tail.as_slice()));
                        let chunk = SubmissionChunk {
                            trace: self.script.name.clone(),
                            status: ChunkStatus::Finished,
                            body,
                            stderr: Some(text),
                            no,
                        };
                        proof {
                            lemma_flatten_push(self.payloads@, tail);
                        }
                        self.log = Ghost(self.log@.push(chunk));
                        self.payloads = Ghost(self.payloads@.push(tail));
                        self.tail = Vec::new();
                        proof {
                            assert(flatten_bytes(self.payloads@) + self.tail@ =~= self.stdout@);
                        }
                        self.sent = no;
                        self.finished = true;
                        self.pending = Some(chunk);
                        self.step = RunStep::SubmitFinished;
                    },
                    _ => {
                        self.step = RunStep::Unregister;
                    },
                }
            },
            RunStep::SubmitFinished => {
                self.pending = None;
                self.step = RunStep::Unregister;
            },
            RunStep::Unregister => {
                self.step = RunStep::Done;
            },
            RunStep::Done => {},
        }
    }
}

/// `run` is the untouched run of `def` with backend `b` for `duration`
/// seconds, wherever its script is to be written: at its first step, for
/// the definition's id, with the script of `def`, the launch plan of that
/// script, the configured credential and chunk size, and nothing read or
/// sent yet.
pub open spec fn is_prepared_run(
    run: RunView,
    def: Trace,
    b: Backend,
    duration: nat,
    cfg: GlobalConfig,
) -> bool {
    &&& run.wf()
    &&& run.step == RunStep::WriteScript
    &&& run.trace_id == def.id
    &&& run.content == script_text(b, def.process@, texts(def.function_list@), duration)
    &&& run.plan.program@ == ELEVATION_PROGRAM@
    &&& texts(run.plan.args@) == launch_args_text(cfg, b, run.name, texts(def.options@))
    &&& env_pairs_match(run.plan.envs@, def)
    &&& run.credential == cfg.root_password@
    &&& run.chunk_size == cfg.submit_chunk_size
    &&& run.log.len() == 0
    &&& run.stdout.len() == 0
    &&& run.pending is None
}

/// A prepared run whose script goes to a fresh path.
pub open spec fn is_fresh_run(
    run: RunView,
    def: Trace,
    b: Backend,
    duration: nat,
    cfg: GlobalConfig,
) -> bool {
    &&& is_prepared_run(run, def, b, duration, cfg)
    &&& exists|id: Seq<char>| id.len() == 36 && run.name == script_path_text(b, id)
}

impl Trace {
    /// Prepares a run of this definition with backend `b`, ending after
    /// `duration` seconds, whose script goes to the path of identifier
    /// `id`. The caller drives it step by step.
    pub fn prepare_run(&self, id: &str, duration: u64, b: Backend, cfg: &GlobalConfig) -> (r:
        TraceRun)
        requires
            self.environment@.len() == self.values@.len(),
            cfg.submit_chunk_size > 0,
        ensures
            is_prepared_run(r@, *self, b, duration as nat, *cfg),
            r@.name == script_path_text(b, id@),
    {
        let script = self.to_script_at(b, duration, id);
        let plan = launch_plan(self, b, cfg, script.name.as_str());
        let run = TraceRun {
            step: RunStep::WriteScript,
            trace_id: self.id,
            script,
            plan,
            credential: cfg.root_password.clone(),
            chunk_size: cfg.submit_chunk_size,
            sent: 0,
            finished: false,
            tail: Vec::new(),
            pending: None,
            log: Ghost(Seq::empty()),
            payloads: Ghost(Seq::empty()),
            stdout: Ghost(Seq::empty()),
        };
        assert(flatten_bytes(run@.payloads) + run@.tail =~= run@.stdout);
        run
    }

    /// Prepares a run of this definition with backend `b`, ending after
    /// `duration` seconds, whose script goes to a fresh path. `None` when
    /// no fresh identifier could be drawn.
    pub fn run(&self, duration: u64, b: Backend, cfg: &GlobalConfig) -> (r: Option<TraceRun>)
        requires
            self.environment@.len() == self.values@.len(),
            cfg.submit_chunk_size > 0,
        ensures
            r matches Some(run) ==> is_fresh_run(run@, *self, b, duration as nat, *cfg),
    {
        match fresh_identifier() {
            Some(id) => Some(self.prepare_run(id.as_str(), duration, b, cfg)),
            None => None,
        }
    }
}

impl TraceRun {
    /// Records the run as running, at the `Register` step: its name maps to
    /// the spawned tracer `child`, started at `start_time`, for the run's
    /// definition.
    pub fn register<H>(&self, registry: &mut Registry<H>, start_time: i64, child: H)
        requires
            old(registry).wf(),
            self@.step == RunStep::Register,
        ensures
            final(registry).wf(),
            final(registry)@ == old(registry)@.insert(
                self@.name,
                RunningTrace { start_time, trace_id: self@.trace_id, child },
            ),
    {
        put_running(
            registry,
            self.script.name.as_str(),
            RunningTrace { start_time, trace_id: self.trace_id, child },
        );
    }

    /// Removes the run from the registry, at the `Unregister` step.
    pub fn unregister<H>(&self, registry: &mut Registry<H>)
        requires
            old(registry).wf(),
            self@.step == RunStep::Unregister,
        ensures
            final(registry).wf(),
            final(registry)@ == old(registry)@.remove(self@.name),
    {
        remove_running(registry, self.script.name.as_str());
    }
}

/// Why a start request was refused.
#[derive(Debug, Clone, Copy, PartialEq, Eq, Structural)]
pub enum StartError {
    NoSuchTrace,
    UnknownBackend,
    NegativeDuration,
    MalformedDefinition,
    /// No fresh identifier for the script could be drawn.
    NoIdentifier,
}

pub const NO_SUCH_TRACE: &'static str = "no such trace";

pub const UNKNOWN_BACKEND: &'static str = "unknown trace type";

pub const NEGATIVE_DURATION: &'static str = "negative duration";

pub const MALFORMED_DEFINITION: &'static str = "malformed trace definition";

pub const NO_IDENTIFIER: &'static str = "unable to name the trace script";

impl StartError {
    /// The text reported to the client.
    pub fn message(&self) -> (r: String)
        ensures
            r@ == match self {
                StartError::NoSuchTrace => NO_SUCH_TRACE@,
                StartError::UnknownBackend => UNKNOWN_BACKEND@,
                StartError::NegativeDuration => NEGATIVE_DURATION@,
                StartError::MalformedDefinition => MALFORMED_DEFINITION@,
                StartError::NoIdentifier => NO_IDENTIFIER@,
            },
    {
        match self {
            StartError::NoSuchTrace => String::from_str(NO_SUCH_TRACE),
            StartError::UnknownBackend => String::from_str(UNKNOWN_BACKEND),
            StartError::NegativeDuration => String::from_str(NEGATIVE_DURATION),
            StartError::MalformedDefinition => String::from_str(MALFORMED_DEFINITION),
            StartError::NoIdentifier => String::from_str(NO_IDENTIFIER),
        }
    }
}

/// Answers a request to start definition `def` (as looked up by id) with
/// the backend named `trace_type` for `lasting` seconds. The refusals are
/// checked in this order: no such definition, unknown backend, negative
/// duration, a stored definition whose environment lists differ in length;
/// last, the random generator may fail to name the script.
pub fn start_run(def: Option<&Trace>, trace_type: &str, lasting: i32, cfg: &GlobalConfig) -> (r:
    Result<TraceRun, StartError>)
    requires
        cfg.submit_chunk_size > 0,
    ensures
        match def {
            None => r == Err::<TraceRun, StartError>(StartError::NoSuchTrace),
            Some(d) => match backend_named(trace_type@) {
                None => r == Err::<TraceRun, StartError>(StartError::UnknownBackend),
                Some(b) => if lasting < 0 {
                    r == Err::<TraceRun, StartError>(StartError::NegativeDuration)
                } else if d.environment@.len() != d.values@.len() {
                    r == Err::<TraceRun, StartError>(StartError::MalformedDefinition)
                } else {
                    match r {
                        Ok(run) => is_fresh_run(run@, *d, b, lasting as nat, *cfg),
                        Err(e) => e == StartError::NoIdentifier,
                    }
                },
            },
        },
{
    match def {
        None => Err(StartError::NoSuchTrace),
        Some(d) => match Backend::from_name(trace_type) {
            None => Err(StartError::UnknownBackend),
            Some(b) => {
                if lasting < 0 {
                    Err(StartError::NegativeDuration)
                } else if d.environment.len() != d.values.len() {
                    Err(StartError::MalformedDefinition)
                } else {
                    match d.run(lasting as u64, b, cfg) {
                        Some(run) => Ok(run),
                        None => Err(StartError::NoIdentifier),
                    }
                }
            },
        },
    }
}

/// A run that ended normally numbered its work-in-progress chunks 1 to m
/// with no gap and its finished chunk m + 1; the chunks' bytes, joined in
/// order, are exactly the bytes read from standard output, and each chunk's
/// body is the encoding of its own bytes alone.
pub proof fn lemma_output_sequence(run: RunView)
    requires
        run.wf(),
        run.finished,
    ensures
        run.log.len() >= 1,
        forall|i: int|
            0 <= i < run.log.len() - 1 ==> #[trigger] run.log[i].status == ChunkStatus::Wip
                && run.log[i].no == i + 1,
        run.log.last().status == ChunkStatus::Finished,
        run.log.last().no == run.log.len(),
        flatten_bytes(run.payloads) == run.stdout,
        forall|i: int|
            0 <= i < run.log.len() ==> opt_text(#[trigger] run.log[i].body) == Some(
                base64_encoding(run.payloads[i]),
            ) && run.log[i].trace@ == run.name,
{
    assert(run.payloads.len() >= 1);
    assert(output_chunk_fits(
        run.log[run.log.len() - 1],
        run.log.len() - 1,
        run.name,
        run.payloads[run.log.len() - 1],
        run.chunk_size,
        true,
    ));
    assert(flatten_bytes(run.payloads) + run.tail =~= flatten_bytes(run.payloads));
    assert forall|i: int| 0 <= i < run.log.len() - 1 implies #[trigger] run.log[i].status
        == ChunkStatus::Wip && run.log[i].no == i + 1 by {
        assert(output_chunk_fits(
            run.log[i],
            i,
            run.name,
            run.payloads[i],
            run.chunk_size,
            false,
        ));
    }
}

/// The run's name enters the registry only at the `Register` step, which
/// follows only a spawned tracer that took its credential, and it leaves
/// only through the `Unregister` step.
pub proof fn lemma_registration_window(s: RunStep, e: RunEvent, chunk_size: nat)
    ensures
        !is_registered_step(s) && is_registered_step(next_step(s, e, chunk_size)) ==> s
            == RunStep::Register,
        is_registered_step(s) && !is_registered_step(next_step(s, e, chunk_size)) ==> s
            == RunStep::Unregister,
        next_step(s, e, chunk_size) == RunStep::Register ==> s == RunStep::WriteCredential
            && e is Completed,
{
}

/// The registry holds an entry for the run named `name` exactly while the
/// run is at a registered step, and that entry is for definition
/// `trace_id`.
pub open spec fn registry_tracks<H>(
    reg: Map<Seq<char>, RunningTrace<H>>,
    step: RunStep,
    name: Seq<char>,
    trace_id: i32,
) -> bool {
    &&& reg.contains_key(name) <==> is_registered_step(step)
    &&& reg.contains_key(name) ==> reg[name].trace_id == trace_id
}

/// A run keeps its registry entry from the `Register` step, which follows
/// the credential write and precedes the first read of output, until the
/// `Unregister` step, which follows the finished chunk: when the registry
/// changes only by `register` at `Register` and `unregister` at
/// `Unregister`, each advance keeps the entry in step with the run.
pub proof fn lemma_registry_tracks_run<H>(
    reg: Map<Seq<char>, RunningTrace<H>>,
    s: RunStep,
    e: RunEvent,
    chunk_size: nat,
    name: Seq<char>,
    trace_id: i32,
    start_time: i64,
    child: H,
)
    requires
        registry_tracks(reg, s, name, trace_id),
    ensures
        s == RunStep::Register ==> registry_tracks(
            reg.insert(name, RunningTrace { start_time, trace_id, child }),
            next_step(s, e, chunk_size),
            name,
            trace_id,
        ),
        s == RunStep::Unregister ==> registry_tracks(
            reg.remove(name),
            next_step(s, e, chunk_size),
            name,
            trace_id,
        ),
        s != RunStep::Register && s != RunStep::Unregister ==> registry_tracks(
            reg,
            next_step(s, e, chunk_size),
            name,
            trace_id,
        ),
        next_step(s, e, chunk_size) == RunStep::Unregister && s != RunStep::Unregister
            ==> reg.contains_key(name),
{
}

} // verus!
