//! The records sent to the remote platform while a trace runs.

use vstd::prelude::*;

verus! {

/// Where a chunk stands in the stream of one artifact.
#[derive(Debug, Clone, Copy, PartialEq, Eq, Structural)]
pub enum ChunkStatus {
    Start,
    Wip,
    Finished,
}

pub const START_STATUS: &'static str = "start";

pub const WIP_STATUS: &'static str = "WIP";

pub const FINISHED_STATUS: &'static str = "finished";

/// The wire name of a status.
pub open spec fn status_text(s: ChunkStatus) -> Seq<char> {
    match s {
        ChunkStatus::Start => START_STATUS@,
        ChunkStatus::Wip => WIP_STATUS@,
        ChunkStatus::Finished => FINISHED_STATUS@,
    }
}

impl ChunkStatus {
    /// The wire name of this status.
    pub fn name(&self) -> (r: &'static str)
        ensures
            r@ == status_text(*self),
    {
        match self {
            ChunkStatus::Start => START_STATUS,
            ChunkStatus::Wip => WIP_STATUS,
            ChunkStatus::Finished => FINISHED_STATUS,
        }
    }
}

/// One message to the remote platform about the artifact `trace`.
pub struct SubmissionChunk {
    pub trace: String,
    pub status: ChunkStatus,
    /// Output bytes in a text-safe encoding.
    pub body: Option<String>,
    /// The tracer's error output, on the terminal chunk only.
    pub stderr: Option<String>,
    pub no: u64,
}

/// The text of an optional string.
pub open spec fn opt_text(s: Option<String>) -> Option<Seq<char>> {
    match s {
        Some(t) => Some(t@),
        None => None,
    }
}

/// The standard base64 encoding (with padding) of `bytes`, as the
/// encoding reader of base64_stream produces it.
pub uninterp spec fn base64_encoding(bytes: Seq<u8>) -> Seq<char>;

/// Relies on base64_stream::ToBase64Reader over an in-memory cursor: what
/// it yields depends on the bytes alone. Reading from memory does not fail
/// and the encoding is ASCII, so `read_to_string` takes the whole output.
#[verifier::external_body]
fn base64_reader_encode(bytes: &[u8]) -> (r: String)
    ensures
        r@ == base64_encoding(bytes@),
{
    let mut reader = base64_stream::ToBase64Reader::new(std::io::Cursor::new(bytes));
    let mut out = String::new();
    let _ = std::io::Read::read_to_string(&mut reader, &mut out);
    out
}

/// The text-safe form of a slice of tracer output.
pub fn encode_body(bytes: &[u8]) -> (r: String)
    ensures
        r@ == base64_encoding(bytes@),
{
    base64_reader_encode(bytes)
}

/// The chunk announcing artifact `name`, sent before the tracer starts.
pub fn start_chunk(name: &str) -> (r: SubmissionChunk)
    ensures
        r.trace@ == name@,
        r.status == ChunkStatus::Start,
        r.body is None,
        r.stderr is None,
        r.no == 0,
{
    SubmissionChunk {
        trace: String::from_str(name),
        status: ChunkStatus::Start,
        body: None,
        stderr: None,
        no: 0,
    }
}

} // verus!
