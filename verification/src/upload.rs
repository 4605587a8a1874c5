//! The upload sink: receives a request body chunk by chunk and has each chunk
//! written to the destination file as it arrives, in arrival order, without
//! buffering the body. The network and filesystem edge drives the sink: it
//! reports each event and performs the action the sink returns.

use vstd::prelude::*;
use vstd::slice::slice_to_vec;
use crate::http::{Response, ResponseBody, STATUS_OK, STATUS_SERVER_ERROR};

verus! {

/// Where an upload stands: waiting for the next body chunk, waiting for the
/// outcome of a write, or finished.
pub enum UploadPhase {
    Receiving,
    Writing,
    Succeeded,
    Failed,
}

/// What the edge reports to the sink.
pub enum UploadEvent {
    /// The next body chunk arrived.
    ChunkArrived(Vec<u8>),
    /// The body stream reported that no more chunks are coming.
    BodyEnded,
    /// Reading the request body failed.
    BodyReadFailed,
    /// The write of the pending chunk completed.
    WriteSucceeded,
    /// The write of the pending chunk failed.
    WriteFailed,
}

/// What the sink asks the edge to do next.
pub enum UploadAction {
    /// Write these bytes to the destination file, then report the outcome.
    WriteChunk(Vec<u8>),
    /// Await the next body chunk, or the end of the body, and report it.
    ReadNextChunk,
    /// The upload is over: send this response.
    Respond(Response),
}

/// The sink's state. `written` records the bytes whose writes have completed,
/// in order; `pending` is the chunk currently handed to the edge for writing.
/// Only the phase is carried at run time, so the sink's memory use is
/// independent of the upload's size.
pub struct UploadSink {
    pub phase: UploadPhase,
    pub written: Ghost<Seq<u8>>,
    pub pending: Ghost<Seq<u8>>,
}

impl UploadSink {
    /// A sink over a freshly created (or truncated) destination file: no
    /// prior content survives.
    pub fn new() -> (s: Self)
        ensures
            s.phase is Receiving,
            s.written@ == Seq::<u8>::empty(),
    {
        UploadSink {
            phase: UploadPhase::Receiving,
            written: Ghost(Seq::empty()),
            pending: Ghost(Seq::empty()),
        }
    }
}

/// Which events the edge may report in the sink's current phase: chunks and
/// end-of-body while receiving, write outcomes while a write is out, nothing
/// once the upload is over.
pub open spec fn upload_accepts(s: UploadSink, ev: UploadEvent) -> bool {
    match s.phase {
        UploadPhase::Receiving => ev is ChunkArrived || ev is BodyEnded || ev is BodyReadFailed,
        UploadPhase::Writing => ev is WriteSucceeded || ev is WriteFailed,
        UploadPhase::Succeeded => false,
        UploadPhase::Failed => false,
    }
}

/// The upload handler's decision before any body is read: if the destination
/// file could not be created, the upload is over with a server error and the
/// body is never touched; otherwise a fresh sink takes the body.
pub fn start_upload(create_ok: bool) -> (r: Result<UploadSink, Response>)
    ensures
        create_ok ==> (r matches Ok(s) && s.phase is Receiving
            && s.written@ == Seq::<u8>::empty()),
        !create_ok ==> (r matches Err(e) && e.status == STATUS_SERVER_ERROR && e.body is Empty),
{
    if create_ok {
        Ok(UploadSink::new())
    } else {
        Err(Response { status: STATUS_SERVER_ERROR, body: ResponseBody::Empty })
    }
}

/// One decision of the sink. A chunk is handed straight back for writing; a
/// completed write extends the recorded content; the end of the body finishes
/// the upload with 200 and an empty body; a body-read or write failure aborts
/// it with a server error, leaving whatever was already written on disk.
pub fn upload_step(s: &mut UploadSink, ev: UploadEvent) -> (act: UploadAction)
    requires
        upload_accepts(*old(s), ev),
    ensures
        ev matches UploadEvent::ChunkArrived(c) ==> (final(s).phase is Writing
            && final(s).pending@ == c@
            && final(s).written@ == old(s).written@
            && (act matches UploadAction::WriteChunk(w) && w@ == c@)),
        ev is WriteSucceeded ==> (final(s).phase is Receiving
            && final(s).written@ == old(s).written@ + old(s).pending@
            && act is ReadNextChunk),
        ev is WriteFailed ==> (final(s).phase is Failed
            && final(s).written@ == old(s).written@
            && (act matches UploadAction::Respond(r) && r.status == STATUS_SERVER_ERROR
                && r.body is Empty)),
        ev is BodyEnded ==> (final(s).phase is Succeeded
            && final(s).written@ == old(s).written@
            && (act matches UploadAction::Respond(r) && r.status == STATUS_OK
                && r.body is Empty)),
        ev is BodyReadFailed ==> (final(s).phase is Failed
            && final(s).written@ == old(s).written@
            && (act matches UploadAction::Respond(r) && r.status == STATUS_SERVER_ERROR
                && r.body is Empty)),
{
    match ev {
        UploadEvent::ChunkArrived(c) => {
            s.phase = UploadPhase::Writing;
            s.pending = Ghost(c@);
            UploadAction::WriteChunk(c)
        },
        UploadEvent::BodyEnded => {
            s.phase = UploadPhase::Succeeded;
            UploadAction::Respond(Response { status: STATUS_OK, body: ResponseBody::Empty })
        },
        UploadEvent::BodyReadFailed => {
            s.phase = UploadPhase::Failed;
            UploadAction::Respond(Response { status: STATUS_SERVER_ERROR, body: ResponseBody::Empty })
        },
        UploadEvent::WriteSucceeded => {
            s.phase = UploadPhase::Receiving;
            let ghost done = s.written@ + s.pending@;
            s.written = Ghost(done);
            UploadAction::ReadNextChunk
        },
        UploadEvent::WriteFailed => {
            s.phase = UploadPhase::Failed;
            UploadAction::Respond(Response { status: STATUS_SERVER_ERROR, body: ResponseBody::Empty })
        },
    }
}

/// The bytes a completed upload leaves in the destination file: the uploaded
/// chunks concatenated in arrival order.
pub open spec fn uploaded_content(chunks: Seq<Seq<u8>>) -> Seq<u8> {
    chunks.flatten()
}

/// Drives one whole successful upload: every chunk arrives, every write
/// succeeds, and then the body ends. Returns the bytes the destination file
/// holds afterwards together with the response: the file holds exactly the
/// uploaded chunks in arrival order, and the response is 200 with an empty
/// body.
pub fn run_upload(chunks: &Vec<Vec<u8>>) -> (r: (Vec<u8>, Response))
    ensures
        r.0@ == uploaded_content(chunks.deep_view()),
        r.1.status == STATUS_OK,
        r.1.body is Empty,
{
    let ghost dv = chunks.deep_view();
    let mut sink = UploadSink::new();
    let mut file: Vec<u8> = Vec::new();
    proof {
        assert(dv.take(0) =~= Seq::<Seq<u8>>::empty());
    }
    let n = chunks.len();
    for i in 0..n
        invariant
            n == chunks@.len(),
            dv == chunks.deep_view(),
            sink.phase is Receiving,
            sink.written@ == dv.take(i as int).flatten(),
            file@ == sink.written@,
    {
        let c = slice_to_vec(chunks[i].as_slice());
        proof {
            assert(c@ == dv[i as int]);
        }
        let act = upload_step(&mut sink, UploadEvent::ChunkArrived(c));
        match act {
            UploadAction::WriteChunk(mut w) => {
                file.append(&mut w);
                let _next = upload_step(&mut sink, UploadEvent::WriteSucceeded);
            },
            _ => {
                proof {
                    assert(false);
                }
            },
        }
        proof {
            dv.take(i as int).lemma_flatten_push(dv[i as int]);
            assert(dv.take(i as int).push(dv[i as int]) =~= dv.take(i + 1));
        }
    }
    proof {
        assert(dv.take(n as int) =~= dv);
    }
    let act = upload_step(&mut sink, UploadEvent::BodyEnded);
    match act {
        UploadAction::Respond(resp) => (file, resp),
        _ => {
            proof {
                assert(false);
            }
            vstd::pervasive::unreached()
        },
    }
}

} // verus!
