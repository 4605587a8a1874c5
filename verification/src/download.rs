//! The download streamer: sends a file's bytes to the client chunk by chunk
//! as they are read from disk, without buffering the file. The filesystem and
//! network edge drives the stream: it reports each read and performs the
//! action the stream returns. Once the response has begun, a read failure can
//! no longer change the status; the connection is simply closed, leaving the
//! client with a truncated body.

use vstd::prelude::*;
use vstd::slice::slice_to_vec;
use crate::http::{Response, ResponseBody, STATUS_NOT_FOUND, STATUS_OK};

verus! {

/// Where a download stands: still streaming, finished cleanly, or cut short
/// by a mid-stream read failure.
pub enum DownloadPhase {
    Streaming,
    Completed,
    Truncated,
}

/// What the edge reports to the stream.
pub enum DownloadEvent {
    /// The next chunk of the file was read.
    ChunkRead(Vec<u8>),
    /// The file has no further bytes.
    EndOfFile,
    /// Reading the file failed after the response had begun.
    ReadFailed,
}

/// What the stream asks the edge to do next.
pub enum DownloadAction {
    /// Send these bytes to the client as the next piece of the body.
    SendChunk(Vec<u8>),
    /// End the response body cleanly.
    FinishResponse,
    /// Close the connection; the client sees a truncated body.
    AbortConnection,
}

/// The stream's state. `sent` records the bytes handed to the client so far,
/// in order. Only the phase is carried at run time, so the stream's memory
/// use is independent of the file's size.
pub struct DownloadStream {
    pub phase: DownloadPhase,
    pub sent: Ghost<Seq<u8>>,
}

impl DownloadStream {
    /// A stream over a file that was just opened: nothing sent yet.
    pub fn new() -> (s: Self)
        ensures
            s.phase is Streaming,
            s.sent@ == Seq::<u8>::empty(),
    {
        DownloadStream { phase: DownloadPhase::Streaming, sent: Ghost(Seq::empty()) }
    }
}

/// The download handler's decision at the open: any failure to open the named
/// file collapses to 404 with an empty body; a successful open begins a 200
/// response whose body the stream produces.
pub fn start_download(open_ok: bool) -> (r: Result<(Response, DownloadStream), Response>)
    ensures
        open_ok ==> (r matches Ok(p) && p.0.status == STATUS_OK && p.0.body is Streamed
            && p.1.phase is Streaming && p.1.sent@ == Seq::<u8>::empty()),
        !open_ok ==> (r matches Err(e) && e.status == STATUS_NOT_FOUND && e.body is Empty),
{
    if open_ok {
        Ok((Response { status: STATUS_OK, body: ResponseBody::Streamed }, DownloadStream::new()))
    } else {
        Err(Response { status: STATUS_NOT_FOUND, body: ResponseBody::Empty })
    }
}

/// One decision of the stream. A chunk read from the file is handed straight
/// on to the client; end of file finishes the body cleanly; a read failure
/// closes the connection, with everything sent so far already at the client.
pub fn download_step(s: &mut DownloadStream, ev: DownloadEvent) -> (act: DownloadAction)
    requires
        old(s).phase is Streaming,
    ensures
        ev matches DownloadEvent::ChunkRead(c) ==> (final(s).phase is Streaming
            && final(s).sent@ == old(s).sent@ + c@
            && (act matches DownloadAction::SendChunk(w) && w@ == c@)),
        ev is EndOfFile ==> (final(s).phase is Completed
            && final(s).sent@ == old(s).sent@
            && act is FinishResponse),
        ev is ReadFailed ==> (final(s).phase is Truncated
            && final(s).sent@ == old(s).sent@
            && act is AbortConnection),
{
    match ev {
        DownloadEvent::ChunkRead(c) => {
            let ghost done = s.sent@ + c@;
            s.sent = Ghost(done);
            DownloadAction::SendChunk(c)
        },
        DownloadEvent::EndOfFile => {
            s.phase = DownloadPhase::Completed;
            DownloadAction::FinishResponse
        },
        DownloadEvent::ReadFailed => {
            s.phase = DownloadPhase::Truncated;
            DownloadAction::AbortConnection
        },
    }
}

/// The body a download delivers when the file is read as the given chunks:
/// their concatenation in read order.
pub open spec fn downloaded_body(chunks: Seq<Seq<u8>>) -> Seq<u8> {
    chunks.flatten()
}

/// Drives one whole successful download of a file read as the given chunks.
/// Returns the bytes delivered to the client and the finished stream: the
/// body is exactly the file's chunks concatenated in read order.
pub fn run_download(chunks: &Vec<Vec<u8>>) -> (r: (Vec<u8>, DownloadStream))
    ensures
        r.0@ == downloaded_body(chunks.deep_view()),
        r.1.phase is Completed,
        r.1.sent@ == r.0@,
{
    let ghost dv = chunks.deep_view();
    let mut stream = DownloadStream::new();
    let mut body: Vec<u8> = Vec::new();
    proof {
        assert(dv.take(0) =~= Seq::<Seq<u8>>::empty());
    }
    let n = chunks.len();
    for i in 0..n
        invariant
            n == chunks@.len(),
            dv == chunks.deep_view(),
            stream.phase is Streaming,
            stream.sent@ == dv.take(i as int).flatten(),
            body@ == stream.sent@,
    {
        let c = slice_to_vec(chunks[i].as_slice());
        proof {
            assert(c@ == dv[i as int]);
        }
        let act = download_step(&mut stream, DownloadEvent::ChunkRead(c));
        match act {
            DownloadAction::SendChunk(mut w) => {
                body.append(&mut w);
            },
            _ => {
                proof {
                    assert(false);
                }
            },
        }
        proof {
            dv.take(i as int).lemma_flatten_push(dv[i as int]);
            assert(dv.take(i as int).push(dv[i as int]) =~= dv.take(i + 1));
        }
    }
    proof {
        assert(dv.take(n as int) =~= dv);
    }
    let _finish = download_step(&mut stream, DownloadEvent::EndOfFile);
    (body, stream)
}

/// Drives a download that fails mid-stream: the first `sent_chunks` chunks
/// are read and sent, then a read fails. The client is left with a truncated
/// body — exactly the chunks sent before the failure — and no error status
/// can be signalled any more.
pub fn run_download_truncated(chunks: &Vec<Vec<u8>>, sent_chunks: usize) -> (r: (
    Vec<u8>,
    DownloadStream,
))
    requires
        sent_chunks <= chunks@.len(),
    ensures
        r.0@ == downloaded_body(chunks.deep_view().take(sent_chunks as int)),
        r.1.phase is Truncated,
        r.1.sent@ == r.0@,
{
    let ghost dv = chunks.deep_view();
    let mut stream = DownloadStream::new();
    let mut body: Vec<u8> = Vec::new();
    proof {
        assert(dv.take(0) =~= Seq::<Seq<u8>>::empty());
    }
    for i in 0..sent_chunks
        invariant
            sent_chunks <= chunks@.len(),
            dv == chunks.deep_view(),
            stream.phase is Streaming,
            stream.sent@ == dv.take(i as int).flatten(),
            body@ == stream.sent@,
    {
        let c = slice_to_vec(chunks[i].as_slice());
        proof {
            assert(c@ == dv[i as int]);
        }
        let act = download_step(&mut stream, DownloadEvent::ChunkRead(c));
        match act {
            DownloadAction::SendChunk(mut w) => {
                body.append(&mut w);
            },
            _ => {
                proof {
                    assert(false);
                }
            },
        }
        proof {
            dv.take(i as int).lemma_flatten_push(dv[i as int]);
            assert(dv.take(i as int).push(dv[i as int]) =~= dv.take(i + 1));
        }
    }
    let _closed = download_step(&mut stream, DownloadEvent::ReadFailed);
    (body, stream)
}

} // verus!
