//! Laws relating the handlers to one another, stated over the same spec
//! functions their contracts use.

use vstd::prelude::*;
use crate::download::downloaded_body;
use crate::listing::listing_text;
use crate::upload::uploaded_content;

verus! {

/// Round trip: a completed upload leaves the destination file holding exactly
/// the uploaded chunks in arrival order, and a download that reads the whole
/// file back — in whatever chunks the filesystem hands out — delivers exactly
/// those bytes again.
pub proof fn lemma_upload_download_round_trip(
    uploaded: Seq<Seq<u8>>,
    stored: Seq<u8>,
    read_back: Seq<Seq<u8>>,
)
    requires
        stored == uploaded_content(uploaded),
        downloaded_body(read_back) == stored,
    ensures
        downloaded_body(read_back) == uploaded.flatten(),
{
}

/// Replacement: an upload writes to a freshly created (or truncated) file, so
/// the stored bytes afterwards are exactly the newly uploaded ones — never
/// the prior content, and never the prior content with the new bytes
/// appended.
pub proof fn lemma_upload_replaces(prior: Seq<u8>, chunks: Seq<Seq<u8>>)
    ensures
        uploaded_content(chunks) == chunks.flatten(),
        prior != chunks.flatten() ==> uploaded_content(chunks) != prior,
        prior.len() > 0 ==> uploaded_content(chunks) != prior + chunks.flatten(),
{
    assert((prior + chunks.flatten()).len() == prior.len() + chunks.flatten().len());
}

/// A download of a file with content `content` delivers exactly `content`,
/// however the filesystem chunks the reads.
pub proof fn lemma_download_delivers_content(content: Seq<u8>, chunks: Seq<Seq<u8>>)
    requires
        chunks.flatten() == content,
    ensures
        downloaded_body(chunks) == content,
{
}

/// The listing depends only on the snapshot of entry names: repeating the
/// request over an unchanged directory yields the identical body, and the
/// request itself changes nothing.
pub proof fn lemma_listing_repeatable(first: Seq<Option<Seq<char>>>, second: Seq<Option<Seq<char>>>)
    requires
        first == second,
    ensures
        listing_text(first) == listing_text(second),
{
}

} // verus!
