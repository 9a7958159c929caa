//! Import blobs: the bytes that carry changes from one document to another.

use vstd::prelude::*;

verus! {

/// The size of the envelope that every blob begins with.
pub const BLOB_HEADER_BYTES: usize = 22;

/// Why bytes that are no blob at all cannot be read: they are too short for an
/// envelope, or do not begin with the mark `loro`.
pub open spec fn envelope_failure(bytes: Seq<u8>) -> Option<Seq<char>> {
    if bytes.len() < BLOB_HEADER_BYTES {
        Some("Decode error: (Invalid import data)"@)
    } else if bytes.take(4) != seq![0x6cu8, 0x6fu8, 0x72u8, 0x6fu8] {
        Some("Decode error: (Invalid magic bytes)"@)
    } else {
        None
    }
}

/// Whether `loro::LoroDoc::import` and `loro::LoroDoc::decode_import_blob_meta` come back
/// from bytes with an envelope, with a result or with a failure, whatever the document.
/// They do from what `loro::LoroDoc::export` writes. They do not from all bytes: a
/// snapshot made up so that its history starts at several changes at once stops them at
/// an assertion.
pub uninterp spec fn readable_blob(bytes: Seq<u8>) -> bool;

/// Bytes that may be handed to a document: they have no envelope, and are refused for
/// it, or they can be read.
pub open spec fn admissible(bytes: Seq<u8>) -> bool {
    envelope_failure(bytes) is Some || readable_blob(bytes)
}

/// Bytes that may be handed to a document. A blob is made by writing a document out, or
/// of bytes that a store or a room kept of such a writing.
#[derive(Debug)]
pub struct Blob {
    bytes: Vec<u8>,
}

impl View for Blob {
    type V = Seq<u8>;

    closed spec fn view(&self) -> Seq<u8> {
        self.bytes@
    }
}

impl Blob {
    #[verifier::type_invariant]
    spec fn may_be_read(self) -> bool {
        admissible(self.bytes@)
    }

    /// The blob of bytes that came from outside. A device wrote them out from its
    /// document, and a store or a room has kept them since; in their place there may be
    /// bytes without an envelope.
    pub fn received(bytes: Vec<u8>) -> (r: Self)
        requires
            admissible(bytes@),
        ensures
            r@ == bytes@,
    {
        Blob { bytes }
    }

    pub fn as_bytes(&self) -> (r: &[u8])
        ensures
            r@ == self@,
            admissible(r@),
    {
        proof {
            use_type_invariant(self);
        }
        self.bytes.as_slice()
    }

    pub fn len(&self) -> (r: usize)
        ensures
            r == self@.len(),
    {
        self.bytes.len()
    }

    pub fn into_bytes(self) -> (r: Vec<u8>)
        ensures
            r@ == self@,
            admissible(r@),
    {
        proof {
            use_type_invariant(&self);
        }
        self.bytes
    }
}

/// The exports of the whole log of a document over its life: the bytes of each, or the
/// text of the failure.
pub uninterp spec fn log_exports(doc: loro::LoroDoc) -> Set<Result<Seq<u8>, Seq<char>>>;

/// Calls `loro::LoroDoc::export` for all updates since the empty version. The outcome is
/// one of the exports of this document, and what is written has an envelope and can be
/// read. Which changes are in it depends on what the document holds at the time, and so
/// does whether they can be written; nothing is promised of that.
#[verifier::external_body]
fn export_updates(doc: &loro::LoroDoc) -> (r: Result<Vec<u8>, String>)
    ensures
        match r {
            Ok(bytes) => log_exports(*doc).contains(Ok::<Seq<u8>, Seq<char>>(bytes@))
                && envelope_failure(bytes@) is None && readable_blob(bytes@),
            Err(e) => log_exports(*doc).contains(Err::<Seq<u8>, Seq<char>>(e@)),
        },
{
    doc.export(loro::ExportMode::all_updates()).map_err(|err| err.to_string())
}

/// Writes out the whole log of a document.
pub fn full_log(doc: &loro::LoroDoc) -> (r: Result<Blob, String>)
    ensures
        match r {
            Ok(blob) => log_exports(*doc).contains(Ok::<Seq<u8>, Seq<char>>(blob@))
                && envelope_failure(blob@) is None,
            Err(e) => log_exports(*doc).contains(Err::<Seq<u8>, Seq<char>>(e@)),
        },
{
    match export_updates(doc) {
        Ok(bytes) => Ok(Blob::received(bytes)),
        Err(e) => Err(e),
    }
}

} // verus!
