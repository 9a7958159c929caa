//! Imports into a shared document, and what is read of it afterwards.

use vstd::prelude::*;

use super::blob::{admissible, envelope_failure};
use super::version::{import_outcomes, version_entries, versions_of, Version};

verus! {

/// The versions that a document has from an import of the given bytes on, one that left
/// changes pending or did not, as given.
pub uninterp spec fn versions_since(doc: loro::LoroDoc, bytes: Seq<u8>, pending: bool) -> Set<
    Map<u64, int>,
>;

/// An import that has come back. The fields are private, and only `import_blob` fills
/// them, so whatever is done with the value is done after the import.
pub(crate) struct Imported<'a> {
    doc: &'a loro::LoroDoc,
    bytes: &'a [u8],
    pending: bool,
}

impl<'a> Imported<'a> {
    /// The document that was imported into.
    pub closed spec fn document(self) -> loro::LoroDoc {
        *self.doc
    }

    /// The bytes that were imported.
    pub closed spec fn taken(self) -> Seq<u8> {
        self.bytes@
    }

    /// Changes stayed pending for want of others.
    pub closed spec fn left_pending(self) -> bool {
        self.pending
    }

    pub fn pending(&self) -> (r: bool)
        ensures
            r == self.left_pending(),
    {
        self.pending
    }
}

/// Calls `loro::LoroDoc::import`. The outcome is one of the imports into this document: an
/// import of these bytes, with whether changes stayed pending for want of others, or the
/// text that `Display` of the failure writes. Whatever the document, bytes without an
/// envelope fail. Which outcome other bytes have depends on what the document holds at
/// the time, so nothing is promised of that. Bytes that it would not come back from are
/// not admissible.
#[verifier::external_body]
pub(crate) fn import_blob<'a>(doc: &'a loro::LoroDoc, bytes: &'a [u8]) -> (r: Result<
    Imported<'a>,
    String,
>)
    requires
        admissible(bytes@),
    ensures
        match r {
            Ok(import) => import.document() == *doc && import.taken() == bytes@ && import_outcomes(
                *doc,
            ).contains((bytes@, Ok::<bool, Seq<char>>(import.left_pending()))),
            Err(e) => import_outcomes(*doc).contains((bytes@, Err::<bool, Seq<char>>(e@))),
        },
        envelope_failure(bytes@) matches Some(cause) ==> r is Err && r->Err_0@ == cause,
{
    doc.import(bytes)
        .map(|status| Imported { doc, bytes, pending: status.pending.is_some() })
        .map_err(|err| err.to_string())
}

/// Calls `loro::LoroDoc::oplog_vv` on the document of an import that has come back: one of
/// the versions that the document has from that import on.
#[verifier::external_body]
pub(crate) fn version_after(import: &Imported<'_>) -> (r: Version)
    ensures
        versions_of(import.document()).contains(version_entries(r)),
        versions_since(import.document(), import.taken(), import.left_pending()).contains(
            version_entries(r),
        ),
{
    Version { vector: import.doc.oplog_vv() }
}

} // verus!
