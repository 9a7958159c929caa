//! Documents that were empty before an import: what comes of it rests on the bytes
//! alone.

use vstd::prelude::*;

use super::blob::{admissible, envelope_failure};
use super::version::import_outcomes;

verus! {

/// What the import of bytes into an empty document gives: whether changes stayed
/// pending, or the text of the failure.
pub uninterp spec fn fresh_import(bytes: Seq<u8>) -> Result<bool, Seq<char>>;

/// What the import of bytes gives after that of others into an empty document: whether
/// changes stayed pending, or the text of the failure.
pub uninterp spec fn tail_import(first: Seq<u8>, bytes: Seq<u8>) -> Result<bool, Seq<char>>;

/// A document that has imported one blob, and was empty before. The fields are private,
/// and only `import_fresh` fills them, so nothing else has come into the document.
pub(crate) struct FreshDocument<'a> {
    doc: loro::LoroDoc,
    taken: &'a [u8],
}

impl<'a> FreshDocument<'a> {
    pub closed spec fn document(self) -> loro::LoroDoc {
        self.doc
    }

    /// The bytes that were imported.
    pub closed spec fn taken(self) -> Seq<u8> {
        self.taken@
    }

    pub fn into_document(self) -> (r: loro::LoroDoc)
        ensures
            r == self.document(),
    {
        self.doc
    }
}

/// Calls `loro::LoroDoc::new` and `loro::LoroDoc::import` on the new document, and says
/// whether changes stayed pending. The contract names the outcome. It rests on the bytes
/// alone, and bytes without an envelope fail with the text that `Display` of the failure
/// writes. Bytes that the import would not come back from are not admissible.
#[verifier::external_body]
pub(crate) fn import_fresh<'a>(bytes: &'a [u8]) -> (r: Result<(FreshDocument<'a>, bool), String>)
    requires
        admissible(bytes@),
    ensures
        match r {
            Ok((fresh, pending)) => fresh_import(bytes@) == Ok::<bool, Seq<char>>(pending)
                && fresh.taken() == bytes@ && import_outcomes(fresh.document()).contains(
                (bytes@, Ok::<bool, Seq<char>>(pending)),
            ),
            Err(e) => fresh_import(bytes@) == Err::<bool, Seq<char>>(e@),
        },
        envelope_failure(bytes@) matches Some(cause) ==> r is Err && r->Err_0@ == cause,
{
    let doc = loro::LoroDoc::new();
    doc.import(bytes)
        .map(|status| (FreshDocument { doc, taken: bytes }, status.pending.is_some()))
        .map_err(|err| err.to_string())
}

/// Calls `loro::LoroDoc::import` on a document that has imported one blob, and says
/// whether changes stayed pending. The contract names the outcome, which rests on the two
/// byte strings alone. Bytes without an envelope fail with the text that `Display` of the
/// failure writes. Bytes that the import would not come back from are not admissible.
#[verifier::external_body]
pub(crate) fn import_tail<'a>(first: FreshDocument<'a>, bytes: &[u8]) -> (r: Result<
    (loro::LoroDoc, bool),
    String,
>)
    requires
        admissible(bytes@),
    ensures
        match r {
            Ok((doc, pending)) => tail_import(first.taken(), bytes@) == Ok::<bool, Seq<char>>(
                pending,
            ) && doc == first.document() && import_outcomes(doc).contains(
                (bytes@, Ok::<bool, Seq<char>>(pending)),
            ),
            Err(e) => tail_import(first.taken(), bytes@) == Err::<bool, Seq<char>>(e@),
        },
        envelope_failure(bytes@) matches Some(cause) ==> r is Err && r->Err_0@ == cause,
{
    let doc = first.doc;
    doc.import(bytes)
        .map(|status| (doc, status.pending.is_some()))
        .map_err(|err| err.to_string())
}

} // verus!
