//! Versions of a document: which changes of which peer it holds, and whether an
//! imported blob has become part of it.

use vstd::prelude::*;

use super::blob::{admissible, envelope_failure, Blob};
use super::import::{import_blob, version_after, versions_since};
use crate::text::join2;

verus! {

/// `loro::LoroDoc`, a document. What it holds changes behind a shared reference, so
/// nothing is stated of what it holds at a time: only of what it has taken in, and of the
/// versions it has had, over its life.
#[verifier::external_type_specification]
#[verifier::external_body]
pub struct ExLoroDoc(loro::LoroDoc);

/// The imports into a document over its life: the bytes of each, with whether changes
/// stayed pending, or the text of the failure.
pub uninterp spec fn import_outcomes(doc: loro::LoroDoc) -> Set<
    (Seq<u8>, Result<bool, Seq<char>>),
>;

/// The versions that a document has over its life.
pub uninterp spec fn versions_of(doc: loro::LoroDoc) -> Set<Map<u64, int>>;

/// The outcome of an import, with a failure as its text.
pub open spec fn outcome_view(outcome: Result<bool, String>) -> Result<bool, Seq<char>> {
    match outcome {
        Ok(pending) => Ok(pending),
        Err(e) => Err(e@),
    }
}

/// A `loro::VersionVector`: a map from peers to the end of their changes held. It is
/// wrapped, because the hasher that the map is built with has no specification.
#[verifier::external_body]
pub struct Version {
    pub(super) vector: loro::VersionVector,
}

/// The entries of a version vector: for each peer, the end of its changes.
pub uninterp spec fn version_entries(version: Version) -> Map<u64, int>;

/// The entries of the version vector that bytes encode, where they encode one.
pub uninterp spec fn decoded_version(bytes: Seq<u8>) -> Option<Map<u64, int>>;

/// Calls `loro::VersionVector::decode`. The contract names the entries of the result.
#[verifier::external_body]
fn decode_version(bytes: &[u8]) -> (r: Option<Version>)
    ensures
        match r {
            Some(v) => decoded_version(bytes@) == Some(version_entries(v)),
            None => decoded_version(bytes@) is None,
        },
{
    loro::VersionVector::decode(bytes).ok().map(|vector| Version { vector })
}

/// Calls `loro::VersionVector::encode`. Reading its bytes gives back the entries.
#[verifier::external_body]
fn encode_version(version: &Version) -> (r: Vec<u8>)
    ensures
        decoded_version(r@) == Some(version_entries(*version)),
{
    version.vector.encode()
}

/// Calls `is_empty` of the map that a `loro::VersionVector` is: whether it has no
/// entry.
#[verifier::external_body]
fn version_is_empty(version: &Version) -> (r: bool)
    ensures
        r == (version_entries(*version) == Map::<u64, int>::empty()),
{
    version.vector.is_empty()
}

/// The changes of a peer that a version holds: none where it has no entry, or one
/// below zero.
pub open spec fn changes_of(version: Map<u64, int>, peer: u64) -> int {
    if version.dom().contains(peer) && version[peer] > 0 {
        version[peer]
    } else {
        0
    }
}

/// A version holds all that another holds, peer by peer.
pub open spec fn includes(version: Map<u64, int>, other: Map<u64, int>) -> bool {
    forall|peer: u64| #[trigger]
        other.dom().contains(peer) ==> changes_of(other, peer) <= changes_of(version, peer)
}

/// Calls `loro::VersionVector::includes_vv`: whether the first holds, for every peer
/// of the second, at least as many changes. Entries below zero count as zero.
#[verifier::external_body]
fn version_includes(version: &Version, other: &Version) -> (r: bool)
    ensures
        r == includes(version_entries(*version), version_entries(*other)),
{
    version.vector.includes_vv(&other.vector)
}

/// The end of the changes that an import blob carries, or why it cannot be read.
pub uninterp spec fn import_blob_end(bytes: Seq<u8>) -> Result<Map<u64, int>, Seq<char>>;

/// Calls `loro::LoroDoc::decode_import_blob_meta` without its checksum and takes
/// `partial_end_vv`. The contract names the entries, or the text of the failure, and
/// gives that text for bytes without an envelope. Bytes that it would not come back from
/// are not admissible.
#[verifier::external_body]
fn decode_blob_end(bytes: &[u8]) -> (r: Result<Version, String>)
    requires
        admissible(bytes@),
    ensures
        envelope_failure(bytes@) matches Some(cause) ==> r is Err && r->Err_0@ == cause,
        match r {
            Ok(v) => import_blob_end(bytes@) == Ok::<Map<u64, int>, Seq<char>>(
                version_entries(v),
            ),
            Err(e) => import_blob_end(bytes@) == Err::<Map<u64, int>, Seq<char>>(e@),
        },
{
    loro::LoroDoc::decode_import_blob_meta(bytes, false)
        .map(|meta| Version { vector: meta.partial_end_vv })
        .map_err(|err| err.to_string())
}

/// Calls `loro::LoroDoc::oplog_vv`, the version that the document has at the moment: one
/// of those that it has over its life.
#[verifier::external_body]
fn current_version(doc: &loro::LoroDoc) -> (r: Version)
    ensures
        versions_of(*doc).contains(version_entries(r)),
{
    Version { vector: doc.oplog_vv() }
}

/// An import has become part of a document: nothing of it is pending, and the document
/// holds everything up to its end. Changes pending from other blobs do not count
/// against it.
pub fn is_materialized(
    pending: bool,
    version: &Version,
    end: &Version,
) -> (r: bool)
    ensures
        r == (!pending && includes(version_entries(*version), version_entries(*end))),
{
    !pending && version_includes(version, end)
}

/// The document has imported a blob, with the given pending mark, and has a version from
/// that import on; the answer is the one that the two give, for the end of what the blob
/// carries.
pub open spec fn materialized_by(
    doc: loro::LoroDoc,
    bytes: Seq<u8>,
    pending: bool,
    version: Map<u64, int>,
    answer: bool,
) -> bool {
    &&& import_blob_end(bytes) is Ok
    &&& import_outcomes(doc).contains((bytes, Ok::<bool, Seq<char>>(pending)))
    &&& versions_of(doc).contains(version)
    &&& versions_since(doc, bytes, pending).contains(version)
    &&& answer == (!pending && includes(version, import_blob_end(bytes)->Ok_0))
}

/// Import one blob and prove that every change carried by THIS blob is present in the
/// materialized oplog. The pending mark catches the first causally-incomplete
/// delivery; the check of the end also catches a replay of that already-parked blob,
/// which otherwise reads as an empty duplicate. Deliberately do not reject unrelated
/// pending changes from later rows: replaying the intervening rows is how those gaps
/// get repaired. A blob whose range cannot be read is not imported.
///
/// Which outcome the import of another blob has rests on what the document holds. The
/// answer comes from its pending mark and a version that the document has from the import
/// on, as `is_materialized` has it, and a failure is that of the import.
pub fn import_blob_materialized(doc: &loro::LoroDoc, blob: &Blob) -> (r: Result<bool, String>)
    ensures
        envelope_failure(blob@) matches Some(cause) ==> r is Err && r->Err_0@
            == "decode import metadata: "@ + cause,
        import_blob_end(blob@) matches Err(cause) ==> r is Err && r->Err_0@
            == "decode import metadata: "@ + cause,
        import_blob_end(blob@) is Ok && r is Err ==> import_outcomes(*doc).contains(
            (blob@, outcome_view(r)),
        ),
        r is Ok ==> exists|pending: bool, version: Map<u64, int>| #[trigger]
            materialized_by(*doc, blob@, pending, version, r->Ok_0),
{
    let end = match decode_blob_end(blob.as_bytes()) {
        Ok(end) => end,
        Err(e) => return Err(join2("decode import metadata: ", e.as_str())),
    };
    match import_blob(doc, blob.as_bytes()) {
        Ok(import) => {
            let pending = import.pending();
            let version = version_after(&import);
            let whole = is_materialized(pending, &version, &end);
            let r: Result<bool, String> = Ok(whole);
            assert(materialized_by(*doc, blob@, pending, version_entries(version), r->Ok_0));
            r
        },
        Err(e) => Err(e),
    }
}

/// A frontier is within a version. A frontier that cannot be read, or that claims
/// nothing, is never within one: fetching the checkpoint is always safe, and taking an
/// empty claim as held would skip the history behind it.
pub open spec fn frontier_held(version: Map<u64, int>, frontier: Seq<u8>) -> bool {
    match decoded_version(frontier) {
        Some(claimed) => claimed != Map::<u64, int>::empty() && includes(version, claimed),
        None => false,
    }
}

/// Whether a version holds a frontier.
pub fn version_holds_frontier(version: &Version, frontier: &[u8]) -> (r: bool)
    ensures
        r == frontier_held(version_entries(*version), frontier@),
{
    match decode_version(frontier) {
        Some(claimed) => !version_is_empty(&claimed) && version_includes(version, &claimed),
        None => false,
    }
}

/// A frontier claims peers, but no change of any of them, so every version holds it.
pub open spec fn claims_no_change(frontier: Seq<u8>) -> bool {
    match decoded_version(frontier) {
        Some(claimed) => claimed != Map::<u64, int>::empty() && forall|peer: u64| #[trigger]
            claimed.dom().contains(peer) ==> changes_of(claimed, peer) == 0,
        None => false,
    }
}

/// An answer about a frontier is the one that a version of the document gives.
pub open spec fn answered_from(
    doc: loro::LoroDoc,
    version: Map<u64, int>,
    frontier: Seq<u8>,
    answer: bool,
) -> bool {
    versions_of(doc).contains(version) && answer == frontier_held(version, frontier)
}

/// Whether a document holds a frontier at the moment: the answer is that of the version
/// it has when it is asked. Where no version could answer otherwise it is fixed: no for
/// a frontier that cannot be read or claims nobody, and yes for one that claims no
/// change of anybody.
pub fn document_holds_frontier(doc: &loro::LoroDoc, frontier: &[u8]) -> (r: bool)
    ensures
        exists|version: Map<u64, int>| #[trigger] answered_from(*doc, version, frontier@, r),
        decoded_version(frontier@) is None ==> !r,
        decoded_version(frontier@) == Some(Map::<u64, int>::empty()) ==> !r,
        claims_no_change(frontier@) ==> r,
{
    let version = current_version(doc);
    let held = version_holds_frontier(&version, frontier);
    assert(answered_from(*doc, version_entries(version), frontier@, held));
    held
}

/// The frontier that a checkpoint of a document claims: the version that the document
/// has when it is asked.
pub fn document_frontier(doc: &loro::LoroDoc) -> (r: Vec<u8>)
    ensures
        decoded_version(r@) is Some,
        versions_of(*doc).contains(decoded_version(r@)->0),
{
    let version = current_version(doc);
    encode_version(&version)
}

/// Whoever holds a version holds the frontier that it is written as, unless it is
/// empty: a document that has imported a checkpoint in full does not fetch it again.
pub proof fn a_version_holds_its_own_frontier(
    version: Map<u64, int>,
    claimed: Map<u64, int>,
    frontier: Seq<u8>,
)
    requires
        decoded_version(frontier) == Some(claimed),
        claimed != Map::<u64, int>::empty(),
        includes(version, claimed),
    ensures
        frontier_held(version, frontier),
        frontier_held(claimed, frontier),
{
}

/// What a version holds it holds of every version in between: holding is transitive,
/// and every version holds itself.
pub proof fn holding_is_a_preorder(a: Map<u64, int>, b: Map<u64, int>, c: Map<u64, int>)
    requires
        includes(a, b),
        includes(b, c),
    ensures
        includes(a, c),
        includes(a, a),
{
    assert forall|peer: u64| #[trigger] c.dom().contains(peer) implies changes_of(c, peer)
        <= changes_of(a, peer) by {
        if b.dom().contains(peer) {
        } else {
            assert(changes_of(c, peer) <= changes_of(b, peer));
        }
    }
}

} // verus!
