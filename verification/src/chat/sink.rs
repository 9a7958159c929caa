//! What a room's client does to the document: imports, and the cursor that is saved
//! with every snapshot.
//!
//! Every method that changes what is durable gives the cursor and epoch to save in one
//! transaction with the document, so that a restored backup can never disagree with
//! its own cursor.

use vstd::prelude::*;

use super::blob::{envelope_failure, Blob};
use super::import::import_blob;
use super::version::{
    answered_from, claims_no_change, decoded_version, document_holds_frontier, import_blob_end,
    import_blob_materialized, import_outcomes, materialized_by, outcome_view,
};
use crate::text::join2;

verus! {

/// Minimum synchronized-room epoch. Values below 2 are legacy fat/s2 docs;
/// values at or above 2 identify the room generation whose cursor is stored
/// beside the thin snapshot (2 = chat2, 3 = org-shared chat3).
pub const CHAT2_DOC_EPOCH: u32 = 2;

/// The part of a handle that its sinks are fenced by.
#[derive(Debug, Clone, Copy, PartialEq, Eq, Structural)]
pub struct Lifecycle {
    /// Counts the clients that the handle has had.
    pub generation: u64,
    /// A cutover has sealed the handle.
    pub frozen: bool,
    /// A local batch is not yet durably acknowledged.
    pub replay_from_zero: bool,
}

/// The cursor and epoch to save with a snapshot.
#[derive(Debug, Clone, Copy, PartialEq, Eq, Structural)]
pub struct SaveCursor {
    pub cursor: u64,
    pub epoch: u32,
}

/// How the import of a row went.
#[derive(Debug, PartialEq, Eq)]
pub enum RowImport {
    /// The document has it.
    Imported,
    /// It waits in the document for changes that it depends on.
    Parked,
    /// It could not be imported, for the given cause, and is skipped.
    Skipped(String),
}

/// How an import went, by whether changes stayed pending.
pub fn row_imported(outcome: Result<bool, String>) -> (r: RowImport)
    ensures
        r == (match outcome {
            Ok(false) => RowImport::Imported,
            Ok(true) => RowImport::Parked,
            Err(cause) => RowImport::Skipped(cause),
        }),
{
    match outcome {
        Ok(pending) => {
            if pending {
                RowImport::Parked
            } else {
                RowImport::Imported
            }
        },
        Err(cause) => RowImport::Skipped(cause),
    }
}

/// A row that was dealt with: how its import went, and what to save with the snapshot.
#[derive(Debug, PartialEq, Eq)]
pub struct AppliedRow {
    pub import: RowImport,
    pub save: SaveCursor,
}

/// The outcome of the import that a report is about.
pub open spec fn reported(import: RowImport) -> Result<bool, Seq<char>> {
    match import {
        RowImport::Imported => Ok(false),
        RowImport::Parked => Ok(true),
        RowImport::Skipped(cause) => Err(cause@),
    }
}

/// The import of a checkpoint into a document failed, for the given cause.
pub open spec fn is_checkpoint_failure(
    doc: loro::LoroDoc,
    bytes: Seq<u8>,
    message: Seq<char>,
    cause: Seq<char>,
) -> bool {
    &&& import_outcomes(doc).contains((bytes, Err::<bool, Seq<char>>(cause)))
    &&& message == "checkpoint import: "@ + cause
}

/// What one client of a room does to a document. A retired client, of an older
/// generation or of a frozen handle, does nothing.
#[derive(Debug)]
pub struct EngineChatSink {
    pub chat_id: String,
    /// Room generation this client is converging onto.
    pub target_room_gen: u32,
    /// The generation of the handle that the client belongs to.
    pub client_generation: u64,
    pub cursor: u64,
    /// During a generation handoff, remote rows may arrive before the full local
    /// update is acked; those rows keep the old epoch so a crash still resets and
    /// requeues. The first own-write ack promotes the epoch to the target.
    pub epoch: u32,
}

/// The larger of a room generation and the first synchronized one.
pub open spec fn room_target(room_gen: u32) -> u32 {
    if room_gen < CHAT2_DOC_EPOCH {
        CHAT2_DOC_EPOCH
    } else {
        room_gen
    }
}

/// The epoch that a client starts in: at least the first synchronized one, and not
/// past its target.
pub open spec fn starting_epoch(initial_epoch: u32, target: u32) -> u32 {
    let raised = room_target(initial_epoch);
    if raised > target {
        target
    } else {
        raised
    }
}

impl EngineChatSink {
    /// The epoch is that of a synchronized room, and not past the target.
    pub open spec fn wf(self) -> bool {
        CHAT2_DOC_EPOCH <= self.epoch <= self.target_room_gen
    }

    /// The client of a handle with no lifecycle of its own.
    pub fn new(chat_id: String, room_gen: u32, initial_cursor: u64, initial_epoch: u32) -> (r: Self)
        ensures
            r.wf(),
            r == (EngineChatSink {
                chat_id,
                target_room_gen: room_target(room_gen),
                client_generation: 0,
                cursor: initial_cursor,
                epoch: starting_epoch(initial_epoch, room_target(room_gen)),
            }),
    {
        let life = Lifecycle { generation: 0, frozen: false, replay_from_zero: false };
        Self::new_with_lifecycle(chat_id, room_gen, initial_cursor, initial_epoch, &life)
    }

    /// The client of a handle, in the handle's current generation.
    pub fn new_with_lifecycle(
        chat_id: String,
        room_gen: u32,
        initial_cursor: u64,
        initial_epoch: u32,
        life: &Lifecycle,
    ) -> (r: Self)
        ensures
            r.wf(),
            r == (EngineChatSink {
                chat_id,
                target_room_gen: room_target(room_gen),
                client_generation: life.generation,
                cursor: initial_cursor,
                epoch: starting_epoch(initial_epoch, room_target(room_gen)),
            }),
    {
        let target_room_gen: u32 = if room_gen < CHAT2_DOC_EPOCH {
            CHAT2_DOC_EPOCH
        } else {
            room_gen
        };
        let raised: u32 = if initial_epoch < CHAT2_DOC_EPOCH {
            CHAT2_DOC_EPOCH
        } else {
            initial_epoch
        };
        let epoch: u32 = if raised > target_room_gen {
            target_room_gen
        } else {
            raised
        };
        EngineChatSink {
            chat_id,
            target_room_gen,
            client_generation: life.generation,
            cursor: initial_cursor,
            epoch,
        }
    }

    /// The client still speaks for its handle.
    pub open spec fn active(self, life: Lifecycle) -> bool {
        !life.frozen && life.generation == self.client_generation
    }

    pub fn is_active(&self, life: &Lifecycle) -> (r: bool)
        ensures
            r == self.active(*life),
    {
        !life.frozen && life.generation == self.client_generation
    }

    /// The client after a write at a cursor. An own ack promotes the epoch; only a
    /// reset that the server announced may move the cursor back.
    pub open spec fn written(self, cursor: u64, promote: bool, exact: bool) -> Self {
        EngineChatSink {
            cursor: if exact || cursor > self.cursor {
                cursor
            } else {
                self.cursor
            },
            epoch: if promote {
                self.target_room_gen
            } else {
                self.epoch
            },
            ..self
        }
    }

    /// What is saved with the snapshot: the cursor, or zero while a local batch is not
    /// acknowledged, for a crash would lose the queue it waits in.
    pub open spec fn saved(self, life: Lifecycle) -> SaveCursor {
        SaveCursor {
            cursor: if life.replay_from_zero {
                0
            } else {
                self.cursor
            },
            epoch: self.epoch,
        }
    }

    /// Moves the cursor for a write, and gives what to save with the snapshot.
    pub fn persist_with_cursor(
        &mut self,
        cursor: u64,
        promote: bool,
        exact: bool,
        life: &Lifecycle,
    ) -> (r: SaveCursor)
        requires
            old(self).wf(),
        ensures
            final(self).wf(),
            *final(self) == old(self).written(cursor, promote, exact),
            r == final(self).saved(*life),
    {
        if exact || cursor > self.cursor {
            self.cursor = cursor;
        }
        if promote {
            self.epoch = self.target_room_gen;
        }
        let durable: u64 = if life.replay_from_zero {
            0
        } else {
            self.cursor
        };
        SaveCursor { cursor: durable, epoch: self.epoch }
    }

    /// Imports a row of the room. A row that cannot be imported costs the row, never
    /// the document, and the cursor still moves: replaying a bad row for ever would
    /// wedge the room. Nothing to save where the client is retired or the document is
    /// gone. How the import of a row with an envelope goes rests on what the document
    /// holds; what is reported is how it went.
    pub fn apply_row(
        &mut self,
        life: &Lifecycle,
        doc: Option<&loro::LoroDoc>,
        blob: &Blob,
        cursor: u64,
    ) -> (r: Option<AppliedRow>)
        requires
            old(self).wf(),
        ensures
            final(self).wf(),
            old(self).active(*life) && doc is Some ==> *final(self) == old(self).written(
                cursor,
                false,
                false,
            ) && r is Some && r->0.save == final(self).saved(*life),
            r is Some ==> import_outcomes(*doc->0).contains((blob@, reported(r->0.import))),
            r is Some && envelope_failure(blob@) is Some ==> r->0.import is Skipped
                && r->0.import->Skipped_0@ == envelope_failure(blob@)->0,
            !(old(self).active(*life) && doc is Some) ==> *final(self) == *old(self) && r is None,
    {
        if !self.is_active(life) {
            return None;
        }
        match doc {
            None => None,
            Some(doc) => {
                let outcome: Result<bool, String> = match import_blob(doc, blob.as_bytes()) {
                    Ok(import) => Ok(import.pending()),
                    Err(e) => Err(e),
                };
                let ghost seen = outcome_view(outcome);
                let import = row_imported(outcome);
                assert(reported(import) == seen);
                let save = self.persist_with_cursor(cursor, false, false, life);
                Some(AppliedRow { import, save })
            },
        }
    }

    /// Imports a checkpoint of the room. It claims to be a whole history, so one that
    /// cannot be imported in full fails, and the cursor stays.
    pub fn apply_checkpoint(
        &mut self,
        life: &Lifecycle,
        doc: Option<&loro::LoroDoc>,
        blob: &Blob,
        cursor: u64,
    ) -> (r: Result<SaveCursor, String>)
        requires
            old(self).wf(),
        ensures
            final(self).wf(),
            !old(self).active(*life) ==> r is Err && r->Err_0@
                == "chat handle retired during checkpoint import"@,
            old(self).active(*life) && doc is None ==> r is Err && r->Err_0@ == "doc evicted"@,
            old(self).active(*life) && doc is Some && import_blob_end(blob@) is Err ==> r is Err
                && r->Err_0@ == "checkpoint import: "@ + ("decode import metadata: "@
                + import_blob_end(blob@)->Err_0),
            old(self).active(*life) && doc is Some && envelope_failure(blob@) is Some ==> r is Err
                && r->Err_0@ == "checkpoint import: "@ + ("decode import metadata: "@
                + envelope_failure(blob@)->0),
            old(self).active(*life) && doc is Some && import_blob_end(blob@) is Ok && r is Err ==> (
            r->Err_0@ == "checkpoint import has unresolved dependencies"@ && exists|
                pending: bool,
                version: Map<u64, int>,
            | #[trigger]
                materialized_by(*doc->0, blob@, pending, version, false)) || exists|
                cause: Seq<char>,
            | #[trigger]
                is_checkpoint_failure(*doc->0, blob@, r->Err_0@, cause),
            r is Ok ==> old(self).active(*life) && doc is Some && exists|version: Map<u64, int>|
                #[trigger] materialized_by(*doc->0, blob@, false, version, true),
            r is Ok ==> *final(self) == old(self).written(cursor, false, false) && r->Ok_0
                == final(self).saved(*life),
            r is Err ==> *final(self) == *old(self),
    {
        if !self.is_active(life) {
            return Err("chat handle retired during checkpoint import".to_owned());
        }
        match doc {
            None => Err("doc evicted".to_owned()),
            Some(doc) => {
                let outcome = import_blob_materialized(doc, blob);
                let ghost cause: Seq<char> = outcome->Err_0@;
                let ghost whole: bool = outcome->Ok_0;
                let ghost (pending, version) = choose|pending: bool, version: Map<u64, int>|
                    #[trigger] materialized_by(*doc, blob@, pending, version, whole);
                let r = self.checkpoint_imported(life, outcome, cursor);
                proof {
                    if outcome is Err {
                        if import_blob_end(blob@) is Ok {
                            assert(is_checkpoint_failure(*doc, blob@, r->Err_0@, cause));
                        }
                    } else {
                        assert(materialized_by(*doc, blob@, pending, version, whole));
                    }
                }
                r
            },
        }
    }

    /// What follows the import of a checkpoint, by whether all of it became part of the
    /// document.
    pub fn checkpoint_imported(
        &mut self,
        life: &Lifecycle,
        outcome: Result<bool, String>,
        cursor: u64,
    ) -> (r: Result<SaveCursor, String>)
        requires
            old(self).wf(),
        ensures
            final(self).wf(),
            match outcome {
                Ok(true) => *final(self) == old(self).written(cursor, false, false) && r == Ok::<
                    SaveCursor,
                    String,
                >(final(self).saved(*life)),
                Ok(false) => *final(self) == *old(self) && r is Err && r->Err_0@
                    == "checkpoint import has unresolved dependencies"@,
                Err(e) => *final(self) == *old(self) && r is Err && r->Err_0@
                    == "checkpoint import: "@ + e@,
            },
    {
        match outcome {
            Ok(true) => Ok(self.persist_with_cursor(cursor, false, false, life)),
            Ok(false) => Err("checkpoint import has unresolved dependencies".to_owned()),
            Err(e) => Err(join2("checkpoint import: ", e.as_str())),
        }
    }

    /// Whether the document holds what a checkpoint claims, so that it need not be
    /// fetched. A retired client and an evicted document say yes, so that nothing is
    /// fetched for them; a claim that cannot be read or is empty is never held, and one
    /// of no change always is. Otherwise the answer is that of the document's version.
    pub fn contains_frontier(
        &self,
        life: &Lifecycle,
        doc: Option<&loro::LoroDoc>,
        frontier: &[u8],
    ) -> (r: bool)
        ensures
            !(self.active(*life) && doc is Some) ==> r,
            self.active(*life) && doc is Some && decoded_version(frontier@) is None ==> !r,
            self.active(*life) && doc is Some && decoded_version(frontier@) == Some(
                Map::<u64, int>::empty(),
            ) ==> !r,
            self.active(*life) && doc is Some ==> exists|version: Map<u64, int>| #[trigger]
                answered_from(*doc->0, version, frontier@, r),
            self.active(*life) && doc is Some && claims_no_change(frontier@) ==> r,
    {
        if !self.is_active(life) {
            return true;
        }
        match doc {
            None => true,
            Some(doc) => document_holds_frontier(doc, frontier),
        }
    }

    /// An own batch was acknowledged at a cursor.
    pub fn advance_cursor(&mut self, life: &Lifecycle, doc_alive: bool, cursor: u64) -> (r: Option<
        SaveCursor,
    >)
        requires
            old(self).wf(),
        ensures
            final(self).wf(),
            old(self).active(*life) && doc_alive ==> *final(self) == old(self).written(
                cursor,
                true,
                false,
            ) && r == Some(final(self).saved(*life)),
            !(old(self).active(*life) && doc_alive) ==> *final(self) == *old(self) && r is None,
    {
        if self.is_active(life) && doc_alive {
            Some(self.persist_with_cursor(cursor, true, false, life))
        } else {
            None
        }
    }

    /// The server announced that the room begins again at a cursor.
    pub fn reset_cursor(&mut self, life: &Lifecycle, doc_alive: bool, cursor: u64) -> (r: Option<
        SaveCursor,
    >)
        requires
            old(self).wf(),
        ensures
            final(self).wf(),
            old(self).active(*life) && doc_alive ==> *final(self) == old(self).written(
                cursor,
                false,
                true,
            ) && r == Some(final(self).saved(*life)),
            !(old(self).active(*life) && doc_alive) ==> *final(self) == *old(self) && r is None,
    {
        if self.is_active(life) && doc_alive {
            Some(self.persist_with_cursor(cursor, false, true, life))
        } else {
            None
        }
    }
}

/// The cursor never goes back but by a reset, the epoch never goes back, and only an
/// own ack finishes a generation handoff.
pub proof fn cursors_only_go_forward(sink: EngineChatSink, cursor: u64, promote: bool, exact: bool)
    requires
        sink.wf(),
    ensures
        !exact ==> sink.written(cursor, promote, exact).cursor >= sink.cursor,
        exact ==> sink.written(cursor, promote, exact).cursor == cursor,
        sink.written(cursor, promote, exact).epoch >= sink.epoch,
        !promote ==> sink.written(cursor, promote, exact).epoch == sink.epoch,
        promote ==> sink.written(cursor, promote, exact).epoch == sink.target_room_gen,
{
}

/// A checkpoint that was applied is part of the document: a version that the document
/// has holds the frontier of all that the checkpoint carries, so the document need not
/// fetch it again.
pub proof fn an_applied_checkpoint_is_held(
    doc: loro::LoroDoc,
    bytes: Seq<u8>,
    version: Map<u64, int>,
    frontier: Seq<u8>,
)
    requires
        materialized_by(doc, bytes, false, version, true),
        decoded_version(frontier) == Some(import_blob_end(bytes)->Ok_0),
        import_blob_end(bytes)->Ok_0 != Map::<u64, int>::empty(),
    ensures
        answered_from(doc, version, frontier, true),
{
}

/// While a local batch waits to be acknowledged, every snapshot is saved with the
/// cursor zero, whatever the write.
pub proof fn an_unacked_batch_saves_cursor_zero(
    sink: EngineChatSink,
    life: Lifecycle,
    cursor: u64,
    promote: bool,
    exact: bool,
)
    requires
        life.replay_from_zero,
    ensures
        sink.written(cursor, promote, exact).saved(life).cursor == 0,
{
}

/// Once a handle is frozen or has a new client, the old client is never active again
/// while generations only grow.
pub proof fn a_retired_client_stays_retired(
    sink: EngineChatSink,
    then: Lifecycle,
    later: Lifecycle,
)
    requires
        then.generation > sink.client_generation,
        later.generation >= then.generation,
    ensures
        !sink.active(later),
{
}

} // verus!
