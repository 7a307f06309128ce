//! The migration of a collection's documents. In memory, all documents are
//! read and then inserted at once, unordered; otherwise each document is
//! inserted as it is read. A failed insert whose every cause is a duplicate
//! key is passed over; any other failure ends the migration.
use vstd::prelude::*;

verus! {

/// The error code of a duplicate key.
pub const DUPLICATE_KEY_CODE: i32 = 11000;

/// Why an insert failed, as far as the migration looks at it.
#[derive(Clone, Debug, PartialEq, Eq)]
pub enum InsertFailure {
    /// A single write failed with this error code.
    WriteError { code: i32 },
    /// A bulk write failed with these error codes, one per failed write.
    BulkWrite { codes: Vec<i32> },
    /// Any other failure.
    Other,
}

/// Whether every one of these error codes is the duplicate-key code.
pub open spec fn all_duplicate_key(codes: Seq<i32>) -> bool {
    forall|i: int| 0 <= i < codes.len() ==> codes[i] == DUPLICATE_KEY_CODE
}

/// Whether an insert failed only for duplicate keys: a single write error of
/// the duplicate-key code, or a bulk write all of whose errors have that
/// code.
pub open spec fn is_duplicate_key_spec(f: InsertFailure) -> bool {
    match f {
        InsertFailure::WriteError { code } => code == DUPLICATE_KEY_CODE,
        InsertFailure::BulkWrite { codes } => all_duplicate_key(codes@),
        InsertFailure::Other => false,
    }
}

/// Whether an insert failed only for duplicate keys.
pub fn is_duplicate_key(f: &InsertFailure) -> (dup: bool)
    ensures
        dup == is_duplicate_key_spec(*f),
{
    match f {
        InsertFailure::WriteError { code } => *code == DUPLICATE_KEY_CODE,
        InsertFailure::BulkWrite { codes } => {
            let mut i: usize = 0;
            while i < codes.len()
                invariant
                    is_duplicate_key_spec(*f) == all_duplicate_key(codes@),
                    i <= codes.len(),
                    forall|k: int| 0 <= k < i ==> codes@[k] == DUPLICATE_KEY_CODE,
                decreases codes.len() - i,
            {
                if codes[i] != DUPLICATE_KEY_CODE {
                    assert(!all_duplicate_key(codes@));
                    return false;
                }
                i = i + 1;
            }
            true
        },
        InsertFailure::Other => false,
    }
}

/// Where a migration of documents stands.
#[derive(Clone, Copy, Debug, PartialEq, Eq, Structural)]
pub enum DocumentPhase {
    /// The origin's documents are to be opened for reading.
    Opening,
    /// All documents are to be read into memory.
    Collecting,
    /// The documents read are to be inserted at once.
    InsertingAll,
    /// The next document is to be read.
    Fetching,
    /// The document just read is to be inserted.
    InsertingOne,
    Succeeded,
    Failed,
}

/// What the caller is to do next.
#[derive(Clone, Copy, Debug, PartialEq, Eq, Structural)]
pub enum DocumentAction {
    /// Open a cursor over all documents of the origin collection.
    OpenCursor,
    /// Read all remaining documents of the cursor into memory.
    CollectAll,
    /// Insert the documents read in one call, in order where `ordered`
    /// holds; an unordered insert goes on past a failed document.
    InsertAll { ordered: bool },
    /// Read the next document of the cursor.
    FetchNext,
    /// Insert the document just read.
    InsertOne,
    /// The migration is done.
    Complete,
    /// The migration ends with the failure of the last step.
    Abort,
}

/// The state of a migration of documents.
#[derive(Clone, Copy, Debug, PartialEq, Eq)]
pub struct DocumentMigration {
    pub in_memory: bool,
    pub phase: DocumentPhase,
}

impl DocumentMigration {
    /// Whether the migration has ended.
    pub open spec fn is_finished(self) -> bool {
        self.phase == DocumentPhase::Succeeded || self.phase == DocumentPhase::Failed
    }

    /// What the caller is to do in this state.
    pub open spec fn action(self) -> DocumentAction {
        match self.phase {
            DocumentPhase::Opening => DocumentAction::OpenCursor,
            DocumentPhase::Collecting => DocumentAction::CollectAll,
            DocumentPhase::InsertingAll => DocumentAction::InsertAll { ordered: false },
            DocumentPhase::Fetching => DocumentAction::FetchNext,
            DocumentPhase::InsertingOne => DocumentAction::InsertOne,
            DocumentPhase::Succeeded => DocumentAction::Complete,
            DocumentPhase::Failed => DocumentAction::Abort,
        }
    }

    /// The phase after the cursor was opened.
    pub open spec fn after_opened(self) -> DocumentPhase {
        if self.phase == DocumentPhase::Opening {
            if self.in_memory {
                DocumentPhase::Collecting
            } else {
                DocumentPhase::Fetching
            }
        } else {
            self.phase
        }
    }

    /// The phase after `count` documents were read into memory: nothing is
    /// inserted where there are none.
    pub open spec fn after_collected(self, count: nat) -> DocumentPhase {
        if self.phase == DocumentPhase::Collecting {
            if count == 0 {
                DocumentPhase::Succeeded
            } else {
                DocumentPhase::InsertingAll
            }
        } else {
            self.phase
        }
    }

    /// The phase after the next document was read (`found`) or the cursor
    /// was found exhausted.
    pub open spec fn after_fetched(self, found: bool) -> DocumentPhase {
        if self.phase == DocumentPhase::Fetching {
            if found {
                DocumentPhase::InsertingOne
            } else {
                DocumentPhase::Succeeded
            }
        } else {
            self.phase
        }
    }

    /// The phase after an insert succeeded, or failed for duplicate keys
    /// only.
    pub open spec fn after_inserted(self) -> DocumentPhase {
        match self.phase {
            DocumentPhase::InsertingAll => DocumentPhase::Succeeded,
            DocumentPhase::InsertingOne => DocumentPhase::Fetching,
            _ => self.phase,
        }
    }

    /// The phase after an insert failed.
    pub open spec fn after_insert_failed(self, f: InsertFailure) -> DocumentPhase {
        if self.phase == DocumentPhase::InsertingAll || self.phase == DocumentPhase::InsertingOne {
            if is_duplicate_key_spec(f) {
                self.after_inserted()
            } else {
                DocumentPhase::Failed
            }
        } else {
            self.phase
        }
    }

    /// The phase after the current step failed otherwise than in an insert.
    pub open spec fn after_failure(self) -> DocumentPhase {
        if self.is_finished() {
            self.phase
        } else {
            DocumentPhase::Failed
        }
    }

    /// Starts a migration of documents, in memory or one by one.
    pub fn new(in_memory: bool) -> (m: Self)
        ensures
            m.in_memory == in_memory,
            m.phase == DocumentPhase::Opening,
    {
        DocumentMigration { in_memory, phase: DocumentPhase::Opening }
    }

    /// What the caller is to do next.
    pub fn next_action(&self) -> (action: DocumentAction)
        ensures
            action == self.action(),
    {
        match self.phase {
            DocumentPhase::Opening => DocumentAction::OpenCursor,
            DocumentPhase::Collecting => DocumentAction::CollectAll,
            DocumentPhase::InsertingAll => DocumentAction::InsertAll { ordered: false },
            DocumentPhase::Fetching => DocumentAction::FetchNext,
            DocumentPhase::InsertingOne => DocumentAction::InsertOne,
            DocumentPhase::Succeeded => DocumentAction::Complete,
            DocumentPhase::Failed => DocumentAction::Abort,
        }
    }

    /// Reports that the cursor is open.
    pub fn on_opened(&mut self)
        ensures
            final(self).in_memory == old(self).in_memory,
            final(self).phase == old(self).after_opened(),
    {
        if self.phase == DocumentPhase::Opening {
            if self.in_memory {
                self.phase = DocumentPhase::Collecting;
            } else {
                self.phase = DocumentPhase::Fetching;
            }
        }
    }

    /// Reports how many documents were read into memory.
    pub fn on_collected(&mut self, count: usize)
        ensures
            final(self).in_memory == old(self).in_memory,
            final(self).phase == old(self).after_collected(count as nat),
    {
        if self.phase == DocumentPhase::Collecting {
            if count == 0 {
                self.phase = DocumentPhase::Succeeded;
            } else {
                self.phase = DocumentPhase::InsertingAll;
            }
        }
    }

    /// Reports whether a next document was read.
    pub fn on_fetched(&mut self, found: bool)
        ensures
            final(self).in_memory == old(self).in_memory,
            final(self).phase == old(self).after_fetched(found),
    {
        if self.phase == DocumentPhase::Fetching {
            if found {
                self.phase = DocumentPhase::InsertingOne;
            } else {
                self.phase = DocumentPhase::Succeeded;
            }
        }
    }

    /// Reports that the insert succeeded.
    pub fn on_inserted(&mut self)
        ensures
            final(self).in_memory == old(self).in_memory,
            final(self).phase == old(self).after_inserted(),
    {
        match self.phase {
            DocumentPhase::InsertingAll => self.phase = DocumentPhase::Succeeded,
            DocumentPhase::InsertingOne => self.phase = DocumentPhase::Fetching,
            _ => {},
        }
    }

    /// Reports that the insert failed, and why. Returns whether the failure
    /// was passed over as one of duplicate keys only.
    pub fn on_insert_failed(&mut self, f: &InsertFailure) -> (tolerated: bool)
        ensures
            final(self).in_memory == old(self).in_memory,
            final(self).phase == old(self).after_insert_failed(*f),
            tolerated == ((old(self).phase == DocumentPhase::InsertingAll || old(self).phase
                == DocumentPhase::InsertingOne) && is_duplicate_key_spec(*f)),
    {
        match self.phase {
            DocumentPhase::InsertingAll | DocumentPhase::InsertingOne => {
                if is_duplicate_key(f) {
                    self.on_inserted();
                    true
                } else {
                    self.phase = DocumentPhase::Failed;
                    false
                }
            },
            _ => false,
        }
    }

    /// Reports that the current step failed otherwise than in an insert.
    pub fn on_failure(&mut self)
        ensures
            final(self).in_memory == old(self).in_memory,
            final(self).phase == old(self).after_failure(),
    {
        match self.phase {
            DocumentPhase::Succeeded | DocumentPhase::Failed => {},
            _ => self.phase = DocumentPhase::Failed,
        }
    }
}

} // verus!

verus! {

/// An insert that failed for duplicate keys only is passed over as if it had
/// succeeded: in memory the migration is complete, one by one the next
/// document is read. Any other failed insert ends the migration with its
/// failure.
pub proof fn lemma_duplicate_keys_are_passed_over(m: DocumentMigration, f: InsertFailure)
    requires
        m.phase == DocumentPhase::InsertingAll || m.phase == DocumentPhase::InsertingOne,
    ensures
        is_duplicate_key_spec(f) ==> m.after_insert_failed(f) == m.after_inserted(),
        !is_duplicate_key_spec(f) ==> m.after_insert_failed(f) == DocumentPhase::Failed,
        m.phase == DocumentPhase::InsertingAll ==> m.after_inserted() == DocumentPhase::Succeeded,
        m.phase == DocumentPhase::InsertingOne ==> m.after_inserted() == DocumentPhase::Fetching,
{
}

/// A bulk write failure without any write error counts as one of duplicate
/// keys only.
pub proof fn lemma_empty_bulk_failure_is_duplicate(codes: Vec<i32>)
    requires
        codes@.len() == 0,
    ensures
        is_duplicate_key_spec(InsertFailure::BulkWrite { codes }),
{
}

/// In memory, an origin collection without documents is complete without
/// any insert; one with documents is inserted at once.
pub proof fn lemma_in_memory_inserts_only_documents(m: DocumentMigration, count: nat)
    requires
        m.phase == DocumentPhase::Collecting,
    ensures
        count == 0 ==> m.after_collected(count) == DocumentPhase::Succeeded,
        count > 0 ==> m.after_collected(count) == DocumentPhase::InsertingAll,
{
}

/// One by one, every document read is inserted, and the migration is
/// complete once no document is left to read.
pub proof fn lemma_one_by_one_inserts_each_document(m: DocumentMigration)
    requires
        m.phase == DocumentPhase::Fetching,
    ensures
        m.after_fetched(true) == DocumentPhase::InsertingOne,
        m.after_fetched(false) == DocumentPhase::Succeeded,
{
}

/// A finished migration of documents stays as it is, whatever is reported
/// next.
pub proof fn lemma_document_end_is_final(m: DocumentMigration, f: InsertFailure, count: nat, found: bool)
    requires
        m.is_finished(),
    ensures
        m.after_opened() == m.phase,
        m.after_collected(count) == m.phase,
        m.after_fetched(found) == m.phase,
        m.after_inserted() == m.phase,
        m.after_insert_failed(f) == m.phase,
        m.after_failure() == m.phase,
        m.phase == DocumentPhase::Failed ==> m.action() == DocumentAction::Abort,
        m.phase == DocumentPhase::Succeeded ==> m.action() == DocumentAction::Complete,
{
}

} // verus!

verus! {

/// Whether every insert outcome is a success (`None`) or a failure for
/// duplicate keys only.
pub open spec fn all_tolerated(outcomes: Seq<Option<InsertFailure>>) -> bool {
    forall|i: int|
        0 <= i < outcomes.len() ==> match #[trigger] outcomes[i] {
            Some(f) => is_duplicate_key_spec(f),
            None => true,
        }
}

/// The phase in which a one-by-one migration that is reading documents ends
/// when it reads one document per outcome, the insert of each having that
/// outcome (`None` for success), and then finds no document left.
pub open spec fn one_by_one_run(m: DocumentMigration, outcomes: Seq<Option<InsertFailure>>) -> DocumentPhase
    decreases outcomes.len(),
{
    if outcomes.len() == 0 {
        m.after_fetched(false)
    } else {
        let reading = DocumentMigration { phase: m.after_fetched(true), ..m };
        let after = match outcomes[0] {
            None => reading.after_inserted(),
            Some(f) => reading.after_insert_failed(f),
        };
        if after == DocumentPhase::Fetching {
            one_by_one_run(DocumentMigration { phase: after, ..m }, outcomes.drop_first())
        } else {
            after
        }
    }
}

/// One by one, the migration of documents succeeds exactly when every
/// insert succeeded or failed for duplicate keys only; otherwise it fails.
pub proof fn lemma_one_by_one_succeeds_iff_all_tolerated(
    m: DocumentMigration,
    outcomes: Seq<Option<InsertFailure>>,
)
    requires
        m.phase == DocumentPhase::Fetching,
    ensures
        one_by_one_run(m, outcomes) == if all_tolerated(outcomes) {
            DocumentPhase::Succeeded
        } else {
            DocumentPhase::Failed
        },
    decreases outcomes.len(),
{
    if outcomes.len() > 0 {
        let rest = outcomes.drop_first();
        let reading = DocumentMigration { phase: m.after_fetched(true), ..m };
        let after = match outcomes[0] {
            None => reading.after_inserted(),
            Some(f) => reading.after_insert_failed(f),
        };
        let first_ok = match outcomes[0] {
            Some(f) => is_duplicate_key_spec(f),
            None => true,
        };
        if after == DocumentPhase::Fetching {
            lemma_one_by_one_succeeds_iff_all_tolerated(
                DocumentMigration { phase: after, ..m },
                rest,
            );
            assert(first_ok);
            if all_tolerated(rest) {
                assert forall|i: int| 0 <= i < outcomes.len() implies match #[trigger] outcomes[i] {
                    Some(f) => is_duplicate_key_spec(f),
                    None => true,
                } by {
                    if i > 0 {
                        assert(outcomes[i] == rest[i - 1]);
                    }
                }
            } else {
                let j = choose|j: int| 0 <= j < rest.len() && !match #[trigger] rest[j] {
                    Some(f) => is_duplicate_key_spec(f),
                    None => true,
                };
                assert(outcomes[j + 1] == rest[j]);
            }
        } else {
            assert(!first_ok);
        }
    }
}

} // verus!

verus! {

/// A single write failure is one of duplicate keys only exactly when its
/// code is 11000; a bulk failure exactly when every one of its codes is
/// 11000; no other failure is.
pub proof fn lemma_duplicate_key_codes(f: InsertFailure)
    ensures
        f matches InsertFailure::WriteError { code } ==> (is_duplicate_key_spec(f) <==> code
            == 11000),
        f matches InsertFailure::BulkWrite { codes } ==> (is_duplicate_key_spec(f) <==> forall|
            i: int,
        | 0 <= i < codes@.len() ==> codes@[i] == 11000),
        f matches InsertFailure::BulkWrite { codes } ==> ((exists|i: int|
            0 <= i < codes@.len() && codes@[i] != 11000) ==> !is_duplicate_key_spec(f)),
        f is Other ==> !is_duplicate_key_spec(f),
{
}

/// Any failure of a migration of documents that has not ended ends it
/// failed: reading the documents, reading one, opening the cursor or an
/// insert; it then asks for nothing but to end with that failure.
pub proof fn lemma_document_failure_aborts(m: DocumentMigration)
    requires
        m.phase != DocumentPhase::Succeeded,
        m.phase != DocumentPhase::Failed,
    ensures
        m.after_failure() == DocumentPhase::Failed,
        (DocumentMigration { phase: m.after_failure(), ..m }).action() == DocumentAction::Abort,
{
}

} // verus!
