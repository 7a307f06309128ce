//! The migration of one collection, started for each collection of a
//! database: its indexes where that was asked for, then its documents. A
//! failure of either step is reported and passed over; both steps run.
use vstd::prelude::*;

verus! {

/// One step of the migration of a collection.
#[derive(Clone, Copy, Debug, PartialEq, Eq, Structural)]
pub enum TaskStep {
    /// Migrate the collection's indexes.
    MigrateIndices,
    /// Migrate the collection's documents, in memory or one by one.
    MigrateDocuments { in_memory: bool },
}

/// What the caller is to do next.
#[derive(Clone, Copy, Debug, PartialEq, Eq, Structural)]
pub enum TaskAction {
    /// Run this step.
    Run(TaskStep),
    /// Nothing more is to be done.
    Finished,
}

/// The state of the migration of one collection.
#[derive(Clone, Copy, Debug, PartialEq, Eq)]
pub struct CollectionTask {
    pub migrate_indices: bool,
    pub in_memory: bool,
    pub done: usize,
}

/// The steps of the migration of a collection, in order.
pub open spec fn task_steps(migrate_indices: bool, in_memory: bool) -> Seq<TaskStep> {
    if migrate_indices {
        seq![TaskStep::MigrateIndices, TaskStep::MigrateDocuments { in_memory }]
    } else {
        seq![TaskStep::MigrateDocuments { in_memory }]
    }
}

impl CollectionTask {
    /// The steps of this migration, in order.
    pub open spec fn steps(self) -> Seq<TaskStep> {
        task_steps(self.migrate_indices, self.in_memory)
    }

    /// What the caller is to do in this state.
    pub open spec fn action(self) -> TaskAction {
        if self.done < self.steps().len() {
            TaskAction::Run(self.steps()[self.done as int])
        } else {
            TaskAction::Finished
        }
    }

    /// Starts the migration of a collection.
    pub fn new(migrate_indices: bool, in_memory: bool) -> (t: Self)
        ensures
            t.migrate_indices == migrate_indices,
            t.in_memory == in_memory,
            t.done == 0,
    {
        CollectionTask { migrate_indices, in_memory, done: 0 }
    }

    /// What the caller is to do next.
    pub fn next_action(&self) -> (action: TaskAction)
        ensures
            action == self.action(),
    {
        if self.migrate_indices {
            if self.done == 0 {
                TaskAction::Run(TaskStep::MigrateIndices)
            } else if self.done == 1 {
                TaskAction::Run(TaskStep::MigrateDocuments { in_memory: self.in_memory })
            } else {
                TaskAction::Finished
            }
        } else if self.done == 0 {
            TaskAction::Run(TaskStep::MigrateDocuments { in_memory: self.in_memory })
        } else {
            TaskAction::Finished
        }
    }

    /// Reports that the current step ended, whether it succeeded or failed.
    pub fn on_step_done(&mut self)
        ensures
            final(self).migrate_indices == old(self).migrate_indices,
            final(self).in_memory == old(self).in_memory,
            final(self).done == if old(self).done < old(self).steps().len() {
                old(self).done + 1
            } else {
                old(self).done as int
            },
    {
        let n: usize = if self.migrate_indices {
            2
        } else {
            1
        };
        if self.done < n {
            self.done = self.done + 1;
        }
    }
}

} // verus!

verus! {

/// The migration of a collection runs its steps in order, each once,
/// whatever came of the steps before, and then finishes: the indexes first
/// where they are to be migrated, the documents always.
pub proof fn lemma_collection_task_runs_every_step(migrate_indices: bool, in_memory: bool)
    ensures
        ({
            let t0 = CollectionTask { migrate_indices, in_memory, done: 0 };
            let t1 = CollectionTask { done: 1, ..t0 };
            let t2 = CollectionTask { done: 2, ..t0 };
            &&& migrate_indices ==> t0.action() == TaskAction::Run(TaskStep::MigrateIndices)
            &&& migrate_indices ==> t1.action() == TaskAction::Run(
                TaskStep::MigrateDocuments { in_memory },
            )
            &&& migrate_indices ==> t2.action() == TaskAction::Finished
            &&& !migrate_indices ==> t0.action() == TaskAction::Run(
                TaskStep::MigrateDocuments { in_memory },
            )
            &&& !migrate_indices ==> t1.action() == TaskAction::Finished
        }),
{
}

} // verus!
