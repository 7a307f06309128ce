//! The migration of a database, from the settings of a migration.
use vstd::prelude::*;

use crate::config::app_config::AppConfig;
use crate::services::collection_migration::{CollectionMigration, CollectionMigrationView};
use crate::services::collection_task::CollectionTask;
use crate::services::document_migration::{DocumentMigration, DocumentPhase};
use crate::services::index_migration::{IndexMigration, IndexMigrationView};

verus! {

/// Migrates a database with the settings it holds.
#[derive(Clone, Debug, PartialEq, Eq)]
pub struct DbMigrator {
    pub app_config: AppConfig,
}

impl DbMigrator {
    /// Creates a migrator with these settings.
    pub fn new(app_config: AppConfig) -> (migrator: Self)
        ensures
            migrator.app_config == app_config,
    {
        Self { app_config }
    }

    /// Starts the migration of the database: the migration of the origin
    /// collections from the origin database to the destination database that
    /// the settings name, with their indexes where the settings ask for that.
    pub fn migrate_db(&self) -> (m: CollectionMigration)
        ensures
            m@ == CollectionMigrationView::start(
                self.app_config.mongodb_origin_db@,
                self.app_config.mongodb_destination_db@,
                self.app_config.mongodb_origin_collections.deep_view(),
                self.app_config.copy_indices,
                self.app_config.read_to_memory,
            ),
    {
        self.migrate_collections(self.app_config.copy_indices)
    }

    /// Starts the migration of the origin collections, with their indexes
    /// where `migrate_indices` holds, and their documents in memory where the
    /// settings ask for that.
    pub fn migrate_collections(&self, migrate_indices: bool) -> (m: CollectionMigration)
        ensures
            m@ == CollectionMigrationView::start(
                self.app_config.mongodb_origin_db@,
                self.app_config.mongodb_destination_db@,
                self.app_config.mongodb_origin_collections.deep_view(),
                migrate_indices,
                self.app_config.read_to_memory,
            ),
    {
        CollectionMigration::new(
            self.app_config.mongodb_origin_db.clone(),
            self.app_config.mongodb_destination_db.clone(),
            self.app_config.mongodb_origin_collections.clone(),
            migrate_indices,
            self.app_config.read_to_memory,
        )
    }

    /// Starts the migration of one collection.
    pub fn migrate_collection(migrate_indices: bool, in_memory: bool) -> (t: CollectionTask)
        ensures
            t.migrate_indices == migrate_indices,
            t.in_memory == in_memory,
            t.done == 0,
    {
        CollectionTask::new(migrate_indices, in_memory)
    }

    /// Starts the migration of a collection's indexes.
    pub fn migrate_indices() -> (m: IndexMigration)
        ensures
            m@ == IndexMigrationView::start(),
    {
        IndexMigration::new()
    }

    /// Starts the migration of a collection's documents, in memory or one by
    /// one.
    pub fn migrate_documents(in_memory: bool) -> (m: DocumentMigration)
        ensures
            m.in_memory == in_memory,
            m.phase == DocumentPhase::Opening,
    {
        DocumentMigration::new(in_memory)
    }
}

} // verus!
