pub mod collection_migration;
pub mod collection_task;
pub mod db_migrator;
pub mod document_migration;
pub mod index_migration;
