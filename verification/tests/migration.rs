use mongo_migrate::config::app_config::AppConfig;
use mongo_migrate::services::collection_migration::{
    collections_to_create, contains_name, CollectionAction, CollectionMigration,
};
use mongo_migrate::services::collection_task::{CollectionTask, TaskAction, TaskStep};
use mongo_migrate::services::db_migrator::DbMigrator;
use mongo_migrate::services::document_migration::{
    is_duplicate_key, DocumentAction, DocumentMigration, DocumentPhase, InsertFailure,
};
use mongo_migrate::services::index_migration::{
    decide_index, index_display_name, plan_indices, IndexAction, IndexDecision, IndexMigration,
};

fn s(x: &str) -> String {
    x.to_string()
}

fn names(xs: &[&str]) -> Vec<String> {
    xs.iter().map(|x| x.to_string()).collect()
}

fn config(collections: &[&str], copy_indices: bool, read_to_memory: bool) -> AppConfig {
    AppConfig::new(
        false,
        copy_indices,
        read_to_memory,
        s("origin"),
        names(collections),
        s("dest"),
        s("mongodb://o"),
        s("mongodb://d"),
    )
}

#[test]
fn missing_collections_in_origin_order() {
    assert!(contains_name(&names(&["a", "b"]), &s("b")));
    assert!(!contains_name(&names(&["a", "b"]), &s("c")));
    assert_eq!(
        collections_to_create(&names(&["a", "b", "c", "b"]), &names(&["b", "x"])),
        names(&["a", "c"])
    );
    assert_eq!(collections_to_create(&names(&["a"]), &names(&["a"])), names(&[]));
    assert_eq!(collections_to_create(&names(&[]), &names(&["a"])), names(&[]));
    assert_eq!(
        collections_to_create(&names(&["a", "a"]), &names(&[])),
        names(&["a", "a"])
    );
}

fn run_all_succeeding(m: &mut CollectionMigration, targets: Vec<String>) -> Vec<CollectionAction> {
    let mut actions = Vec::new();
    loop {
        let a = m.next_action();
        actions.push(a.clone());
        match a {
            CollectionAction::ListTargetCollections => m.on_targets_listed(targets.clone()),
            CollectionAction::Complete | CollectionAction::Abort => return actions,
            _ => m.on_success(),
        }
    }
}

#[test]
fn successful_collection_migration() {
    let migrator = DbMigrator::new(config(&["a", "b", "c"], true, false));
    let mut m = migrator.migrate_db();
    let actions = run_all_succeeding(&mut m, names(&["b"]));
    let spawn = |c: &str| CollectionAction::SpawnCollectionTask {
        collection: s(c),
        migrate_indices: true,
        in_memory: false,
    };
    assert_eq!(
        actions,
        vec![
            CollectionAction::ListTargetCollections,
            CollectionAction::CreateCollection(s("a")),
            CollectionAction::CreateCollection(s("c")),
            spawn("a"),
            spawn("b"),
            spawn("c"),
            CollectionAction::AwaitCollectionTask(0),
            CollectionAction::AwaitCollectionTask(1),
            CollectionAction::AwaitCollectionTask(2),
            CollectionAction::Complete,
        ]
    );
}

#[test]
fn collection_migration_without_missing_collections() {
    let migrator = DbMigrator::new(config(&["a"], false, true));
    let mut m = migrator.migrate_collections(false);
    let actions = run_all_succeeding(&mut m, names(&["a", "z"]));
    assert_eq!(
        actions,
        vec![
            CollectionAction::ListTargetCollections,
            CollectionAction::SpawnCollectionTask {
                collection: s("a"),
                migrate_indices: false,
                in_memory: true
            },
            CollectionAction::AwaitCollectionTask(0),
            CollectionAction::Complete,
        ]
    );
}

#[test]
fn collection_migration_of_nothing() {
    let migrator = DbMigrator::new(config(&[], true, true));
    let mut m = migrator.migrate_db();
    let actions = run_all_succeeding(&mut m, names(&["a"]));
    assert_eq!(
        actions,
        vec![CollectionAction::ListTargetCollections, CollectionAction::Complete]
    );
}

#[test]
fn collection_migration_stops_at_first_failure() {
    let migrator = DbMigrator::new(config(&["a", "b"], false, false));
    let mut m = migrator.migrate_db();
    m.on_targets_listed(names(&[]));
    assert_eq!(m.next_action(), CollectionAction::CreateCollection(s("a")));
    m.on_failure();
    assert_eq!(m.next_action(), CollectionAction::Abort);
    m.on_success();
    m.on_targets_listed(names(&[]));
    assert_eq!(m.next_action(), CollectionAction::Abort);

    let mut m = migrator.migrate_db();
    m.on_failure();
    assert_eq!(m.next_action(), CollectionAction::Abort);

    let mut m = migrator.migrate_db();
    m.on_targets_listed(names(&["a", "b"]));
    m.on_success();
    m.on_success();
    assert_eq!(m.next_action(), CollectionAction::AwaitCollectionTask(0));
    m.on_failure();
    assert_eq!(m.next_action(), CollectionAction::Abort);
}

#[test]
fn completed_collection_migration_ignores_failures() {
    let migrator = DbMigrator::new(config(&[], false, false));
    let mut m = migrator.migrate_db();
    m.on_targets_listed(names(&[]));
    assert_eq!(m.next_action(), CollectionAction::Complete);
    m.on_failure();
    assert_eq!(m.next_action(), CollectionAction::Complete);
}

#[test]
fn collection_task_steps() {
    let mut t = DbMigrator::migrate_collection(true, false);
    assert_eq!(t.next_action(), TaskAction::Run(TaskStep::MigrateIndices));
    t.on_step_done();
    assert_eq!(
        t.next_action(),
        TaskAction::Run(TaskStep::MigrateDocuments { in_memory: false })
    );
    t.on_step_done();
    assert_eq!(t.next_action(), TaskAction::Finished);
    t.on_step_done();
    assert_eq!(t.next_action(), TaskAction::Finished);

    let mut t = CollectionTask::new(false, true);
    assert_eq!(
        t.next_action(),
        TaskAction::Run(TaskStep::MigrateDocuments { in_memory: true })
    );
    t.on_step_done();
    assert_eq!(t.next_action(), TaskAction::Finished);
}

#[test]
fn index_names_and_decisions() {
    assert_eq!(index_display_name(&Some(s("age_1"))), "age_1");
    assert_eq!(index_display_name(&None), "<unnamed>");
    let target = vec![Some(s("_id_")), Some(s("name_1")), None];
    assert_eq!(decide_index(&Some(s("_id_")), &target), IndexDecision::SkipDefault);
    assert_eq!(decide_index(&Some(s("name_1")), &target), IndexDecision::SkipExisting);
    assert_eq!(decide_index(&Some(s("age_1")), &target), IndexDecision::Create);
    assert_eq!(decide_index(&None, &target), IndexDecision::Create);
    assert_eq!(
        decide_index(&None, &vec![Some(s("<unnamed>"))]),
        IndexDecision::SkipExisting
    );
    assert_eq!(
        plan_indices(&vec![Some(s("_id_")), Some(s("a")), Some(s("b"))], &vec![Some(s("b"))]),
        vec![IndexDecision::SkipDefault, IndexDecision::Create, IndexDecision::SkipExisting]
    );
}

#[test]
fn successful_index_migration() {
    let mut m = DbMigrator::migrate_indices();
    assert_eq!(m.next_action(), IndexAction::ListSourceIndexes);
    m.on_source_listed(vec![Some(s("_id_")), Some(s("a_1")), Some(s("b_1")), None, Some(s("c_1"))]);
    assert_eq!(m.next_action(), IndexAction::ListTargetIndexes);
    m.on_target_listed(&vec![Some(s("_id_")), Some(s("b_1"))]);
    assert_eq!(
        *m.decisions(),
        vec![
            IndexDecision::SkipDefault,
            IndexDecision::Create,
            IndexDecision::SkipExisting,
            IndexDecision::Create,
            IndexDecision::Create
        ]
    );
    assert_eq!(m.next_action(), IndexAction::CreateIndex(1));
    m.on_success();
    assert_eq!(m.next_action(), IndexAction::CreateIndex(3));
    m.on_success();
    assert_eq!(m.next_action(), IndexAction::CreateIndex(4));
    m.on_success();
    assert_eq!(m.next_action(), IndexAction::Complete);
}

#[test]
fn index_migration_with_nothing_to_create() {
    let mut m = IndexMigration::new();
    m.on_source_listed(vec![Some(s("_id_"))]);
    m.on_target_listed(&vec![]);
    assert_eq!(m.next_action(), IndexAction::Complete);
}

#[test]
fn index_migration_stops_at_first_failure() {
    let mut m = IndexMigration::new();
    m.on_source_listed(vec![Some(s("a")), Some(s("b"))]);
    m.on_target_listed(&vec![]);
    assert_eq!(m.next_action(), IndexAction::CreateIndex(0));
    m.on_failure();
    assert_eq!(m.next_action(), IndexAction::Abort);
    m.on_success();
    assert_eq!(m.next_action(), IndexAction::Abort);

    let mut m = IndexMigration::new();
    m.on_failure();
    assert_eq!(m.next_action(), IndexAction::Abort);
}

#[test]
fn duplicate_key_classification() {
    assert!(is_duplicate_key(&InsertFailure::WriteError { code: 11000 }));
    assert!(!is_duplicate_key(&InsertFailure::WriteError { code: 121 }));
    assert!(is_duplicate_key(&InsertFailure::BulkWrite { codes: vec![11000, 11000] }));
    assert!(!is_duplicate_key(&InsertFailure::BulkWrite { codes: vec![11000, 2] }));
    assert!(is_duplicate_key(&InsertFailure::BulkWrite { codes: vec![] }));
    assert!(!is_duplicate_key(&InsertFailure::Other));
}

#[test]
fn in_memory_document_migration() {
    let mut m = DbMigrator::migrate_documents(true);
    assert_eq!(m.next_action(), DocumentAction::OpenCursor);
    m.on_opened();
    assert_eq!(m.next_action(), DocumentAction::CollectAll);
    m.on_collected(3);
    assert_eq!(m.next_action(), DocumentAction::InsertAll { ordered: false });
    m.on_inserted();
    assert_eq!(m.next_action(), DocumentAction::Complete);
}

#[test]
fn in_memory_empty_collection_inserts_nothing() {
    let mut m = DocumentMigration::new(true);
    m.on_opened();
    m.on_collected(0);
    assert_eq!(m.next_action(), DocumentAction::Complete);
}

#[test]
fn in_memory_duplicates_are_passed_over() {
    let mut m = DocumentMigration::new(true);
    m.on_opened();
    m.on_collected(2);
    assert!(m.on_insert_failed(&InsertFailure::BulkWrite { codes: vec![11000] }));
    assert_eq!(m.next_action(), DocumentAction::Complete);

    let mut m = DocumentMigration::new(true);
    m.on_opened();
    m.on_collected(2);
    assert!(!m.on_insert_failed(&InsertFailure::Other));
    assert_eq!(m.next_action(), DocumentAction::Abort);
}

#[test]
fn one_by_one_document_migration() {
    let mut m = DocumentMigration::new(false);
    m.on_opened();
    assert_eq!(m.next_action(), DocumentAction::FetchNext);
    m.on_fetched(true);
    assert_eq!(m.next_action(), DocumentAction::InsertOne);
    m.on_inserted();
    assert_eq!(m.next_action(), DocumentAction::FetchNext);
    m.on_fetched(true);
    assert!(m.on_insert_failed(&InsertFailure::WriteError { code: 11000 }));
    assert_eq!(m.next_action(), DocumentAction::FetchNext);
    m.on_fetched(true);
    assert!(!m.on_insert_failed(&InsertFailure::WriteError { code: 1 }));
    assert_eq!(m.next_action(), DocumentAction::Abort);
    assert_eq!(m.phase, DocumentPhase::Failed);

    let mut m = DocumentMigration::new(false);
    m.on_opened();
    m.on_fetched(false);
    assert_eq!(m.next_action(), DocumentAction::Complete);
}

#[test]
fn document_migration_read_failures_abort() {
    let mut m = DocumentMigration::new(false);
    m.on_failure();
    assert_eq!(m.next_action(), DocumentAction::Abort);
    let mut m = DocumentMigration::new(false);
    m.on_opened();
    m.on_failure();
    assert_eq!(m.next_action(), DocumentAction::Abort);
}

#[test]
fn db_migrator_keeps_config() {
    let c = config(&["a"], true, false);
    let m = DbMigrator::new(c.clone());
    assert_eq!(m.app_config, c);
}

#[test]
fn one_by_one_succeeds_exactly_when_every_failure_is_a_duplicate() {
    let run = |outcomes: Vec<Option<InsertFailure>>| {
        let mut m = DocumentMigration::new(false);
        m.on_opened();
        for outcome in outcomes {
            if m.next_action() != DocumentAction::FetchNext {
                break;
            }
            m.on_fetched(true);
            match outcome {
                None => m.on_inserted(),
                Some(f) => {
                    m.on_insert_failed(&f);
                }
            }
        }
        if m.next_action() == DocumentAction::FetchNext {
            m.on_fetched(false);
        }
        m.next_action()
    };
    assert_eq!(run(vec![]), DocumentAction::Complete);
    assert_eq!(
        run(vec![None, Some(InsertFailure::WriteError { code: 11000 }), None]),
        DocumentAction::Complete
    );
    assert_eq!(
        run(vec![None, Some(InsertFailure::Other), None]),
        DocumentAction::Abort
    );
}

#[test]
fn collection_migration_names_both_databases() {
    let migrator = DbMigrator::new(config(&["a"], false, false));
    let m = migrator.migrate_db();
    assert_eq!(m.origin_db(), "origin");
    assert_eq!(m.destination_db(), "dest");
    let m = CollectionMigration::new(s("x"), s("y"), names(&[]), false, false);
    assert_eq!(m.origin_db(), "x");
    assert_eq!(m.destination_db(), "y");
}
