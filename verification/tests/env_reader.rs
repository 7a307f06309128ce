use mongo_migrate::components::env_reader::{
    default_flag, flag_from_env, ConfigReader, EnvReader, ReadAction, Setting,
};
use mongo_migrate::config::app_config::AppConfig;

fn s(x: &str) -> String {
    x.to_string()
}

#[test]
fn env_reader_new() {
    let r = EnvReader::new();
    assert_eq!(r, EnvReader {});
}

#[test]
fn flag_defaults() {
    assert!(default_flag(Setting::DisplayHeader));
    assert!(!default_flag(Setting::CopyIndices));
    assert!(!default_flag(Setting::ReadToMemory));
}

#[test]
fn flags_from_environment() {
    assert!(flag_from_env("true", false));
    assert!(!flag_from_env("false", true));
    assert!(flag_from_env("  true \n", false));
    assert!(flag_from_env("yes", true));
    assert!(!flag_from_env("yes", false));
    assert!(!flag_from_env("", false));
    assert!(flag_from_env("TRUE", true));
    assert!(!flag_from_env("TRUE", false));
}

#[test]
fn setting_names_and_questions() {
    assert_eq!(Setting::DisplayHeader.env_var_name(), "DISPLAY_HEADER");
    assert_eq!(Setting::CopyIndices.env_var_name(), "COPY_INDICES");
    assert_eq!(Setting::ReadToMemory.env_var_name(), "READ_TO_MEMORY");
    assert_eq!(
        Setting::OriginConnectionString.env_var_name(),
        "MONGODB_ORIGIN_CONNECTION_STRING"
    );
    assert_eq!(Setting::OriginDb.env_var_name(), "MONGODB_ORIGIN_DB");
    assert_eq!(Setting::OriginCollections.env_var_name(), "MONGODB_ORIGIN_COLLECTIONS");
    assert_eq!(
        Setting::DestinationConnectionString.env_var_name(),
        "MONGODB_DESTINATION_CONNECTION_STRING"
    );
    assert_eq!(Setting::DestinationDb.env_var_name(), "MONGODB_DESTINATION_DB");
    assert_eq!(Setting::CopyIndices.question(), "");
    assert_eq!(Setting::ReadToMemory.question(), "");
    assert_eq!(
        Setting::OriginDb.question(),
        " Please enter the origin MongoDB database name:"
    );
    assert_eq!(
        Setting::OriginCollections.question(),
        " Please enter the origin MongoDB collection names (comma-separated) or leave empty to read all collections:"
    );
    assert_eq!(Setting::DisplayHeader.question(), "");
}

fn expect_env(r: &ConfigReader, name: &str) {
    assert_eq!(r.next_action(), ReadAction::ReadEnv(s(name)));
}

#[test]
fn reading_everything_from_the_environment() {
    let mut r = EnvReader::new().read_server_config();
    expect_env(&r, "DISPLAY_HEADER");
    r.on_env_value(Some(s(" false ")));
    expect_env(&r, "COPY_INDICES");
    r.on_env_value(Some(s("true")));
    expect_env(&r, "READ_TO_MEMORY");
    r.on_env_value(Some(s("maybe")));
    expect_env(&r, "MONGODB_ORIGIN_CONNECTION_STRING");
    r.on_env_value(Some(s("mongodb://origin:27017")));
    expect_env(&r, "MONGODB_ORIGIN_DB");
    r.on_env_value(Some(s("shop")));
    expect_env(&r, "MONGODB_ORIGIN_COLLECTIONS");
    r.on_env_value(Some(s("users, orders")));
    expect_env(&r, "MONGODB_DESTINATION_CONNECTION_STRING");
    r.on_env_value(Some(s("mongodb://dest:27017")));
    expect_env(&r, "MONGODB_DESTINATION_DB");
    r.on_env_value(Some(s("shop_copy")));
    assert_eq!(
        r.next_action(),
        ReadAction::Connect {
            origin: s("mongodb://origin:27017"),
            destination: s("mongodb://dest:27017")
        }
    );
    r.on_connected();
    assert_eq!(r.next_action(), ReadAction::Finished);
    let c = r.into_config();
    assert_eq!(
        c,
        AppConfig::new(
            false,
            true,
            false,
            s("shop"),
            vec![s("users"), s("orders")],
            s("shop_copy"),
            s("mongodb://origin:27017"),
            s("mongodb://dest:27017"),
        )
    );
}

#[test]
fn reading_from_the_user_when_unset() {
    let mut r = EnvReader::new().read_server_config();
    r.on_env_value(None);
    // The header is shown when its variable is unset, and nothing is asked.
    expect_env(&r, "COPY_INDICES");
    // Unset yes/no variables take their defaults without asking.
    r.on_env_value(None);
    expect_env(&r, "READ_TO_MEMORY");
    r.on_env_value(None);
    expect_env(&r, "MONGODB_ORIGIN_CONNECTION_STRING");
    r.on_env_value(None);
    assert_eq!(
        r.next_action(),
        ReadAction::Ask(s(" Please enter the origin MongoDB connection string:"))
    );
    assert!(r.on_answer(s("mongodb://a")));
    r.on_env_value(None);
    assert_eq!(
        r.next_action(),
        ReadAction::Ask(s(" Please enter the origin MongoDB database name:"))
    );
    assert!(r.on_answer(s("db1")));
    r.on_env_value(None);
    assert!(r.on_answer(s("")));
    r.on_env_value(None);
    assert_eq!(
        r.next_action(),
        ReadAction::Ask(s(" Please enter the destination MongoDB connection string:"))
    );
    assert!(r.on_answer(s("mongodb://b")));
    r.on_env_value(None);
    assert_eq!(
        r.next_action(),
        ReadAction::Ask(s(" Please enter the destination MongoDB database name:"))
    );
    assert!(r.on_answer(s("db2")));
    assert_eq!(
        r.next_action(),
        ReadAction::Connect { origin: s("mongodb://a"), destination: s("mongodb://b") }
    );
    r.on_connected();
    // No collection was named: the origin database's are listed.
    assert_eq!(r.next_action(), ReadAction::ListCollections(s("db1")));
    r.on_collections_listed(vec![s("x"), s("y")]);
    assert_eq!(r.next_action(), ReadAction::Finished);
    let c = r.into_config();
    assert!(c.display_header);
    assert!(!c.copy_indices);
    assert!(!c.read_to_memory);
    assert_eq!(c.mongodb_origin_db, "db1");
    assert_eq!(c.mongodb_destination_db, "db2");
    assert_eq!(c.mongodb_origin_collections, vec![s("x"), s("y")]);
    assert_eq!(c.mongodb_origin_connection_string, "mongodb://a");
    assert_eq!(c.mongodb_destination_connection_string, "mongodb://b");
}

#[test]
fn header_unparsable_value_shows_header() {
    let mut r = EnvReader::new().read_server_config();
    r.on_env_value(Some(s("nope")));
    r.on_env_value(Some(s("")));
    r.on_env_value(Some(s("")));
    let c = r.into_config();
    assert!(c.display_header);
    assert!(!c.copy_indices);
    assert!(!c.read_to_memory);
}

#[test]
fn empty_collections_variable_names_one_empty_collection() {
    let mut r = EnvReader::new().read_server_config();
    for _ in 0..5 {
        r.on_env_value(Some(s("v")));
    }
    r.on_env_value(Some(s("")));
    r.on_env_value(Some(s("c")));
    r.on_env_value(Some(s("d")));
    r.on_connected();
    assert_eq!(r.next_action(), ReadAction::Finished);
    assert_eq!(r.into_config().mongodb_origin_collections, vec![s("")]);
}

#[test]
fn collections_answer_is_split() {
    let mut r = EnvReader::new().read_server_config();
    for _ in 0..5 {
        r.on_env_value(Some(s("v")));
    }
    r.on_env_value(None);
    assert!(r.on_answer(s("a , b")));
    r.on_env_value(Some(s("c")));
    r.on_env_value(Some(s("d")));
    r.on_connected();
    assert_eq!(r.next_action(), ReadAction::Finished);
    assert_eq!(r.into_config().mongodb_origin_collections, vec![s("a"), s("b")]);
}

#[test]
fn events_out_of_turn_change_nothing() {
    let mut r = EnvReader::new().read_server_config();
    assert!(!r.on_answer(s("y")));
    r.on_connected();
    r.on_collections_listed(vec![s("z")]);
    assert_eq!(r.next_action(), ReadAction::ReadEnv(s("DISPLAY_HEADER")));
}

#[test]
fn app_config_new_keeps_values() {
    let c = AppConfig::new(
        true,
        false,
        true,
        s("o"),
        vec![s("c1")],
        s("d"),
        s("uri1"),
        s("uri2"),
    );
    assert!(c.display_header);
    assert!(!c.copy_indices);
    assert!(c.read_to_memory);
    assert_eq!(c.mongodb_origin_db, "o");
    assert_eq!(c.mongodb_origin_collections, vec![s("c1")]);
    assert_eq!(c.mongodb_destination_db, "d");
    assert_eq!(c.mongodb_origin_connection_string, "uri1");
    assert_eq!(c.mongodb_destination_connection_string, "uri2");
}
