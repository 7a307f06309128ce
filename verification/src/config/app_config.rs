//! The settings that a migration runs with.
use vstd::prelude::*;

verus! {

/// The settings of one migration.
///
/// The two MongoDB clients of a migration are stood for by the connection
/// strings they are made from; whoever performs the migration connects with
/// them.
#[derive(Clone, Debug, PartialEq, Eq)]
pub struct AppConfig {
    pub read_to_memory: bool,
    pub display_header: bool,
    pub copy_indices: bool,
    pub mongodb_origin_db: String,
    pub mongodb_origin_collections: Vec<String>,
    pub mongodb_destination_db: String,
    pub mongodb_origin_connection_string: String,
    pub mongodb_destination_connection_string: String,
}

/// The settings of a migration as plain values.
pub struct AppConfigView {
    pub read_to_memory: bool,
    pub display_header: bool,
    pub copy_indices: bool,
    pub mongodb_origin_db: Seq<char>,
    pub mongodb_origin_collections: Seq<Seq<char>>,
    pub mongodb_destination_db: Seq<char>,
    pub mongodb_origin_connection_string: Seq<char>,
    pub mongodb_destination_connection_string: Seq<char>,
}

impl View for AppConfig {
    type V = AppConfigView;

    open spec fn view(&self) -> AppConfigView {
        AppConfigView {
            read_to_memory: self.read_to_memory,
            display_header: self.display_header,
            copy_indices: self.copy_indices,
            mongodb_origin_db: self.mongodb_origin_db@,
            mongodb_origin_collections: self.mongodb_origin_collections.deep_view(),
            mongodb_destination_db: self.mongodb_destination_db@,
            mongodb_origin_connection_string: self.mongodb_origin_connection_string@,
            mongodb_destination_connection_string: self.mongodb_destination_connection_string@,
        }
    }
}

impl AppConfig {
    /// Creates the settings of a migration from their values.
    #[allow(clippy::too_many_arguments)]
    pub fn new(
        display_header: bool,
        copy_indices: bool,
        read_to_memory: bool,
        mongodb_origin_db: String,
        mongodb_origin_collections: Vec<String>,
        mongodb_destination_db: String,
        mongodb_origin_connection_string: String,
        mongodb_destination_connection_string: String,
    ) -> (config: Self)
        ensures
            config.display_header == display_header,
            config.copy_indices == copy_indices,
            config.read_to_memory == read_to_memory,
            config.mongodb_origin_db == mongodb_origin_db,
            config.mongodb_origin_collections == mongodb_origin_collections,
            config.mongodb_destination_db == mongodb_destination_db,
            config.mongodb_origin_connection_string == mongodb_origin_connection_string,
            config.mongodb_destination_connection_string == mongodb_destination_connection_string,
    {
        Self {
            display_header,
            copy_indices,
            read_to_memory,
            mongodb_origin_db,
            mongodb_origin_collections,
            mongodb_destination_db,
            mongodb_origin_connection_string,
            mongodb_destination_connection_string,
        }
    }
}

} // verus!
