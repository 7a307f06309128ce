//! Reading the migration's settings: each setting comes from its environment
//! variable when that is set; otherwise a yes/no setting takes its default
//! and any other setting is asked from the user. The reading is a state machine: the caller performs the action
//! that `ConfigReader::next_action` names and hands back what came of it.
use vstd::prelude::*;
use vstd::string::*;

use crate::config::app_config::{AppConfig, AppConfigView};
use crate::text::{parse_bool, parse_bool_spec, split_on, split_trimmed, trim, trim_end_spec, trim_start_spec, trimmed};

verus! {

/// Reads the tool's settings from the environment and from the user.
#[derive(Clone, Copy, Debug, PartialEq, Eq)]
pub struct EnvReader {}

/// The settings, in the order in which they are read.
#[derive(Clone, Copy, Debug, PartialEq, Eq, Structural)]
pub enum Setting {
    DisplayHeader,
    CopyIndices,
    ReadToMemory,
    OriginConnectionString,
    OriginDb,
    OriginCollections,
    DestinationConnectionString,
    DestinationDb,
}

/// Where the reading of the settings stands.
#[derive(Clone, Copy, Debug, PartialEq, Eq, Structural)]
pub enum ReadStep {
    /// The setting's environment variable is to be read.
    Env(Setting),
    /// The user is to be asked for the setting.
    Ask(Setting),
    /// The clients are to be connected.
    Connect,
    /// The origin database's collections are to be listed.
    ListCollections,
    /// All settings are read.
    Done,
}

/// What the caller is to do next.
#[derive(Clone, Debug, PartialEq, Eq)]
pub enum ReadAction {
    /// Read the environment variable of this name.
    ReadEnv(String),
    /// Ask the user this question.
    Ask(String),
    /// Connect to the origin and the destination with these connection strings.
    Connect { origin: String, destination: String },
    /// List the collections of the origin database of this name.
    ListCollections(String),
    /// Nothing more is to be read.
    Finished,
}

/// A `ReadAction` as plain values.
pub enum ReadActionView {
    ReadEnv(Seq<char>),
    Ask(Seq<char>),
    Connect { origin: Seq<char>, destination: Seq<char> },
    ListCollections(Seq<char>),
    Finished,
}

impl View for ReadAction {
    type V = ReadActionView;

    open spec fn view(&self) -> ReadActionView {
        match self {
            ReadAction::ReadEnv(name) => ReadActionView::ReadEnv(name@),
            ReadAction::Ask(question) => ReadActionView::Ask(question@),
            ReadAction::Connect { origin, destination } => ReadActionView::Connect {
                origin: origin@,
                destination: destination@,
            },
            ReadAction::ListCollections(db) => ReadActionView::ListCollections(db@),
            ReadAction::Finished => ReadActionView::Finished,
        }
    }
}

/// The state of a reading of the settings.
pub struct ConfigReader {
    step: ReadStep,
    display_header: bool,
    copy_indices: bool,
    read_to_memory: bool,
    origin_connection_string: String,
    origin_db: String,
    origin_collections: Vec<String>,
    destination_connection_string: String,
    destination_db: String,
}

/// A `ConfigReader` as plain values.
pub struct ConfigReaderView {
    pub step: ReadStep,
    pub display_header: bool,
    pub copy_indices: bool,
    pub read_to_memory: bool,
    pub origin_connection_string: Seq<char>,
    pub origin_db: Seq<char>,
    pub origin_collections: Seq<Seq<char>>,
    pub destination_connection_string: Seq<char>,
    pub destination_db: Seq<char>,
}

impl View for ConfigReader {
    type V = ConfigReaderView;

    closed spec fn view(&self) -> ConfigReaderView {
        ConfigReaderView {
            step: self.step,
            display_header: self.display_header,
            copy_indices: self.copy_indices,
            read_to_memory: self.read_to_memory,
            origin_connection_string: self.origin_connection_string@,
            origin_db: self.origin_db@,
            origin_collections: self.origin_collections.deep_view(),
            destination_connection_string: self.destination_connection_string@,
            destination_db: self.destination_db@,
        }
    }
}

/// The name of the environment variable of a setting.
pub open spec fn env_var_name_spec(s: Setting) -> Seq<char> {
    match s {
        Setting::DisplayHeader => "DISPLAY_HEADER"@,
        Setting::CopyIndices => "COPY_INDICES"@,
        Setting::ReadToMemory => "READ_TO_MEMORY"@,
        Setting::OriginConnectionString => "MONGODB_ORIGIN_CONNECTION_STRING"@,
        Setting::OriginDb => "MONGODB_ORIGIN_DB"@,
        Setting::OriginCollections => "MONGODB_ORIGIN_COLLECTIONS"@,
        Setting::DestinationConnectionString => "MONGODB_DESTINATION_CONNECTION_STRING"@,
        Setting::DestinationDb => "MONGODB_DESTINATION_DB"@,
    }
}

/// The question that asks the user for a setting. The yes/no settings are
/// never asked for (an unset one takes its default); their question is
/// empty.
pub open spec fn question_spec(s: Setting) -> Seq<char> {
    match s {
        Setting::DisplayHeader => Seq::empty(),
        Setting::CopyIndices => Seq::empty(),
        Setting::ReadToMemory => Seq::empty(),
        Setting::OriginConnectionString => " Please enter the origin MongoDB connection string:"@,
        Setting::OriginDb => " Please enter the origin MongoDB database name:"@,
        Setting::OriginCollections => " Please enter the origin MongoDB collection names (comma-separated) or leave empty to read all collections:"@,
        Setting::DestinationConnectionString => " Please enter the destination MongoDB connection string:"@,
        Setting::DestinationDb => " Please enter the destination MongoDB database name:"@,
    }
}

/// Whether a setting is a yes/no setting.
pub open spec fn is_flag(s: Setting) -> bool {
    s == Setting::DisplayHeader || s == Setting::CopyIndices || s == Setting::ReadToMemory
}

/// The value of a yes/no setting whose variable is unset or does not parse:
/// the header is shown, indexes are not copied, documents are not read into
/// memory.
pub open spec fn flag_default(s: Setting) -> bool {
    s == Setting::DisplayHeader
}

/// The step that follows the reading of a setting.
pub open spec fn step_after(s: Setting) -> ReadStep {
    match s {
        Setting::DisplayHeader => ReadStep::Env(Setting::CopyIndices),
        Setting::CopyIndices => ReadStep::Env(Setting::ReadToMemory),
        Setting::ReadToMemory => ReadStep::Env(Setting::OriginConnectionString),
        Setting::OriginConnectionString => ReadStep::Env(Setting::OriginDb),
        Setting::OriginDb => ReadStep::Env(Setting::OriginCollections),
        Setting::OriginCollections => ReadStep::Env(Setting::DestinationConnectionString),
        Setting::DestinationConnectionString => ReadStep::Env(Setting::DestinationDb),
        Setting::DestinationDb => ReadStep::Connect,
    }
}

/// The value of a yes/no setting whose environment variable holds `d`: the
/// trimmed value parsed as a `bool`, or `default` where it does not parse.
pub open spec fn env_flag(d: Seq<char>, default: bool) -> bool {
    match parse_bool_spec(trimmed(d)) {
        Some(b) => b,
        None => default,
    }
}

/// The collection names in a comma-separated list, each trimmed.
pub open spec fn collection_list(d: Seq<char>) -> Seq<Seq<char>> {
    split_on(d, ',').map_values(|p: Seq<char>| trimmed(p))
}

impl ConfigReaderView {
    /// The state in which a reading starts.
    pub open spec fn initial() -> Self {
        ConfigReaderView {
            step: ReadStep::Env(Setting::DisplayHeader),
            display_header: false,
            copy_indices: false,
            read_to_memory: false,
            origin_connection_string: Seq::empty(),
            origin_db: Seq::empty(),
            origin_collections: Seq::empty(),
            destination_connection_string: Seq::empty(),
            destination_db: Seq::empty(),
        }
    }

    /// Records the value of a yes/no setting and moves past it.
    pub open spec fn with_flag(self, s: Setting, b: bool) -> Self {
        let v = match s {
            Setting::DisplayHeader => ConfigReaderView { display_header: b, ..self },
            Setting::CopyIndices => ConfigReaderView { copy_indices: b, ..self },
            Setting::ReadToMemory => ConfigReaderView { read_to_memory: b, ..self },
            _ => self,
        };
        ConfigReaderView { step: step_after(s), ..v }
    }

    /// Records the value of a text setting and moves past it.
    pub open spec fn with_text(self, s: Setting, t: Seq<char>) -> Self {
        let v = match s {
            Setting::OriginConnectionString => ConfigReaderView {
                origin_connection_string: t,
                ..self
            },
            Setting::OriginDb => ConfigReaderView { origin_db: t, ..self },
            Setting::DestinationConnectionString => ConfigReaderView {
                destination_connection_string: t,
                ..self
            },
            Setting::DestinationDb => ConfigReaderView { destination_db: t, ..self },
            _ => self,
        };
        ConfigReaderView { step: step_after(s), ..v }
    }

    /// Records the collection names and moves past them.
    pub open spec fn with_collections(self, names: Seq<Seq<char>>) -> Self {
        ConfigReaderView {
            origin_collections: names,
            step: step_after(Setting::OriginCollections),
            ..self
        }
    }

    /// The state after the environment variable of the current setting was
    /// read: `Some` value where it is set, `None` where it is not.
    pub open spec fn after_env(self, value: Option<Seq<char>>) -> Self {
        match self.step {
            ReadStep::Env(s) => match value {
                Some(d) => {
                    if is_flag(s) {
                        self.with_flag(s, env_flag(d, flag_default(s)))
                    } else if s == Setting::OriginCollections {
                        self.with_collections(collection_list(d))
                    } else {
                        self.with_text(s, d)
                    }
                },
                None => {
                    if is_flag(s) {
                        self.with_flag(s, flag_default(s))
                    } else {
                        ConfigReaderView { step: ReadStep::Ask(s), ..self }
                    }
                },
            },
            _ => self,
        }
    }

    /// Whether `answer` is taken as the answer to the current question.
    pub open spec fn answer_accepted(self, answer: Seq<char>) -> bool {
        match self.step {
            ReadStep::Ask(s) => !is_flag(s),
            _ => false,
        }
    }

    /// The state after the user answered the current question.
    pub open spec fn after_answer(self, answer: Seq<char>) -> Self {
        match self.step {
            ReadStep::Ask(s) => {
                if !self.answer_accepted(answer) {
                    self
                } else if s == Setting::OriginCollections {
                    if answer.len() == 0 {
                        self.with_collections(Seq::empty())
                    } else {
                        self.with_collections(collection_list(answer))
                    }
                } else {
                    self.with_text(s, answer)
                }
            },
            _ => self,
        }
    }

    /// The state after the clients were connected: the collections are
    /// listed where none were named, else the reading is done.
    pub open spec fn after_connected(self) -> Self {
        match self.step {
            ReadStep::Connect => {
                if self.origin_collections.len() == 0 {
                    ConfigReaderView { step: ReadStep::ListCollections, ..self }
                } else {
                    ConfigReaderView { step: ReadStep::Done, ..self }
                }
            },
            _ => self,
        }
    }

    /// The state after the origin database's collections were listed:
    /// they are the collections to migrate.
    pub open spec fn after_listed(self, names: Seq<Seq<char>>) -> Self {
        match self.step {
            ReadStep::ListCollections => ConfigReaderView {
                origin_collections: names,
                step: ReadStep::Done,
                ..self
            },
            _ => self,
        }
    }

    /// What the caller is to do in this state.
    pub open spec fn action(self) -> ReadActionView {
        match self.step {
            ReadStep::Env(s) => ReadActionView::ReadEnv(env_var_name_spec(s)),
            ReadStep::Ask(s) => ReadActionView::Ask(question_spec(s)),
            ReadStep::Connect => ReadActionView::Connect {
                origin: self.origin_connection_string,
                destination: self.destination_connection_string,
            },
            ReadStep::ListCollections => ReadActionView::ListCollections(self.origin_db),
            ReadStep::Done => ReadActionView::Finished,
        }
    }

    /// The settings read so far.
    pub open spec fn config(self) -> AppConfigView {
        AppConfigView {
            read_to_memory: self.read_to_memory,
            display_header: self.display_header,
            copy_indices: self.copy_indices,
            mongodb_origin_db: self.origin_db,
            mongodb_origin_collections: self.origin_collections,
            mongodb_destination_db: self.destination_db,
            mongodb_origin_connection_string: self.origin_connection_string,
            mongodb_destination_connection_string: self.destination_connection_string,
        }
    }
}

impl Setting {
    /// The name of the setting's environment variable.
    pub fn env_var_name(&self) -> (name: String)
        ensures
            name@ == env_var_name_spec(*self),
    {
        match self {
            Setting::DisplayHeader => "DISPLAY_HEADER".to_owned(),
            Setting::CopyIndices => "COPY_INDICES".to_owned(),
            Setting::ReadToMemory => "READ_TO_MEMORY".to_owned(),
            Setting::OriginConnectionString => "MONGODB_ORIGIN_CONNECTION_STRING".to_owned(),
            Setting::OriginDb => "MONGODB_ORIGIN_DB".to_owned(),
            Setting::OriginCollections => "MONGODB_ORIGIN_COLLECTIONS".to_owned(),
            Setting::DestinationConnectionString => "MONGODB_DESTINATION_CONNECTION_STRING".to_owned(),
            Setting::DestinationDb => "MONGODB_DESTINATION_DB".to_owned(),
        }
    }

    /// The question that asks the user for the setting.
    pub fn question(&self) -> (question: String)
        ensures
            question@ == question_spec(*self),
    {
        match self {
            Setting::DisplayHeader | Setting::CopyIndices | Setting::ReadToMemory => String::new(),
            Setting::OriginConnectionString => " Please enter the origin MongoDB connection string:".to_owned(),
            Setting::OriginDb => " Please enter the origin MongoDB database name:".to_owned(),
            Setting::OriginCollections => " Please enter the origin MongoDB collection names (comma-separated) or leave empty to read all collections:".to_owned(),
            Setting::DestinationConnectionString => " Please enter the destination MongoDB connection string:".to_owned(),
            Setting::DestinationDb => " Please enter the destination MongoDB database name:".to_owned(),
        }
    }
}

/// The value of a yes/no setting read from its environment variable.
pub fn flag_from_env(d: &str, default: bool) -> (b: bool)
    ensures
        b == env_flag(d@, default),
{
    let t = trim(d);
    match parse_bool(t.as_str()) {
        Some(b) => b,
        None => default,
    }
}

impl EnvReader {
    /// Creates a new reader.
    pub fn new() -> (reader: Self)
        ensures
            reader == (EnvReader {}),
    {
        EnvReader {}
    }

    /// Starts reading the server configuration.
    pub fn read_server_config(&self) -> (reader: ConfigReader)
        ensures
            reader@ == ConfigReaderView::initial(),
    {
        let none: Vec<String> = Vec::new();
        proof {
            assert(none.deep_view() =~= Seq::<Seq<char>>::empty());
        }
        ConfigReader {
            step: ReadStep::Env(Setting::DisplayHeader),
            display_header: false,
            copy_indices: false,
            read_to_memory: false,
            origin_connection_string: String::new(),
            origin_db: String::new(),
            origin_collections: none,
            destination_connection_string: String::new(),
            destination_db: String::new(),
        }
    }
}

impl ConfigReader {
    /// What the caller is to do next.
    pub fn next_action(&self) -> (action: ReadAction)
        ensures
            action@ == self@.action(),
    {
        match self.step {
            ReadStep::Env(s) => ReadAction::ReadEnv(s.env_var_name()),
            ReadStep::Ask(s) => ReadAction::Ask(s.question()),
            ReadStep::Connect => ReadAction::Connect {
                origin: self.origin_connection_string.clone(),
                destination: self.destination_connection_string.clone(),
            },
            ReadStep::ListCollections => ReadAction::ListCollections(self.origin_db.clone()),
            ReadStep::Done => ReadAction::Finished,
        }
    }

    /// Records the value of a yes/no setting and moves past it.
    fn set_flag(&mut self, s: Setting, b: bool)
        ensures
            final(self)@ == old(self)@.with_flag(s, b),
    {
        match s {
            Setting::DisplayHeader => self.display_header = b,
            Setting::CopyIndices => self.copy_indices = b,
            Setting::ReadToMemory => self.read_to_memory = b,
            _ => {},
        }
        self.step = next_step(s);
    }

    /// Records the value of a text setting and moves past it.
    fn set_text(&mut self, s: Setting, t: String)
        ensures
            final(self)@ == old(self)@.with_text(s, t@),
    {
        match s {
            Setting::OriginConnectionString => self.origin_connection_string = t,
            Setting::OriginDb => self.origin_db = t,
            Setting::DestinationConnectionString => self.destination_connection_string = t,
            Setting::DestinationDb => self.destination_db = t,
            _ => {},
        }
        self.step = next_step(s);
    }

    /// Records the collection names and moves past them.
    fn set_collections(&mut self, names: Vec<String>)
        ensures
            final(self)@ == old(self)@.with_collections(names.deep_view()),
    {
        self.origin_collections = names;
        self.step = next_step(Setting::OriginCollections);
    }

    /// Hands back the value of the current setting's environment variable:
    /// `Some` where it is set, `None` where it is not.
    pub fn on_env_value(&mut self, value: Option<String>)
        ensures
            final(self)@ == old(self)@.after_env(value.deep_view()),
    {
        match self.step {
            ReadStep::Env(s) => match value {
                Some(d) => {
                    match s {
                        Setting::DisplayHeader | Setting::CopyIndices | Setting::ReadToMemory => {
                            let b = flag_from_env(d.as_str(), default_flag(s));
                            self.set_flag(s, b);
                        },
                        Setting::OriginCollections => {
                            let names = split_trimmed(d.as_str());
                            self.set_collections(names);
                        },
                        _ => self.set_text(s, d),
                    }
                },
                None => {
                    match s {
                        Setting::DisplayHeader | Setting::CopyIndices | Setting::ReadToMemory => {
                            self.set_flag(s, default_flag(s))
                        },
                        _ => self.step = ReadStep::Ask(s),
                    }
                },
            },
            _ => {},
        }
    }

    /// Hands back the user's answer to the current question. Returns whether
    /// the answer was taken; one that was not leaves the reader as it was.
    pub fn on_answer(&mut self, answer: String) -> (accepted: bool)
        ensures
            accepted == old(self)@.answer_accepted(answer@),
            final(self)@ == old(self)@.after_answer(answer@),
    {
        match self.step {
            ReadStep::Ask(s) => match s {
                Setting::DisplayHeader | Setting::CopyIndices | Setting::ReadToMemory => false,
                Setting::OriginCollections => {
                    if answer.as_str().is_empty() {
                        let none: Vec<String> = Vec::new();
                        proof {
                            assert(none.deep_view() =~= Seq::<Seq<char>>::empty());
                        }
                        self.set_collections(none);
                    } else {
                        let names = split_trimmed(answer.as_str());
                        self.set_collections(names);
                    }
                    true
                },
                _ => {
                    self.set_text(s, answer);
                    true
                },
            },
            _ => false,
        }
    }

    /// Reports that the clients are connected.
    pub fn on_connected(&mut self)
        ensures
            final(self)@ == old(self)@.after_connected(),
    {
        match self.step {
            ReadStep::Connect => {
                if self.origin_collections.len() == 0 {
                    self.step = ReadStep::ListCollections;
                } else {
                    self.step = ReadStep::Done;
                }
            },
            _ => {},
        }
    }

    /// Hands back the names of the origin database's collections.
    pub fn on_collections_listed(&mut self, names: Vec<String>)
        ensures
            final(self)@ == old(self)@.after_listed(names.deep_view()),
    {
        match self.step {
            ReadStep::ListCollections => {
                self.origin_collections = names;
                self.step = ReadStep::Done;
            },
            _ => {},
        }
    }

    /// The settings read so far, as the migration's configuration.
    pub fn into_config(self) -> (config: AppConfig)
        ensures
            config@ == self@.config(),
    {
        AppConfig::new(
            self.display_header,
            self.copy_indices,
            self.read_to_memory,
            self.origin_db,
            self.origin_collections,
            self.destination_db,
            self.origin_connection_string,
            self.destination_connection_string,
        )
    }
}

/// The value of a yes/no setting whose variable is unset or does not parse.
pub fn default_flag(s: Setting) -> (b: bool)
    ensures
        b == flag_default(s),
{
    match s {
        Setting::DisplayHeader => true,
        _ => false,
    }
}

/// The step that follows the reading of a setting.
fn next_step(s: Setting) -> (step: ReadStep)
    ensures
        step == step_after(s),
{
    match s {
        Setting::DisplayHeader => ReadStep::Env(Setting::CopyIndices),
        Setting::CopyIndices => ReadStep::Env(Setting::ReadToMemory),
        Setting::ReadToMemory => ReadStep::Env(Setting::OriginConnectionString),
        Setting::OriginConnectionString => ReadStep::Env(Setting::OriginDb),
        Setting::OriginDb => ReadStep::Env(Setting::OriginCollections),
        Setting::OriginCollections => ReadStep::Env(Setting::DestinationConnectionString),
        Setting::DestinationConnectionString => ReadStep::Env(Setting::DestinationDb),
        Setting::DestinationDb => ReadStep::Connect,
    }
}

} // verus!

verus! {

/// An unset yes/no variable is not asked for: the setting takes its default
/// (the header shown, indexes not copied, documents not read into memory)
/// and the reading moves on.
pub proof fn lemma_unset_flag_takes_default(v: ConfigReaderView, s: Setting)
    requires
        v.step == ReadStep::Env(s),
        is_flag(s),
    ensures
        v.after_env(None).step == step_after(s),
        s == Setting::DisplayHeader ==> v.after_env(None).display_header,
        s == Setting::CopyIndices ==> !v.after_env(None).copy_indices,
        s == Setting::ReadToMemory ==> !v.after_env(None).read_to_memory,
{
}

/// A setting whose environment variable is set is never asked for: its value
/// is taken and the reading moves on to the next setting.
pub proof fn lemma_set_variable_is_not_asked(v: ConfigReaderView, d: Seq<char>)
    requires
        v.step matches ReadStep::Env(s),
    ensures
        v.step matches ReadStep::Env(s) && v.after_env(Some(d)).step == step_after(s),
{
}

/// The header is shown unless its variable holds `false` (around white
/// space): an unset or unparsable variable leaves it shown.
pub proof fn lemma_header_defaults_to_shown(v: ConfigReaderView, value: Option<Seq<char>>)
    requires
        v.step == ReadStep::Env(Setting::DisplayHeader),
    ensures
        v.after_env(value).display_header == match value {
            Some(d) => parse_bool_spec(trimmed(d)) != Some(false),
            None => true,
        },
        v.after_env(value).step == ReadStep::Env(Setting::CopyIndices),
{
}

/// No yes/no setting is asked for in this state.
pub open spec fn flags_not_asked(v: ConfigReaderView) -> bool {
    forall|s: Setting| is_flag(s) ==> v.step != ReadStep::Ask(s)
}

/// No yes/no setting is ever asked for: the reading starts in a state that
/// asks for none, and every report keeps it so.
pub proof fn lemma_flags_never_asked(
    v: ConfigReaderView,
    value: Option<Seq<char>>,
    answer: Seq<char>,
    names: Seq<Seq<char>>,
)
    requires
        flags_not_asked(v),
    ensures
        flags_not_asked(ConfigReaderView::initial()),
        flags_not_asked(v.after_env(value)),
        flags_not_asked(v.after_answer(answer)),
        flags_not_asked(v.after_connected()),
        flags_not_asked(v.after_listed(names)),
{
}

/// Once connected, the origin database's collections are listed exactly
/// where no collection was named, and the listed names become the
/// collections to migrate; named collections are kept as they are.
pub proof fn lemma_collections_listed_only_when_none_named(
    v: ConfigReaderView,
    names: Seq<Seq<char>>,
)
    requires
        v.step == ReadStep::Connect,
    ensures
        (v.after_connected().step == ReadStep::ListCollections) <==> v.origin_collections.len()
            == 0,
        v.origin_collections.len() == 0 ==> v.after_connected().action()
            == ReadActionView::ListCollections(v.origin_db),
        v.origin_collections.len() > 0 ==> v.after_connected().step == ReadStep::Done
            && v.after_connected().origin_collections == v.origin_collections,
        v.origin_collections.len() == 0 ==> v.after_connected().after_listed(names).config()
            == (AppConfigView { mongodb_origin_collections: names, ..v.config() }),
{
}

/// An empty answer to the question for collections names none; a non-empty
/// one names the trimmed pieces between its commas.
pub proof fn lemma_collections_answer(v: ConfigReaderView, answer: Seq<char>)
    requires
        v.step == ReadStep::Ask(Setting::OriginCollections),
    ensures
        v.answer_accepted(answer),
        answer.len() == 0 ==> v.after_answer(answer).origin_collections.len() == 0,
        answer.len() > 0 ==> v.after_answer(answer).origin_collections == collection_list(answer),
{
}

} // verus!

verus! {

/// Where every setting's environment variable is set, nothing is asked: the
/// reading takes each value in turn and goes on to connect, with the yes/no
/// settings parsed (the header shown, and the others off, where a value does
/// not parse) and the collection list split at its commas and trimmed; as
/// that list names at least one collection, nothing is listed either.
pub proof fn lemma_all_from_environment(
    header: Seq<char>,
    copy: Seq<char>,
    memory: Seq<char>,
    origin: Seq<char>,
    origin_db: Seq<char>,
    collections: Seq<char>,
    destination: Seq<char>,
    destination_db: Seq<char>,
)
    ensures
        ({
            let v = ConfigReaderView::initial().after_env(Some(header)).after_env(
                Some(copy),
            ).after_env(Some(memory)).after_env(Some(origin)).after_env(
                Some(origin_db),
            ).after_env(Some(collections)).after_env(Some(destination)).after_env(
                Some(destination_db),
            );
            &&& v.step == ReadStep::Connect
            &&& v.after_connected().step == ReadStep::Done
            &&& v.action() == (ReadActionView::Connect { origin, destination })
            &&& v.config() == (AppConfigView {
                read_to_memory: env_flag(memory, false),
                display_header: env_flag(header, true),
                copy_indices: env_flag(copy, false),
                mongodb_origin_db: origin_db,
                mongodb_origin_collections: collection_list(collections),
                mongodb_destination_db: destination_db,
                mongodb_origin_connection_string: origin,
                mongodb_destination_connection_string: destination,
            })
        }),
{
    crate::text::lemma_split_on_nonempty(collections, ',');
}

} // verus!

verus! {

/// White space around a yes/no value does not matter: ` false\n` turns the
/// header off as `false` does.
pub proof fn lemma_flag_value_is_trimmed()
    ensures
        env_flag(seq![' ', 'f', 'a', 'l', 's', 'e', '\n'], true) == false,
{
    let s = seq![' ', 'f', 'a', 'l', 's', 'e', '\n'];
    let start = seq!['f', 'a', 'l', 's', 'e', '\n'];
    let word = seq!['f', 'a', 'l', 's', 'e'];
    assert(s.drop_first() =~= start);
    assert(trim_start_spec(start) == start);
    assert(trim_start_spec(s) == start);
    assert(start.drop_last() =~= word);
    assert(trim_end_spec(word) == word);
    assert(trim_end_spec(start) == word);
    reveal_strlit("false");
    reveal_strlit("true");
    assert(word =~= "false"@);
    assert(word.len() != "true"@.len());
    assert(trimmed(s) == word);
}

} // verus!

verus! {

/// A yes/no variable whose value trims to `true` gives `true`, one that
/// trims to `false` gives `false`, whatever the default; any other value
/// gives the default.
pub proof fn lemma_flag_value(d: Seq<char>, default: bool)
    ensures
        trimmed(d) == "true"@ ==> env_flag(d, default) == true,
        trimmed(d) == "false"@ ==> env_flag(d, default) == false,
        (trimmed(d) != "true"@ && trimmed(d) != "false"@) ==> env_flag(d, default) == default,
{
    crate::text::lemma_parse_bool(trimmed(d));
}

/// A set yes/no variable is taken at its word: `true` or `false` (around
/// white space) sets the setting so, whatever its default.
pub proof fn lemma_set_flag_is_taken(v: ConfigReaderView, d: Seq<char>)
    requires
        v.step matches ReadStep::Env(s) && is_flag(s),
        trimmed(d) == "true"@ || trimmed(d) == "false"@,
    ensures
        ({
            let w = v.after_env(Some(d));
            let b = trimmed(d) == "true"@;
            &&& v.step == ReadStep::Env(Setting::DisplayHeader) ==> w.display_header == b
            &&& v.step == ReadStep::Env(Setting::CopyIndices) ==> w.copy_indices == b
            &&& v.step == ReadStep::Env(Setting::ReadToMemory) ==> w.read_to_memory == b
        }),
{
    lemma_flag_value(d, true);
    lemma_flag_value(d, false);
}

/// The collections named in a comma-separated value are one per piece
/// between its commas, each trimmed: the pieces, joined again with commas,
/// give back the value, none holds a comma, and there is one more of them
/// than there are commas.
pub proof fn lemma_collection_list_is_one_per_piece(d: Seq<char>)
    ensures
        ({
            let pieces = split_on(d, ',');
            &&& crate::text::join_with(pieces, ',') == d
            &&& forall|i: int| 0 <= i < pieces.len() ==> !(#[trigger] pieces[i]).contains(',')
            &&& collection_list(d).len() == pieces.len()
            &&& collection_list(d).len() == d.filter(|c: char| c == ',').len() + 1
            &&& forall|k: int|
                0 <= k < pieces.len() ==> #[trigger] collection_list(d)[k] == trimmed(pieces[k])
        }),
{
    crate::text::lemma_split_join(d, ',');
    crate::text::lemma_split_count(d, ',');
}

/// A collection list read from the environment or typed in becomes, piece
/// by piece, the collections to migrate.
pub proof fn lemma_collections_read_are_kept(v: ConfigReaderView, d: Seq<char>)
    requires
        v.step == ReadStep::Env(Setting::OriginCollections) || (v.step == ReadStep::Ask(
            Setting::OriginCollections,
        ) && d.len() > 0),
    ensures
        ({
            let w = if v.step == ReadStep::Env(Setting::OriginCollections) {
                v.after_env(Some(d))
            } else {
                v.after_answer(d)
            };
            &&& w.origin_collections.len() == d.filter(|c: char| c == ',').len() + 1
            &&& forall|k: int|
                0 <= k < w.origin_collections.len() ==> #[trigger] w.origin_collections[k]
                    == trimmed(split_on(d, ',')[k])
        }),
{
    lemma_collection_list_is_one_per_piece(d);
}

} // verus!

verus! {

/// An answer to the question for a text setting becomes that setting as it
/// was typed, and the reading moves on to the next setting.
pub proof fn lemma_text_answer_is_taken(v: ConfigReaderView, answer: Seq<char>)
    requires
        v.step matches ReadStep::Ask(s) && !is_flag(s) && s != Setting::OriginCollections,
    ensures
        ({
            let w = v.after_answer(answer);
            &&& v.answer_accepted(answer)
            &&& v.step matches ReadStep::Ask(s) && w.step == step_after(s)
            &&& v.step == ReadStep::Ask(Setting::OriginConnectionString) ==> w.origin_connection_string == answer
            &&& v.step == ReadStep::Ask(Setting::OriginDb) ==> w.origin_db == answer
            &&& v.step == ReadStep::Ask(Setting::DestinationConnectionString) ==> w.destination_connection_string == answer
            &&& v.step == ReadStep::Ask(Setting::DestinationDb) ==> w.destination_db == answer
            &&& w.config().mongodb_origin_collections == v.origin_collections
        }),
{
}

} // verus!
