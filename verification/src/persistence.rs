//! The settings of a speedrun and the configuration of the program, with the
//! rules by which they are made, named and chosen. Reading and writing the
//! files is left to the caller.
use crate::Keybinding;
use itertools::Itertools;
use livesplit_core::hotkey::KeyCode;
use vstd::prelude::*;
use vstd::string::StringExecFns;

verus! {

/// The name of the program, after which its files are named.
pub const PROGRAM_NAME: &'static str = "pmls";

/// Configuration file of the poor man's livesplit application.
#[derive(Clone, Debug, PartialEq, Eq)]
pub struct PMLSConfiguration {
    /// The folder that holds the settings and the runs.
    pub data_folder_path: String,
    /// Open the default speedrun when launching the application with no
    /// arguments.
    pub use_default_speedrun: bool,
    /// The name of the settings file of the default speedrun.
    pub default_speedrun_name: Option<String>,
}

impl PMLSConfiguration {
    /// The configuration of a first launch: the data folder at
    /// `data_folder_path`, the default speedrun switched on and not yet named.
    pub fn new(data_folder_path: String) -> (configuration: PMLSConfiguration)
        ensures
            configuration.data_folder_path == data_folder_path,
            configuration.use_default_speedrun,
            configuration.default_speedrun_name is None,
    {
        PMLSConfiguration {
            data_folder_path,
            default_speedrun_name: None,
            use_default_speedrun: true,
        }
    }
}

/// Keybinding provided by the user from the command line: for each key the
/// name given, if one was.
#[derive(Clone, Copy, Debug, PartialEq, Eq)]
pub struct UserKeybinding<'a> {
    /// The name given for the start/split key.
    pub split_key: Option<&'a str>,
    /// The name given for the reset key.
    pub reset_key: Option<&'a str>,
    /// The name given for the pause key.
    pub pause_key: Option<&'a str>,
    /// The name given for the unpause key.
    pub unpause_key: Option<&'a str>,
    /// The name given for the comparison key.
    pub comparison_key: Option<&'a str>,
}

impl<'a> UserKeybinding<'a> {
    /// Represents keybindings provided by the user.
    pub fn new(
        split_key: Option<&'a str>,
        reset_key: Option<&'a str>,
        pause_key: Option<&'a str>,
        unpause_key: Option<&'a str>,
        comparison_key: Option<&'a str>,
    ) -> (keybinding: UserKeybinding<'a>)
        ensures
            keybinding == (UserKeybinding {
                split_key,
                reset_key,
                pause_key,
                unpause_key,
                comparison_key,
            }),
    {
        UserKeybinding { split_key, reset_key, pause_key, unpause_key, comparison_key }
    }
}

/// Whether no two of `keys` are the same key.
pub open spec fn all_distinct(keys: Seq<KeyCode>) -> bool {
    forall|i: int, j: int| 0 <= i < j < keys.len() ==> keys[i] != keys[j]
}

/// Whether the keys that start, reset, pause and unpause are four different
/// keys. The comparison key is free to be one of them.
pub open spec fn control_keys_distinct(keybindings: Keybinding) -> bool {
    all_distinct(
        seq![
            keybindings.split_key,
            keybindings.reset_key,
            keybindings.pause_key,
            keybindings.unpause_key,
        ],
    )
}

/// Calls `Itertools::all_unique` on an iterator over `keys`: it is true
/// where no two elements are equal, and so on an empty list. Key codes are
/// equal where they are the same key.
#[verifier::external_body]
fn all_unique(keys: &Vec<KeyCode>) -> (unique: bool)
    ensures
        unique == all_distinct(keys@),
{
    keys.iter().all_unique()
}

/// The key that `name` names, if it names one.
pub uninterp spec fn key_code_named(name: Seq<char>) -> Option<KeyCode>;

/// Calls the `FromStr` implementation of `KeyCode`, which maps each known key
/// name to its key and fails on any other text.
#[verifier::external_body]
fn key_code_from_str(name: &str) -> (key: Option<KeyCode>)
    ensures
        key == key_code_named(name@),
{
    name.parse::<KeyCode>().ok()
}

/// Parses `key`, the name of a key.
pub fn parse_key(key: &str) -> (code: Result<KeyCode, FileError>)
    ensures
        code is Ok <==> key_code_named(key@) is Some,
        code matches Ok(found) ==> key_code_named(key@) == Some(found),
        code matches Err(error) ==> (error matches FileError::Other(message) && message@
            == KEY_NOT_CONVERTED@),
{
    match key_code_from_str(key) {
        Some(found) => Ok(found),
        None => Err(FileError::Other(String::from_str(KEY_NOT_CONVERTED))),
    }
}

/// The name of the settings file of a speedrun.
pub open spec fn settings_file_name(game_name: Seq<char>, category_name: Seq<char>) -> Seq<char> {
    game_name + "_"@ + category_name + ".txt"@
}

/// The name of the run file of a speedrun.
pub open spec fn run_file_name(game_name: Seq<char>, category_name: Seq<char>) -> Seq<char> {
    game_name + "_"@ + category_name + ".lss"@
}

/// The path of the file named `file_name` in the folder `folder`.
pub open spec fn path_in(folder: Seq<char>, file_name: Seq<char>) -> Seq<char> {
    folder + "/"@ + file_name
}

/// Settings for a speedrun.
#[derive(Clone, Debug, PartialEq, Eq)]
pub struct SpeedrunSettings {
    /// The names of the splits, in order.
    pub split_names: Vec<String>,
    /// The name of the game.
    pub game_name: String,
    /// The name of the category.
    pub category_name: String,
    /// The keys that control the timer.
    pub keybindings: Keybinding,
}

impl SpeedrunSettings {
    /// The settings of a speedrun, unless two of the keys that start, reset,
    /// pause and unpause are the same.
    pub fn new(
        split_names: Vec<String>,
        game_name: String,
        category_name: String,
        keybindings: Keybinding,
    ) -> (settings: Result<SpeedrunSettings, SpeedrunSettingsFileError>)
        ensures
            settings is Ok <==> control_keys_distinct(keybindings),
            settings matches Ok(made) ==> made == (SpeedrunSettings {
                split_names,
                game_name,
                category_name,
                keybindings,
            }),
            settings matches Err(error) ==> (error matches SpeedrunSettingsFileError::UserInput(
                message,
            ) && message@ == KEYS_NOT_DISTINCT@),
    {
        let mut keys: Vec<KeyCode> = Vec::new();
        keys.push(keybindings.split_key);
        keys.push(keybindings.reset_key);
        keys.push(keybindings.pause_key);
        keys.push(keybindings.unpause_key);
        assert(keys@ =~= seq![
            keybindings.split_key,
            keybindings.reset_key,
            keybindings.pause_key,
            keybindings.unpause_key,
        ]);
        if !all_unique(&keys) {
            return Err(
                SpeedrunSettingsFileError::UserInput(String::from_str(KEYS_NOT_DISTINCT)),
            );
        }
        Ok(SpeedrunSettings { split_names, game_name, category_name, keybindings })
    }

    /// The name of the file that holds these settings.
    pub fn get_file_name(&self) -> (name: String)
        ensures
            name@ == settings_file_name(self.game_name@, self.category_name@),
    {
        let mut name = self.game_name.clone();
        name.append("_");
        name.append(self.category_name.as_str());
        name.append(".txt");
        name
    }

    /// The name of the file that holds the run of this speedrun.
    pub fn get_run_file_name(&self) -> (name: String)
        ensures
            name@ == run_file_name(self.game_name@, self.category_name@),
    {
        let mut name = self.game_name.clone();
        name.append("_");
        name.append(self.category_name.as_str());
        name.append(".lss");
        name
    }

    /// The path of the settings file in the data folder `data_folder`.
    pub fn get_file_path(&self, data_folder: &str) -> (path: String)
        ensures
            path@ == path_in(
                data_folder@,
                settings_file_name(self.game_name@, self.category_name@),
            ),
    {
        let mut path = String::from_str(data_folder);
        path.append("/");
        path.append(self.get_file_name().as_str());
        path
    }

    /// The path of the run file in the data folder `data_folder`.
    pub fn get_run_file_path(&self, data_folder: &str) -> (path: String)
        ensures
            path@ == path_in(data_folder@, run_file_name(self.game_name@, self.category_name@)),
    {
        let mut path = String::from_str(data_folder);
        path.append("/");
        path.append(self.get_run_file_name().as_str());
        path
    }

    /// Return the name of the game for this speedrun.
    pub fn get_game_name(&self) -> (name: String)
        ensures
            name@ == self.game_name@,
    {
        self.game_name.clone()
    }

    /// Return the name of the game category for this speedrun.
    pub fn get_category_name(&self) -> (name: String)
        ensures
            name@ == self.category_name@,
    {
        self.category_name.clone()
    }

    /// Return names of splits for this speedrun.
    pub fn get_split_names(&self) -> (names: Vec<String>)
        ensures
            names.deep_view() == self.split_names.deep_view(),
    {
        let mut names: Vec<String> = Vec::new();
        let mut i: usize = 0;
        while i < self.split_names.len()
            invariant
                i <= self.split_names@.len(),
                names@.len() == i,
                forall|k: int| 0 <= k < i ==> (#[trigger] names@[k])@ == self.split_names@[k]@,
            decreases self.split_names@.len() - i,
        {
            names.push(self.split_names[i].clone());
            i += 1;
        }
        assert(names.deep_view() =~= self.split_names.deep_view());
        names
    }

    /// Get split key from this speedrun settings.
    pub fn get_split_key(&self) -> (key: KeyCode)
        ensures
            key == self.keybindings.split_key,
    {
        self.keybindings.split_key
    }

    /// Get reset key from this speedrun settings.
    pub fn get_reset_key(&self) -> (key: KeyCode)
        ensures
            key == self.keybindings.reset_key,
    {
        self.keybindings.reset_key
    }

    /// Get pause key from this speedrun settings.
    pub fn get_pause_key(&self) -> (key: KeyCode)
        ensures
            key == self.keybindings.pause_key,
    {
        self.keybindings.pause_key
    }

    /// Get unpause key from this speedrun settings.
    pub fn get_unpause_key(&self) -> (key: KeyCode)
        ensures
            key == self.keybindings.unpause_key,
    {
        self.keybindings.unpause_key
    }

    /// Get comparison key from this speedrun settings.
    pub fn get_comparison_key(&self) -> (key: KeyCode)
        ensures
            key == self.keybindings.comparison_key,
    {
        self.keybindings.comparison_key
    }
}

/// How far the first separator `|` stands from the start of `text`: the
/// length of `text` where it holds none.
pub open spec fn first_bar(text: Seq<char>) -> int
    decreases text.len(),
{
    if text.len() == 0 || text[0] == '|' {
        0
    } else {
        1 + first_bar(text.skip(1))
    }
}

/// The split names that `text` lists: the stretches between its separators
/// `|`, in order, without the empty ones.
pub open spec fn split_fields(text: Seq<char>) -> Seq<Seq<char>>
    decreases text.len(),
{
    let bar = first_bar(text);
    if 0 <= bar < text.len() {
        if bar > 0 {
            seq![text.take(bar)] + split_fields(text.skip(bar + 1))
        } else {
            split_fields(text.skip(bar + 1))
        }
    } else if text.len() > 0 {
        seq![text]
    } else {
        Seq::empty()
    }
}

/// The first separator stands where a separator follows a stretch without
/// one, and at the end where the whole text is such a stretch.
proof fn lemma_first_bar(text: Seq<char>, bar: int)
    requires
        0 <= bar <= text.len(),
        forall|j: int| 0 <= j < bar ==> text[j] != '|',
        bar < text.len() ==> text[bar] == '|',
    ensures
        first_bar(text) == bar,
    decreases bar,
{
    if bar > 0 {
        assert(text[0] != '|');
        lemma_first_bar(text.skip(1), bar - 1);
    }
}

/// Get splits from `raw_splits`, a list of names separated by `|`.
pub fn get_splits(raw_splits: &str) -> (names: Vec<String>)
    ensures
        names.deep_view() == split_fields(raw_splits@),
{
    let len = raw_splits.unicode_len();
    let mut names: Vec<String> = Vec::new();
    let mut start: usize = 0;
    let mut i: usize = 0;
    proof {
        assert(raw_splits@.skip(0) == raw_splits@);
        assert(names.deep_view() =~= Seq::<Seq<char>>::empty());
    }
    while i < len
        invariant
            len == raw_splits@.len(),
            start <= i <= len,
            forall|j: int| start <= j < i ==> raw_splits@[j] != '|',
            names.deep_view() + split_fields(raw_splits@.skip(start as int)) == split_fields(
                raw_splits@,
            ),
        decreases len - i,
    {
        if raw_splits.get_char(i) == '|' {
            let ghost rest = raw_splits@.skip(start as int);
            let ghost before = names.deep_view();
            proof {
                lemma_first_bar(rest, i - start);
                assert(rest.skip(i - start + 1) == raw_splits@.skip(i + 1));
                assert(rest.take(i - start) == raw_splits@.subrange(start as int, i as int));
            }
            if start < i {
                names.push(String::from_str(raw_splits.substring_char(start, i)));
                proof {
                    assert(names.deep_view() =~= before + seq![rest.take(i - start)]);
                }
            }
            start = i + 1;
        }
        i += 1;
    }
    let ghost rest = raw_splits@.skip(start as int);
    let ghost before = names.deep_view();
    proof {
        lemma_first_bar(rest, len - start);
        assert(rest == raw_splits@.subrange(start as int, len as int));
    }
    if start < len {
        names.push(String::from_str(raw_splits.substring_char(start, len)));
        proof {
            assert(names.deep_view() =~= before + seq![rest]);
        }
    }
    names
}

/// Where the settings of the speedrun to open come from.
#[derive(Clone, Debug, PartialEq, Eq)]
pub enum SettingsSource {
    /// The settings file of the game and category that the user named, by
    /// its name.
    NamedFile(String),
    /// The settings file of the default speedrun, by its name.
    DefaultFile(String),
    /// The user, because the default speedrun is asked for but has no name.
    UserForLackOfDefault,
    /// The user.
    User,
}

/// Decides where the settings of the speedrun to open come from.
///
/// Unless new settings are forced, a game and a category that are both given
/// name a file, and failing that the configuration's default speedrun is
/// taken, where it is switched on. In every other case the user is asked.
pub fn speedrun_settings_source(
    configuration: &PMLSConfiguration,
    game_name: Option<&str>,
    category_name: Option<&str>,
    force_speedrun_settings_creation: bool,
) -> (source: SettingsSource)
    ensures
        match source {
            SettingsSource::NamedFile(name) => {
                &&& !force_speedrun_settings_creation
                &&& game_name matches Some(game)
                &&& category_name matches Some(category)
                &&& name@ == settings_file_name(game@, category@)
            },
            SettingsSource::DefaultFile(name) => {
                &&& !force_speedrun_settings_creation
                &&& game_name is None || category_name is None
                &&& configuration.use_default_speedrun
                &&& configuration.default_speedrun_name == Some(name)
            },
            SettingsSource::UserForLackOfDefault => {
                &&& !force_speedrun_settings_creation
                &&& game_name is None || category_name is None
                &&& configuration.use_default_speedrun
                &&& configuration.default_speedrun_name is None
            },
            SettingsSource::User => {
                ||| force_speedrun_settings_creation
                ||| ((game_name is None || category_name is None)
                    && !configuration.use_default_speedrun)
            },
        },
{
    if !force_speedrun_settings_creation {
        if let Some(game) = game_name {
            if let Some(category) = category_name {
                let mut name = String::from_str(game);
                name.append("_");
                name.append(category);
                name.append(".txt");
                return SettingsSource::NamedFile(name);
            }
        }
    }
    if !force_speedrun_settings_creation && configuration.use_default_speedrun {
        match &configuration.default_speedrun_name {
            Some(name) => SettingsSource::DefaultFile(name.clone()),
            None => SettingsSource::UserForLackOfDefault,
        }
    } else {
        SettingsSource::User
    }
}

/// Refuses an empty name for a speedrun to look for.
pub fn check_speedrun_name(name: &str) -> (checked: Result<(), SpeedrunSettingsFileError>)
    ensures
        checked is Ok <==> name@.len() > 0,
        checked matches Err(error) ==> (error matches SpeedrunSettingsFileError::UserInput(
            message,
        ) && message@ == EMPTY_SPEEDRUN_NAME@),
{
    if name.is_empty() {
        Err(SpeedrunSettingsFileError::UserInput(String::from_str(EMPTY_SPEEDRUN_NAME)))
    } else {
        Ok(())
    }
}

/// Enables the speedrun of `settings` as the default one in `configuration`.
pub fn update_configuration_with_default_speedrun(
    configuration: PMLSConfiguration,
    settings: &SpeedrunSettings,
) -> (updated: PMLSConfiguration)
    ensures
        updated.data_folder_path == configuration.data_folder_path,
        updated.use_default_speedrun,
        updated.default_speedrun_name matches Some(name) && name@ == settings_file_name(
            settings.game_name@,
            settings.category_name@,
        ),
{
    let mut updated = configuration;
    updated.use_default_speedrun = true;
    updated.default_speedrun_name = Some(settings.get_file_name());
    updated
}

/// The data folder of the user whose home folder is `home`.
pub open spec fn data_folder_in(home: Seq<char>) -> Seq<char> {
    home + "/."@ + PROGRAM_NAME@
}

/// The configuration file of the user whose home folder is `home`.
pub open spec fn config_path_in(home: Seq<char>) -> Seq<char> {
    home + "/.config/."@ + PROGRAM_NAME@
}

/// The log file of the user whose home folder is `home`.
pub open spec fn log_file_path_in(home: Seq<char>) -> Seq<char> {
    home + "/."@ + PROGRAM_NAME@ + "/logs.txt"@
}

/// Returns the path of the configuration file, in the home folder `home`.
pub fn default_config_path(home: &str) -> (path: String)
    ensures
        path@ == config_path_in(home@),
{
    let mut path = String::from_str(home);
    path.append("/.config/.");
    path.append(PROGRAM_NAME);
    path
}

/// Returns the path of the data folder, in the home folder `home`.
pub fn default_data_folder(home: &str) -> (path: String)
    ensures
        path@ == data_folder_in(home@),
{
    let mut path = String::from_str(home);
    path.append("/.");
    path.append(PROGRAM_NAME);
    path
}

/// Returns the path of the log file, in the home folder `home`.
pub fn default_log_file_path(home: &str) -> (path: String)
    ensures
        path@ == log_file_path_in(home@),
{
    let mut path = String::from_str(home);
    path.append("/.");
    path.append(PROGRAM_NAME);
    path.append("/logs.txt");
    path
}

/// A message followed by the end of the line.
pub open spec fn line(message: Seq<char>) -> Seq<char> {
    message + "\n"@
}

fn line_of(message: &str) -> (text: String)
    ensures
        text@ == line(message@),
{
    let mut text = String::from_str(message);
    text.append("\n");
    text
}

/// Errors while persisting necessary files for the application. An error of
/// the system or of a dialog box is held by what it says.
#[derive(Clone, Debug, PartialEq, Eq)]
pub enum FileError {
    /// Input from user is invalid.
    UserInput(String),
    /// User did not provide asked input.
    UserCancel,
    /// Error with the user environment variables.
    VarError(String),
    /// User cannot interact with dialog box.
    Dialog(String),
    /// Error with filesystem.
    IO(String),
    /// Unrecoverable error.
    Other(String),
}

/// Errors while using the configuration file of the application. An error of
/// the system, of a dialog box or of the file format is held by what it says.
#[derive(Clone, Debug, PartialEq, Eq)]
pub enum ConfigurationFileError {
    /// Input from user is invalid.
    UserInput(String),
    /// User did not accept creating necessary configuration file.
    UserCancel,
    /// Error with the user environment variables.
    VarError(String),
    /// User cannot interact with dialog box.
    Dialog(String),
    /// Error with filesystem.
    IO(String),
    /// Error while parsing user's data folder.
    DataFolder(String),
    /// Serialization error.
    Serialize(String),
    /// Deserialization error.
    Deserialize(String),
    /// Unrecoverable error.
    Other(String),
}

/// Errors while using the settings file of a speedrun. An error of the
/// system, of a dialog box or of the file format is held by what it says.
#[derive(Clone, Debug, PartialEq, Eq)]
pub enum SpeedrunSettingsFileError {
    /// Input from user is invalid.
    UserInput(String),
    /// User did not provide asked input.
    UserCancel,
    /// Serialization error.
    Serialize(String),
    /// Deserialization error.
    Deserialize(String),
    /// Conversion of a file path to text.
    OSStringConversion(String),
    /// Error with the user environment variables.
    VarError(String),
    /// User cannot interact with dialog box.
    Dialog(String),
    /// Error with filesystem.
    IO(String),
    /// Unrecoverable error.
    Other(String),
    /// Missing settings file, by its name.
    Missing(String),
}

/// Errors while using the run file of a speedrun. An error of the system, of
/// a dialog box or of the file format is held by what it says.
#[derive(Clone, Debug, PartialEq, Eq)]
pub enum RunFileError {
    /// Input from user is invalid.
    UserInput(String),
    /// User did not provide asked input.
    UserCancel,
    /// Cannot save the run file.
    Save(String),
    /// Cannot parse the run file.
    Parse(String),
    /// Error with the user environment variables.
    VarError(String),
    /// User cannot interact with dialog box.
    Dialog(String),
    /// Error with filesystem.
    IO(String),
    /// Unrecoverable error.
    Other(String),
}

/// What is said when a key name is not the name of a key.
pub const KEY_NOT_CONVERTED: &'static str = "Could not convert key";

/// What is said when two control keys are the same.
pub const KEYS_NOT_DISTINCT: &'static str = "All keys need to be bound to a different key";

/// What is said when a speedrun is looked for by an empty name.
pub const EMPTY_SPEEDRUN_NAME: &'static str = "Speedrun name cannot be empty.";

impl FileError {
    /// What the error says.
    pub open spec fn message_text(self) -> Seq<char> {
        match self {
            FileError::UserInput(message) => line(message@),
            FileError::Other(message) => line(message@),
            FileError::UserCancel => line("User cancelled his action"@),
            FileError::VarError(said) => said@,
            FileError::Dialog(said) => said@,
            FileError::IO(said) => said@,
        }
    }

    /// What the error says.
    pub fn message(&self) -> (text: String)
        ensures
            text@ == self.message_text(),
    {
        match self {
            FileError::UserInput(message) => line_of(message.as_str()),
            FileError::Other(message) => line_of(message.as_str()),
            FileError::UserCancel => line_of("User cancelled his action"),
            FileError::VarError(said) => said.clone(),
            FileError::Dialog(said) => said.clone(),
            FileError::IO(said) => said.clone(),
        }
    }
}

impl ConfigurationFileError {
    /// What the error says.
    pub open spec fn message_text(self) -> Seq<char> {
        match self {
            ConfigurationFileError::UserInput(message) => line(message@),
            ConfigurationFileError::Other(message) => line(message@),
            ConfigurationFileError::UserCancel => line(
                "User cancelled creating general configuration file"@,
            ),
            ConfigurationFileError::Dialog(said) => said@,
            ConfigurationFileError::IO(said) => said@,
            ConfigurationFileError::DataFolder(said) => said@,
            ConfigurationFileError::Serialize(said) => said@,
            ConfigurationFileError::Deserialize(said) => said@,
            ConfigurationFileError::VarError(said) => said@,
        }
    }

    /// What the error says.
    pub fn message(&self) -> (text: String)
        ensures
            text@ == self.message_text(),
    {
        match self {
            ConfigurationFileError::UserInput(message) => line_of(message.as_str()),
            ConfigurationFileError::Other(message) => line_of(message.as_str()),
            ConfigurationFileError::UserCancel => line_of(
                "User cancelled creating general configuration file",
            ),
            ConfigurationFileError::Dialog(said) => said.clone(),
            ConfigurationFileError::IO(said) => said.clone(),
            ConfigurationFileError::DataFolder(said) => said.clone(),
            ConfigurationFileError::Serialize(said) => said.clone(),
            ConfigurationFileError::Deserialize(said) => said.clone(),
            ConfigurationFileError::VarError(said) => said.clone(),
        }
    }
}

impl SpeedrunSettingsFileError {
    /// What the error says.
    pub open spec fn message_text(self) -> Seq<char> {
        match self {
            SpeedrunSettingsFileError::UserInput(message) => line(message@),
            SpeedrunSettingsFileError::Other(message) => line(message@),
            SpeedrunSettingsFileError::UserCancel => line(
                "User cancelled action while editing speedrun settings file"@,
            ),
            SpeedrunSettingsFileError::OSStringConversion(message) => line(message@),
            SpeedrunSettingsFileError::VarError(said) => said@,
            SpeedrunSettingsFileError::Dialog(said) => said@,
            SpeedrunSettingsFileError::Serialize(said) => said@,
            SpeedrunSettingsFileError::Deserialize(said) => said@,
            SpeedrunSettingsFileError::IO(said) => said@,
            SpeedrunSettingsFileError::Missing(name) => line(
                "Missing settings file with name: \""@ + name@ + "\""@,
            ),
        }
    }

    /// What the error says.
    pub fn message(&self) -> (text: String)
        ensures
            text@ == self.message_text(),
    {
        match self {
            SpeedrunSettingsFileError::UserInput(message) => line_of(message.as_str()),
            SpeedrunSettingsFileError::Other(message) => line_of(message.as_str()),
            SpeedrunSettingsFileError::UserCancel => line_of(
                "User cancelled action while editing speedrun settings file",
            ),
            SpeedrunSettingsFileError::OSStringConversion(message) => line_of(message.as_str()),
            SpeedrunSettingsFileError::VarError(said) => said.clone(),
            SpeedrunSettingsFileError::Dialog(said) => said.clone(),
            SpeedrunSettingsFileError::Serialize(said) => said.clone(),
            SpeedrunSettingsFileError::Deserialize(said) => said.clone(),
            SpeedrunSettingsFileError::IO(said) => said.clone(),
            SpeedrunSettingsFileError::Missing(name) => {
                let mut text = String::from_str("Missing settings file with name: \"");
                text.append(name.as_str());
                text.append("\"");
                text.append("\n");
                text
            },
        }
    }
}

impl RunFileError {
    /// What the error says.
    pub open spec fn message_text(self) -> Seq<char> {
        match self {
            RunFileError::UserInput(message) => line(message@),
            RunFileError::Other(message) => line(message@),
            RunFileError::UserCancel => line("User cancelled his action while editting run file"@),
            RunFileError::Save(said) => said@,
            RunFileError::Parse(said) => said@,
            RunFileError::IO(said) => said@,
            RunFileError::VarError(said) => said@,
            RunFileError::Dialog(said) => said@,
        }
    }

    /// What the error says.
    pub fn message(&self) -> (text: String)
        ensures
            text@ == self.message_text(),
    {
        match self {
            RunFileError::UserInput(message) => line_of(message.as_str()),
            RunFileError::Other(message) => line_of(message.as_str()),
            RunFileError::UserCancel => line_of("User cancelled his action while editting run file"),
            RunFileError::Save(said) => said.clone(),
            RunFileError::Parse(said) => said.clone(),
            RunFileError::IO(said) => said.clone(),
            RunFileError::VarError(said) => said.clone(),
            RunFileError::Dialog(said) => said.clone(),
        }
    }
}

impl From<FileError> for RunFileError {
    fn from(e: FileError) -> (error: RunFileError) {
        match e {
            FileError::UserInput(message) => RunFileError::UserInput(message),
            FileError::UserCancel => RunFileError::UserCancel,
            FileError::VarError(said) => RunFileError::VarError(said),
            FileError::Dialog(said) => RunFileError::Dialog(said),
            FileError::IO(said) => RunFileError::IO(said),
            FileError::Other(message) => RunFileError::Other(message),
        }
    }
}

impl vstd::std_specs::convert::FromSpecImpl<FileError> for RunFileError {
    open spec fn obeys_from_spec() -> bool {
        true
    }

    open spec fn from_spec(e: FileError) -> RunFileError {
        match e {
            FileError::UserInput(message) => RunFileError::UserInput(message),
            FileError::UserCancel => RunFileError::UserCancel,
            FileError::VarError(said) => RunFileError::VarError(said),
            FileError::Dialog(said) => RunFileError::Dialog(said),
            FileError::IO(said) => RunFileError::IO(said),
            FileError::Other(message) => RunFileError::Other(message),
        }
    }
}

impl From<FileError> for ConfigurationFileError {
    fn from(e: FileError) -> (error: ConfigurationFileError) {
        match e {
            FileError::UserInput(message) => ConfigurationFileError::UserInput(message),
            FileError::UserCancel => ConfigurationFileError::UserCancel,
            FileError::Dialog(said) => ConfigurationFileError::Dialog(said),
            FileError::IO(said) => ConfigurationFileError::IO(said),
            FileError::VarError(said) => ConfigurationFileError::VarError(said),
            FileError::Other(message) => ConfigurationFileError::Other(message),
        }
    }
}

impl vstd::std_specs::convert::FromSpecImpl<FileError> for ConfigurationFileError {
    open spec fn obeys_from_spec() -> bool {
        true
    }

    open spec fn from_spec(e: FileError) -> ConfigurationFileError {
        match e {
            FileError::UserInput(message) => ConfigurationFileError::UserInput(message),
            FileError::UserCancel => ConfigurationFileError::UserCancel,
            FileError::Dialog(said) => ConfigurationFileError::Dialog(said),
            FileError::IO(said) => ConfigurationFileError::IO(said),
            FileError::VarError(said) => ConfigurationFileError::VarError(said),
            FileError::Other(message) => ConfigurationFileError::Other(message),
        }
    }
}

impl From<FileError> for SpeedrunSettingsFileError {
    fn from(e: FileError) -> (error: SpeedrunSettingsFileError) {
        match e {
            FileError::Dialog(said) => SpeedrunSettingsFileError::Dialog(said),
            FileError::UserInput(message) => SpeedrunSettingsFileError::UserInput(message),
            FileError::UserCancel => SpeedrunSettingsFileError::UserCancel,
            FileError::IO(said) => SpeedrunSettingsFileError::IO(said),
            FileError::VarError(said) => SpeedrunSettingsFileError::VarError(said),
            FileError::Other(message) => SpeedrunSettingsFileError::Other(message),
        }
    }
}

impl vstd::std_specs::convert::FromSpecImpl<FileError> for SpeedrunSettingsFileError {
    open spec fn obeys_from_spec() -> bool {
        true
    }

    open spec fn from_spec(e: FileError) -> SpeedrunSettingsFileError {
        match e {
            FileError::Dialog(said) => SpeedrunSettingsFileError::Dialog(said),
            FileError::UserInput(message) => SpeedrunSettingsFileError::UserInput(message),
            FileError::UserCancel => SpeedrunSettingsFileError::UserCancel,
            FileError::IO(said) => SpeedrunSettingsFileError::IO(said),
            FileError::VarError(said) => SpeedrunSettingsFileError::VarError(said),
            FileError::Other(message) => SpeedrunSettingsFileError::Other(message),
        }
    }
}

} // verus!
