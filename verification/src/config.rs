//! The configuration of the application, and how it is loaded, saved and put to use.

use vstd::prelude::*;

use crate::hotkeys::{default_hotkeys, HotkeyConfig};
use crate::logging::{log_options, InstallLog, LevelFilter, LogFolder, OpenLog, LOG_FILE};
use crate::next::Next;
use crate::protocol::TimingMethod;

verus! {

/// The first of the three names by which a desktop finds the folder of the application.
pub const QUALIFIER: &'static str = "org";

/// The second of these names.
pub const ORGANIZATION: &'static str = "LiveSplit";

/// The third of these names.
pub const APPLICATION: &'static str = "LiveSplit One Tauri";

/// The name of the configuration file in the folder of the application.
pub const CONFIG_FILE: &'static str = "config.yml";

/// The splits that are open.
#[derive(Debug)]
pub struct Splits {
    /// The path of the splits file.
    pub current: Option<String>,
    /// Whether the splits can be saved there. The configuration file does not hold this.
    pub can_save: bool,
}

/// The general settings.
#[derive(Debug)]
pub struct General {
    pub timing_method: Option<TimingMethod>,
    pub comparison: Option<String>,
    /// The path of the auto splitter.
    pub auto_splitter: Option<String>,
}

/// The settings of the log.
#[derive(Clone, Copy, Debug, PartialEq, Eq, Structural)]
pub struct Log {
    pub enable: bool,
    pub level: Option<LevelFilter>,
    /// Whether the log starts empty with each run of the application.
    pub clear: bool,
}

/// The configuration of the application.
#[derive(Debug)]
pub struct Config {
    pub splits: Splits,
    pub general: General,
    pub log: Log,
    pub hotkeys: HotkeyConfig,
}

/// What the configuration file holds of a [`Config`].
#[derive(Debug)]
pub struct StoredConfig {
    /// The path of the splits file.
    pub current: Option<String>,
    pub general: General,
    pub log: Log,
    pub hotkeys: HotkeyConfig,
}

/// The path of the configuration file: [`CONFIG_FILE`] in the folder of the application, or
/// the empty path on a system that has no such folder.
#[derive(Debug)]
pub struct ConfigPath<P> {
    pub folder: Option<P>,
}

/// The file of this name in this folder.
#[derive(Debug)]
pub struct FileIn<'a, P> {
    pub folder: &'a P,
    pub name: &'static str,
}

/// The first step of saving: create the folder, and all the folders that it lies in.
#[derive(Debug)]
pub struct CreateFolder<'a, P> {
    pub folder: &'a P,
    pub stored: StoredConfig,
}

/// The second step of saving: write the configuration as YAML.
#[derive(Debug)]
pub struct Encode<'a, P> {
    pub folder: &'a P,
    pub stored: StoredConfig,
}

/// The last step of saving: make this text the contents of the file.
#[derive(Debug)]
pub struct WriteFile<'a, P> {
    pub file: FileIn<'a, P>,
    pub text: String,
}

/// The only step of setting up the hotkeys: create a hotkey system with these hotkeys.
#[derive(Debug)]
pub struct CreateHotkeySystem<'a> {
    pub hotkeys: &'a HotkeyConfig,
}

/// The first step of loading: read the file. `None` stands for the empty path.
#[derive(Debug)]
pub struct ReadFile<'a, P> {
    pub file: Option<FileIn<'a, P>>,
}

/// The last step of loading: read these bytes as YAML.
#[derive(Debug)]
pub struct Decode {
    pub contents: Vec<u8>,
}

impl Default for Splits {
    fn default() -> (splits: Self)
        ensures
            splits == (Splits { current: None, can_save: false }),
    {
        Splits { current: None, can_save: false }
    }
}

impl Default for General {
    fn default() -> (general: Self)
        ensures
            general == (General { timing_method: None, comparison: None, auto_splitter: None }),
    {
        General { timing_method: None, comparison: None, auto_splitter: None }
    }
}

impl Clone for General {
    fn clone(&self) -> (copy: Self)
        ensures
            copy == *self,
    {
        General {
            timing_method: self.timing_method,
            comparison: self.comparison.clone(),
            auto_splitter: self.auto_splitter.clone(),
        }
    }
}

impl Default for Log {
    fn default() -> (log: Self)
        ensures
            log == (Log { enable: false, level: None, clear: false }),
    {
        Log { enable: false, level: None, clear: false }
    }
}

impl Default for Config {
    fn default() -> (config: Self)
        ensures
            config.is_default(),
    {
        Config {
            splits: Splits::default(),
            general: General::default(),
            log: Log::default(),
            hotkeys: HotkeyConfig::default(),
        }
    }
}

impl<P> ConfigPath<P> {
    /// The path of the configuration file where the application has this folder.
    pub fn new(folder: Option<P>) -> (path: Self)
        ensures
            path.folder == folder,
    {
        ConfigPath { folder }
    }

    /// The file that the path leads to: none for the empty path.
    pub open spec fn spec_file(&self) -> Option<FileIn<'_, P>> {
        match self.folder {
            Some(folder) => Some(FileIn { folder: &folder, name: CONFIG_FILE }),
            None => None,
        }
    }

    /// The file that the path leads to: none for the empty path.
    pub fn file(&self) -> (file: Option<FileIn<'_, P>>)
        ensures
            file == self.spec_file(),
    {
        match &self.folder {
            Some(folder) => Some(FileIn { folder, name: CONFIG_FILE }),
            None => None,
        }
    }

    /// The folder that the file lies in: none for the empty path.
    pub fn parent(&self) -> (folder: Option<&P>)
        ensures
            folder == (match self.folder {
                Some(folder) => Some(&folder),
                None => None,
            }),
    {
        self.folder.as_ref()
    }
}

impl StoredConfig {
    /// The configuration that comes out of a file with this content.
    pub open spec fn spec_restored(self) -> Config {
        Config {
            splits: Splits { current: self.current, can_save: false },
            general: self.general,
            log: self.log,
            hotkeys: self.hotkeys,
        }
    }

    /// The configuration that comes out of a file with this content.
    pub fn restored(self) -> (config: Config)
        ensures
            config == self.spec_restored(),
    {
        Config {
            splits: Splits { current: self.current, can_save: false },
            general: self.general,
            log: self.log,
            hotkeys: self.hotkeys,
        }
    }
}

impl Config {
    /// Nothing is set, and the hotkeys are the default ones.
    pub open spec fn is_default(self) -> bool {
        &&& self.splits == (Splits { current: None, can_save: false })
        &&& self.general == (General { timing_method: None, comparison: None, auto_splitter: None })
        &&& self.log == (Log { enable: false, level: None, clear: false })
        &&& self.hotkeys@ == default_hotkeys()
    }

    /// This configuration with other hotkeys.
    pub open spec fn with_hotkeys(self, hotkeys: HotkeyConfig) -> Config {
        Config { hotkeys, ..self }
    }

    /// What the configuration file holds of this configuration.
    pub open spec fn spec_stored(self) -> StoredConfig {
        StoredConfig {
            current: self.splits.current,
            general: self.general,
            log: self.log,
            hotkeys: self.hotkeys,
        }
    }

    /// What the configuration file holds of this configuration.
    pub fn stored(&self) -> (stored: StoredConfig)
        ensures
            stored == self.spec_stored(),
    {
        StoredConfig {
            current: self.splits.current.clone(),
            general: self.general.clone(),
            log: self.log,
            hotkeys: self.hotkeys.clone(),
        }
    }

    /// The configuration to run with: what was parsed, or else the default one.
    pub fn load(parsed: Option<Config>) -> (config: Config)
        ensures
            match parsed {
                Some(parsed) => config == parsed,
                None => config.is_default(),
            },
    {
        match parsed {
            Some(parsed) => parsed,
            None => Config::default(),
        }
    }

    /// Parses the configuration file, beginning with reading it.
    pub fn parse<P>(path: &ConfigPath<P>) -> (read: ReadFile<'_, P>)
        ensures
            read.file == path.spec_file(),
    {
        ReadFile { file: path.file() }
    }

    /// How saving begins.
    pub open spec fn spec_save_config<P>(self, path: &ConfigPath<P>) -> Next<
        CreateFolder<'_, P>,
        Option<()>,
    > {
        match path.folder {
            Some(folder) => Next::Perform(
                CreateFolder { folder: &folder, stored: self.spec_stored() },
            ),
            None => Next::Return(None),
        }
    }

    /// Saves the configuration as it is now. The result is `None` where anything fails.
    pub fn save_config<'a, P>(&self, path: &'a ConfigPath<P>) -> (next: Next<
        CreateFolder<'a, P>,
        Option<()>,
    >)
        ensures
            next == self.spec_save_config(path),
    {
        match path.parent() {
            Some(folder) => Next::Perform(CreateFolder { folder, stored: self.stored() }),
            None => Next::Return(None),
        }
    }

    /// Sets up a hotkey system with the configured hotkeys.
    pub fn configure_hotkeys(&self) -> (step: CreateHotkeySystem<'_>)
        ensures
            *step.hotkeys == self.hotkeys,
    {
        CreateHotkeySystem { hotkeys: &self.hotkeys }
    }

    /// Replaces the hotkeys, and saves the configuration with the new ones. They stay in
    /// effect where saving fails.
    pub fn set_hotkeys<'a, P>(&mut self, hotkeys: HotkeyConfig, path: &'a ConfigPath<P>) -> (next:
        Next<CreateFolder<'a, P>, Option<()>>)
        ensures
            *final(self) == old(self).with_hotkeys(hotkeys),
            next == final(self).spec_save_config(path),
    {
        self.hotkeys = hotkeys;
        self.save_config(path)
    }

    /// The level of the log: warnings, where nothing else is set.
    pub open spec fn log_level(self) -> LevelFilter {
        match self.log.level {
            Some(level) => level,
            None => LevelFilter::Warn,
        }
    }

    /// How setting up the log begins.
    pub open spec fn spec_setup_logging<P>(self, path: &ConfigPath<P>) -> Next<
        LogFolder<'_, P>,
        Option<()>,
    > {
        if !self.log.enable {
            Next::Return(Some(()))
        } else {
            match path.folder {
                Some(folder) => Next::Perform(
                    LogFolder {
                        folder: &folder,
                        options: log_options(self.log.clear),
                        level: self.log_level(),
                    },
                ),
                None => Next::Return(None),
            }
        }
    }

    /// Sets up the log. The result is `None` where anything fails; a log that is not enabled
    /// takes no work and cannot fail.
    pub fn setup_logging<'a, P>(&self, path: &'a ConfigPath<P>) -> (next: Next<
        LogFolder<'a, P>,
        Option<()>,
    >)
        ensures
            next == self.spec_setup_logging(path),
    {
        if self.log.enable {
            let level = match self.log.level {
                Some(level) => level,
                None => LevelFilter::Warn,
            };
            match path.parent() {
                Some(folder) => Next::Perform(LogFolder::new(folder, self.log.clear, level)),
                None => Next::Return(None),
            }
        } else {
            Next::Return(Some(()))
        }
    }
}

impl<'a> CreateHotkeySystem<'a> {
    /// Ends with the hotkey system, or with none where it could not be created.
    pub fn created<H, E>(self, system: Result<H, E>) -> (created: Option<H>)
        ensures
            created == (match system {
                Ok(system) => Some(system),
                Err(_) => None,
            }),
    {
        match system {
            Ok(system) => Some(system),
            Err(_) => None,
        }
    }
}

impl<'a, P> CreateFolder<'a, P> {
    /// How saving goes on.
    pub open spec fn spec_created(self, created: bool) -> Next<Encode<'a, P>, Option<()>> {
        if created {
            Next::Perform(Encode { folder: self.folder, stored: self.stored })
        } else {
            Next::Return(None)
        }
    }

    /// Goes on once the folder is there, or could not be created.
    pub fn created(self, created: bool) -> (next: Next<Encode<'a, P>, Option<()>>)
        ensures
            next == self.spec_created(created),
    {
        if created {
            Next::Perform(Encode { folder: self.folder, stored: self.stored })
        } else {
            Next::Return(None)
        }
    }
}

impl<'a, P> Encode<'a, P> {
    /// How saving goes on.
    pub open spec fn spec_encoded(self, text: Option<String>) -> Next<
        WriteFile<'a, P>,
        Option<()>,
    > {
        match text {
            Some(text) => Next::Perform(
                WriteFile { file: FileIn { folder: self.folder, name: CONFIG_FILE }, text },
            ),
            None => Next::Return(None),
        }
    }

    /// Goes on with the YAML text, or with none where the configuration has no such text.
    pub fn encoded(self, text: Option<String>) -> (next: Next<WriteFile<'a, P>, Option<()>>)
        ensures
            next == self.spec_encoded(text),
    {
        match text {
            Some(text) => Next::Perform(
                WriteFile { file: FileIn { folder: self.folder, name: CONFIG_FILE }, text },
            ),
            None => Next::Return(None),
        }
    }
}

impl<'a, P> WriteFile<'a, P> {
    /// What came of saving.
    pub open spec fn spec_written(self, written: bool) -> Option<()> {
        if written {
            Some(())
        } else {
            None
        }
    }

    /// Ends once the file is written, or could not be.
    pub fn written(self, written: bool) -> (saved: Option<()>)
        ensures
            saved == self.spec_written(written),
    {
        if written {
            Some(())
        } else {
            None
        }
    }
}

impl<'a, P> ReadFile<'a, P> {
    /// How parsing goes on.
    pub open spec fn spec_read(self, contents: Option<Vec<u8>>) -> Next<Decode, Option<Config>> {
        match contents {
            Some(contents) => Next::Perform(Decode { contents }),
            None => Next::Return(None),
        }
    }

    /// Goes on with the contents of the file, or with none where it could not be read.
    pub fn read(self, contents: Option<Vec<u8>>) -> (next: Next<Decode, Option<Config>>)
        ensures
            next == self.spec_read(contents),
    {
        match contents {
            Some(contents) => Next::Perform(Decode { contents }),
            None => Next::Return(None),
        }
    }
}

impl Decode {
    /// What came of parsing.
    pub open spec fn spec_decoded(self, stored: Option<StoredConfig>) -> Option<Config> {
        match stored {
            Some(stored) => Some(stored.spec_restored()),
            None => None,
        }
    }

    /// Ends with what the contents say, or with nothing where they are no configuration.
    pub fn decoded(self, stored: Option<StoredConfig>) -> (config: Option<Config>)
        ensures
            config == self.spec_decoded(stored),
    {
        match stored {
            Some(stored) => Some(stored.restored()),
            None => None,
        }
    }
}

/// What comes of saving, by what comes of its steps.
pub open spec fn save_outcome<P>(
    config: Config,
    path: &ConfigPath<P>,
    created: bool,
    text: Option<String>,
    written: bool,
) -> Option<()> {
    match config.spec_save_config(path) {
        Next::Return(saved) => saved,
        Next::Perform(create) => match create.spec_created(created) {
            Next::Return(saved) => saved,
            Next::Perform(encode) => match encode.spec_encoded(text) {
                Next::Return(saved) => saved,
                Next::Perform(write) => write.spec_written(written),
            },
        },
    }
}

/// Saving succeeds exactly where there is a folder and each step succeeds.
pub proof fn lemma_save_succeeds<P>(
    config: Config,
    path: &ConfigPath<P>,
    created: bool,
    text: Option<String>,
    written: bool,
)
    ensures
        save_outcome(config, path, created, text, written) is Some <==> path.folder is Some
            && created && text is Some && written,
{
}

/// What is encoded is the configuration that was to be saved, and its text goes to the file
/// that loading reads, which lies in the folder that was created before.
pub proof fn lemma_save_writes_what_load_reads<P>(config: Config, path: &ConfigPath<P>, text: String)
    requires
        path.folder is Some,
    ensures
        config.spec_save_config(path) matches Next::Perform(create) && *create.folder
            == path.folder->0 && (create.spec_created(true) matches Next::Perform(encode)
            && encode.stored == config.spec_stored() && (encode.spec_encoded(
            Some(text),
        ) matches Next::Perform(write) && Some(write.file) == path.spec_file() && write.file.folder
            == create.folder && write.text == text)),
{
}

/// A configuration that went through the file is the one that was saved, but for whether the
/// splits can be saved: the file does not hold that, and it is off again.
pub proof fn lemma_restored_is_stored(config: Config)
    ensures
        config.spec_stored().spec_restored() == (Config {
            splits: Splits { current: config.splits.current, can_save: false },
            ..config
        }),
        config.spec_stored().spec_restored().spec_stored() == config.spec_stored(),
{
}

/// What comes of parsing, by what comes of its steps.
pub open spec fn parse_outcome<P>(
    read: ReadFile<'_, P>,
    contents: Option<Vec<u8>>,
    stored: Option<StoredConfig>,
) -> Option<Config> {
    match read.spec_read(contents) {
        Next::Return(config) => config,
        Next::Perform(decode) => decode.spec_decoded(stored),
    }
}

/// Parsing succeeds exactly where the file can be read and holds a configuration, and then
/// gives that configuration. The bytes to decode are those that were read.
pub proof fn lemma_parse_succeeds<P>(
    read: ReadFile<'_, P>,
    contents: Option<Vec<u8>>,
    stored: Option<StoredConfig>,
)
    ensures
        parse_outcome(read, contents, stored) == (if contents is Some && stored is Some {
            Some(stored->0.spec_restored())
        } else {
            None
        }),
        contents matches Some(bytes) ==> read.spec_read(contents) == Next::<_, Option<Config>>::Perform(
            Decode { contents: bytes },
        ),
{
}

/// What comes of setting up the log, by what comes of its steps.
pub open spec fn logging_outcome<P>(
    config: Config,
    path: &ConfigPath<P>,
    created: bool,
    opened: bool,
    installed: bool,
) -> Option<()> {
    match config.spec_setup_logging(path) {
        Next::Return(done) => done,
        Next::Perform(folder) => match folder.spec_created(created) {
            Next::Return(done) => done,
            Next::Perform(open) => match open.spec_opened(opened) {
                Next::Return(done) => done,
                Next::Perform(install) => install.spec_installed(installed),
            },
        },
    }
}

/// Setting up the log succeeds exactly where the log is not enabled, or there is a folder and
/// each step succeeds.
pub proof fn lemma_logging_succeeds<P>(
    config: Config,
    path: &ConfigPath<P>,
    created: bool,
    opened: bool,
    installed: bool,
)
    ensures
        logging_outcome(config, path, created, opened, installed) is Some <==> !config.log.enable
            || (path.folder is Some && created && opened && installed),
{
}

/// A log that is set up goes to its file in the folder that was created before, next to the
/// configuration file. The file starts empty or is continued, as configured, never both, and
/// takes the records up to the configured level.
pub proof fn lemma_log_is_opened_as_configured<P>(config: Config, path: &ConfigPath<P>)
    requires
        config.log.enable,
        path.folder is Some,
    ensures
        config.spec_setup_logging(path) matches Next::Perform(folder) && *folder.folder
            == path.folder->0 && (folder.spec_created(true) matches Next::Perform(open)
            && open.file == (FileIn { folder: folder.folder, name: LOG_FILE })
            && open.options.create && open.options.write && open.options.truncate
            == config.log.clear && open.options.append == !config.log.clear && open.spec_opened(
            true,
        ) == Next::<_, Option<()>>::Perform(InstallLog { level: config.log_level() })),
{
}

/// The path leads to the file of the configuration in the folder that it was made with, and
/// that folder is the one that the file lies in. Without a folder it leads nowhere.
pub proof fn lemma_path<'a, P>(
    folder: Option<P>,
    path: ConfigPath<P>,
    file: Option<FileIn<'a, P>>,
    parent: Option<&'a P>,
    read: ReadFile<'a, P>,
)
    requires
        call_ensures(ConfigPath::<P>::new, (folder,), path),
        call_ensures(ConfigPath::<P>::file, (&path,), file),
        call_ensures(ConfigPath::<P>::parent, (&path,), parent),
        call_ensures(Config::parse::<P>, (&path,), read),
    ensures
        folder matches Some(folder) ==> (file matches Some(file) && *file.folder == folder
            && file.name@ == "config.yml"@ && parent == Some(&folder)),
        folder is None ==> file is None && parent is None,
        read.file == file,
{
}

/// A configuration that comes out of a file has, under each name, what the file holds under
/// that name. The splits cannot be saved yet.
pub proof fn lemma_restored_field_by_field(stored: StoredConfig, config: Config)
    requires
        call_ensures(StoredConfig::restored, (stored,), config),
    ensures
        config.splits.current == stored.current,
        !config.splits.can_save,
        config.general.timing_method == stored.general.timing_method,
        config.general.comparison == stored.general.comparison,
        config.general.auto_splitter == stored.general.auto_splitter,
        config.log.enable == stored.log.enable,
        config.log.level == stored.log.level,
        config.log.clear == stored.log.clear,
        config.hotkeys.split == stored.hotkeys.split,
        config.hotkeys.reset == stored.hotkeys.reset,
        config.hotkeys.undo == stored.hotkeys.undo,
        config.hotkeys.skip == stored.hotkeys.skip,
        config.hotkeys.pause == stored.hotkeys.pause,
        config.hotkeys.undo_all_pauses == stored.hotkeys.undo_all_pauses,
        config.hotkeys.previous_comparison == stored.hotkeys.previous_comparison,
        config.hotkeys.next_comparison == stored.hotkeys.next_comparison,
        config.hotkeys.toggle_timing_method == stored.hotkeys.toggle_timing_method,
{
}

/// What the file is to hold has, under each name, what the configuration has under that name.
pub proof fn lemma_stored_field_by_field(config: &Config, stored: StoredConfig)
    requires
        call_ensures(Config::stored, (config,), stored),
    ensures
        stored.current == config.splits.current,
        stored.general.timing_method == config.general.timing_method,
        stored.general.comparison == config.general.comparison,
        stored.general.auto_splitter == config.general.auto_splitter,
        stored.log.enable == config.log.enable,
        stored.log.level == config.log.level,
        stored.log.clear == config.log.clear,
        stored.hotkeys.split == config.hotkeys.split,
        stored.hotkeys.reset == config.hotkeys.reset,
        stored.hotkeys.undo == config.hotkeys.undo,
        stored.hotkeys.skip == config.hotkeys.skip,
        stored.hotkeys.pause == config.hotkeys.pause,
        stored.hotkeys.undo_all_pauses == config.hotkeys.undo_all_pauses,
        stored.hotkeys.previous_comparison == config.hotkeys.previous_comparison,
        stored.hotkeys.next_comparison == config.hotkeys.next_comparison,
        stored.hotkeys.toggle_timing_method == config.hotkeys.toggle_timing_method,
{
}

/// In a configuration that nobody has written nothing is set, the log is off, and the hotkeys
/// are the digits of the number pad.
pub proof fn lemma_default_configuration(config: Config)
    requires
        call_ensures(Config::default, (), config),
    ensures
        config.splits.current is None,
        !config.splits.can_save,
        config.general.timing_method is None,
        config.general.comparison is None,
        config.general.auto_splitter is None,
        !config.log.enable,
        config.log.level is None,
        !config.log.clear,
        config.hotkeys.split matches Some(key) && key@ == "Numpad1"@,
        config.hotkeys.reset matches Some(key) && key@ == "Numpad3"@,
        config.hotkeys.undo matches Some(key) && key@ == "Numpad8"@,
        config.hotkeys.skip matches Some(key) && key@ == "Numpad2"@,
        config.hotkeys.pause matches Some(key) && key@ == "Numpad5"@,
        config.hotkeys.previous_comparison matches Some(key) && key@ == "Numpad4"@,
        config.hotkeys.next_comparison matches Some(key) && key@ == "Numpad6"@,
        config.hotkeys.undo_all_pauses is None,
        config.hotkeys.toggle_timing_method is None,
{
}

/// The parts of a configuration that nobody has written, and a copy of the general settings.
pub proof fn lemma_parts_of_a_configuration(
    splits: Splits,
    general: General,
    log: Log,
    settings: &General,
    copy: General,
)
    requires
        call_ensures(Splits::default, (), splits),
        call_ensures(General::default, (), general),
        call_ensures(Log::default, (), log),
        call_ensures(General::clone, (settings,), copy),
    ensures
        splits.current is None && !splits.can_save,
        general.timing_method is None && general.comparison is None && general.auto_splitter
            is None,
        !log.enable && log.level is None && !log.clear,
        copy.timing_method == settings.timing_method,
        copy.comparison == settings.comparison,
        copy.auto_splitter == settings.auto_splitter,
{
}

/// Loading ends with what the file holds, field by field, where the file can be read and holds
/// a configuration. The bytes that were read are the bytes that are decoded. Otherwise it ends
/// with a configuration in which nothing is set.
pub proof fn lemma_loading<'a, P>(
    read: ReadFile<'a, P>,
    contents: Option<Vec<u8>>,
    next: Next<Decode, Option<Config>>,
    decode: Decode,
    stored: Option<StoredConfig>,
    decoded: Option<Config>,
    parsed: Option<Config>,
    config: Config,
)
    requires
        call_ensures(ReadFile::<'a, P>::read, (read, contents), next),
        call_ensures(Decode::decoded, (decode, stored), decoded),
        call_ensures(Config::load, (parsed,), config),
    ensures
        contents matches Some(bytes) ==> (next matches Next::Perform(decode) && decode.contents
            == bytes),
        contents is None ==> (next matches Next::Return(config) && config is None),
        decoded is Some <==> stored is Some,
        stored matches Some(stored) ==> decoded->0.splits.current == stored.current
            && !decoded->0.splits.can_save && decoded->0.general.timing_method
            == stored.general.timing_method && decoded->0.general.comparison
            == stored.general.comparison && decoded->0.general.auto_splitter
            == stored.general.auto_splitter && decoded->0.log == stored.log && decoded->0.hotkeys
            == stored.hotkeys,
        parsed matches Some(parsed) ==> config == parsed,
        parsed is None ==> config.splits.current is None && !config.splits.can_save
            && config.general.timing_method is None && config.general.comparison is None
            && config.general.auto_splitter is None && !config.log.enable && config.log.level
            is None && !config.log.clear,
        parsed is None ==> (config.hotkeys.undo matches Some(key) && key@ == "Numpad8"@),
        parsed is None ==> (config.hotkeys.skip matches Some(key) && key@ == "Numpad2"@),
        parsed is None ==> (config.hotkeys.split matches Some(key) && key@ == "Numpad1"@),
        parsed is None ==> (config.hotkeys.reset matches Some(key) && key@ == "Numpad3"@),
        parsed is None ==> (config.hotkeys.pause matches Some(key) && key@ == "Numpad5"@),
        parsed is None ==> (config.hotkeys.previous_comparison matches Some(key) && key@
            == "Numpad4"@),
        parsed is None ==> (config.hotkeys.next_comparison matches Some(key) && key@
            == "Numpad6"@),
        parsed is None ==> config.hotkeys.undo_all_pauses is None
            && config.hotkeys.toggle_timing_method is None,
{
}

/// Saving begins with the folder of the configuration and with what the configuration has,
/// field by field. Without a folder it fails at once.
pub proof fn lemma_saving_begins<'a, P>(
    config: &Config,
    path: &'a ConfigPath<P>,
    next: Next<CreateFolder<'a, P>, Option<()>>,
)
    requires
        call_ensures(Config::save_config::<P>, (config, path), next),
    ensures
        path.folder matches Some(folder) ==> (next matches Next::Perform(create) && *create.folder
            == folder && create.stored.current == config.splits.current
            && create.stored.general.timing_method == config.general.timing_method
            && create.stored.general.comparison == config.general.comparison
            && create.stored.general.auto_splitter == config.general.auto_splitter
            && create.stored.log == config.log && create.stored.hotkeys == config.hotkeys),
        path.folder is None ==> (next matches Next::Return(saved) && saved is None),
{
}

/// Saving goes on with the same folder and the same contents as long as each step succeeds: the
/// contents are encoded, and their text goes unchanged to the configuration file in the folder.
/// It has succeeded once that is written, and has failed once a step fails.
pub proof fn lemma_saving_goes_on<'a, P>(
    create: CreateFolder<'a, P>,
    created: bool,
    to_encode: Next<Encode<'a, P>, Option<()>>,
    encode: Encode<'a, P>,
    text: Option<String>,
    to_write: Next<WriteFile<'a, P>, Option<()>>,
    write: WriteFile<'a, P>,
    written: bool,
    saved: Option<()>,
)
    requires
        call_ensures(CreateFolder::<'a, P>::created, (create, created), to_encode),
        call_ensures(Encode::<'a, P>::encoded, (encode, text), to_write),
        call_ensures(WriteFile::<'a, P>::written, (write, written), saved),
    ensures
        created ==> (to_encode matches Next::Perform(step) && *step.folder == *create.folder
            && step.stored == create.stored),
        !created ==> (to_encode matches Next::Return(saved) && saved is None),
        text matches Some(text) ==> (to_write matches Next::Perform(step) && *step.file.folder
            == *encode.folder && step.file.name@ == "config.yml"@ && step.text == text),
        text is None ==> (to_write matches Next::Return(saved) && saved is None),
        saved is Some <==> written,
{
}

/// The hotkey system is created with the configured hotkeys, and is there where that worked.
pub proof fn lemma_hotkey_system_is_created<'a, H, E>(
    config: &'a Config,
    step: CreateHotkeySystem<'a>,
    system: Result<H, E>,
    created: Option<H>,
)
    requires
        call_ensures(Config::configure_hotkeys, (config,), step),
        call_ensures(CreateHotkeySystem::<'a>::created::<H, E>, (step, system), created),
    ensures
        *step.hotkeys == config.hotkeys,
        created is Some <==> system is Ok,
        system matches Ok(system) ==> created == Some(system),
{
}

/// Setting the hotkeys puts exactly them into the configuration, leaves all else as it is, and
/// begins to save what results.
pub proof fn lemma_set_hotkeys<'a, P>(
    config: &mut Config,
    hotkeys: HotkeyConfig,
    path: &'a ConfigPath<P>,
    next: Next<CreateFolder<'a, P>, Option<()>>,
)
    requires
        call_ensures(Config::set_hotkeys::<P>, (config, hotkeys, path), next),
    ensures
        final(config).hotkeys == hotkeys,
        final(config).splits == old(config).splits,
        final(config).general == old(config).general,
        final(config).log == old(config).log,
        path.folder matches Some(folder) ==> (next matches Next::Perform(create) && *create.folder
            == folder && create.stored.hotkeys == hotkeys && create.stored.current
            == old(config).splits.current && create.stored.general == old(config).general
            && create.stored.log == old(config).log),
        path.folder is None ==> (next matches Next::Return(saved) && saved is None),
{
}

/// A log that is not enabled is set up with nothing to do. One that is begins with the folder
/// of the configuration, and fails where there is none. Its level is the configured one, and
/// that of warnings where none is; its file is created where it is missing, written to, and
/// starts empty where that is configured, and only then.
pub proof fn lemma_logging_begins_as_configured<'a, P>(
    config: &Config,
    path: &'a ConfigPath<P>,
    next: Next<LogFolder<'a, P>, Option<()>>,
)
    requires
        call_ensures(Config::setup_logging::<P>, (config, path), next),
    ensures
        !config.log.enable ==> (next matches Next::Return(done) && done is Some),
        config.log.enable && path.folder is None ==> (next matches Next::Return(done)
            && done is None),
        config.log.enable && path.folder is Some ==> (next matches Next::Perform(step)
            && *step.folder == path.folder->0 && step.options.create && step.options.write
            && step.options.truncate == config.log.clear && step.options.append
            == !config.log.clear),
        forall|level: LevelFilter| #![auto]
            config.log.enable && path.folder is Some && config.log.level == Some(level) ==> (
            next matches Next::Perform(step) && step.level == level),
        config.log.enable && path.folder is Some && config.log.level is None ==> (
        next matches Next::Perform(step) && step.level == LevelFilter::Warn),
{
}

/// The level that a log ends up with, where each step succeeds, is the configured one, and that
/// of warnings where none is; and the file that is opened for it is the log file in the folder
/// of the configuration, opened as configured.
pub proof fn lemma_log_has_the_configured_level<'a, P>(
    config: &Config,
    path: &'a ConfigPath<P>,
    step: LogFolder<'a, P>,
    open: OpenLog<'a, P>,
    install: InstallLog,
)
    requires
        call_ensures(
            Config::setup_logging::<P>,
            (config, path),
            Next::<LogFolder<'a, P>, Option<()>>::Perform(step),
        ),
        call_ensures(
            LogFolder::<'a, P>::created,
            (step, true),
            Next::<OpenLog<'a, P>, Option<()>>::Perform(open),
        ),
        call_ensures(
            OpenLog::<'a, P>::opened,
            (open, true),
            Next::<InstallLog, Option<()>>::Perform(install),
        ),
    ensures
        config.log.enable,
        config.log.level matches Some(level) ==> install.level == level,
        config.log.level is None ==> install.level == LevelFilter::Warn,
        path.folder matches Some(folder) && *open.file.folder == folder,
        open.file.name@ == "log.txt"@,
        open.options.create && open.options.write,
        open.options.truncate == config.log.clear,
        open.options.append == !config.log.clear,
{
}

} // verus!
