use livesplit_one::config::{
    Config, ConfigPath, General, Log, Splits, StoredConfig, APPLICATION, CONFIG_FILE,
    ORGANIZATION, QUALIFIER,
};
use livesplit_one::hotkeys::HotkeyConfig;
use livesplit_one::logging::{LevelFilter, LogFolder, OpenOptions, LOG_FILE};
use livesplit_one::next::Next;
use livesplit_one::protocol::TimingMethod;

fn folder() -> ConfigPath<String> {
    ConfigPath::new(Some("/data/livesplit".to_string()))
}

fn no_folder() -> ConfigPath<String> {
    ConfigPath::new(None)
}

fn sample() -> Config {
    Config {
        splits: Splits { current: Some("run.lss".to_string()), can_save: true },
        general: General {
            timing_method: Some(TimingMethod::GameTime),
            comparison: Some("Best Segments".to_string()),
            auto_splitter: Some("splitter.wasm".to_string()),
        },
        log: Log { enable: true, level: Some(LevelFilter::Debug), clear: true },
        hotkeys: other_hotkeys(),
    }
}

fn other_hotkeys() -> HotkeyConfig {
    let mut hotkeys = HotkeyConfig::default();
    hotkeys.split = Some("Ctrl + KeyA".to_string());
    hotkeys.reset = None;
    hotkeys
}

fn perform<A, R>(next: Next<A, R>) -> A {
    match next {
        Next::Perform(step) => step,
        Next::Return(_) => panic!("the procedure is over"),
    }
}

fn result<A, R>(next: Next<A, R>) -> R {
    match next {
        Next::Perform(_) => panic!("the procedure is not over"),
        Next::Return(result) => result,
    }
}

fn text(hotkey: &Option<String>) -> Option<&str> {
    hotkey.as_deref()
}

fn log_folder(log: Log, path: &ConfigPath<String>) -> Next<LogFolder<'_, String>, Option<()>> {
    Config { log, ..Config::default() }.setup_logging(path)
}

#[test]
fn names_of_the_application_folder() {
    assert_eq!((QUALIFIER, ORGANIZATION, APPLICATION), ("org", "LiveSplit", "LiveSplit One Tauri"));
    assert_eq!(CONFIG_FILE, "config.yml");
    assert_eq!(LOG_FILE, "log.txt");
}

#[test]
fn default_config_has_nothing_set() {
    let config = Config::default();
    assert_eq!(config.splits.current, None);
    assert!(!config.splits.can_save);
    assert_eq!(config.general.timing_method, None);
    assert_eq!(config.general.comparison, None);
    assert_eq!(config.general.auto_splitter, None);
    assert_eq!(config.log, Log { enable: false, level: None, clear: false });
    assert_eq!(text(&config.hotkeys.split), Some("Numpad1"));
}

#[test]
fn config_file_lies_in_the_folder() {
    let path = folder();
    let file = path.file().unwrap();
    assert_eq!(file.folder, "/data/livesplit");
    assert_eq!(file.name, "config.yml");
    assert_eq!(path.parent().unwrap(), "/data/livesplit");
    assert!(no_folder().file().is_none());
    assert!(no_folder().parent().is_none());
}

#[test]
fn load_takes_what_was_parsed() {
    let config = Config::load(Some(sample()));
    assert_eq!(config.general.comparison.as_deref(), Some("Best Segments"));
    assert!(config.splits.can_save);
}

#[test]
fn load_falls_back_to_the_default() {
    let config = Config::load(None);
    assert_eq!(config.general.comparison, None);
    assert!(!config.log.enable);
    assert_eq!(text(&config.hotkeys.skip), Some("Numpad2"));
}

#[test]
fn parse_reads_then_decodes() {
    let path = folder();
    let read = Config::parse(&path);
    assert_eq!(read.file.as_ref().unwrap().name, "config.yml");
    let decode = perform(read.read(Some(vec![1, 2, 3])));
    assert_eq!(decode.contents, vec![1, 2, 3]);
    let config = decode.decoded(Some(sample().stored())).unwrap();
    assert_eq!(config.splits.current.as_deref(), Some("run.lss"));
    assert!(!config.splits.can_save);
}

#[test]
fn parse_fails_without_contents() {
    let path = no_folder();
    let read = Config::parse(&path);
    assert!(read.file.is_none());
    assert!(result(read.read(None)).is_none());
}

#[test]
fn parse_fails_on_contents_that_are_no_config() {
    let path = folder();
    let decode = perform(Config::parse(&path).read(Some(vec![])));
    assert!(decode.decoded(None).is_none());
}

#[test]
fn stored_config_comes_back_but_for_can_save() {
    let stored: StoredConfig = sample().stored();
    let config = stored.restored();
    let original = sample();
    assert_eq!(config.splits.current, original.splits.current);
    assert!(original.splits.can_save && !config.splits.can_save);
    assert_eq!(config.general.timing_method, original.general.timing_method);
    assert_eq!(config.general.comparison, original.general.comparison);
    assert_eq!(config.general.auto_splitter, original.general.auto_splitter);
    assert_eq!(config.log, original.log);
    assert_eq!(text(&config.hotkeys.split), Some("Ctrl + KeyA"));
    assert_eq!(config.hotkeys.reset, None);
    assert_eq!(text(&config.hotkeys.undo), Some("Numpad8"));
}

#[test]
fn save_writes_the_text_to_the_config_file() {
    let path = folder();
    let create = perform(sample().save_config(&path));
    assert_eq!(create.folder, "/data/livesplit");
    let encode = perform(create.created(true));
    assert_eq!(encode.stored.current.as_deref(), Some("run.lss"));
    assert_eq!(text(&encode.stored.hotkeys.split), Some("Ctrl + KeyA"));
    let write = perform(encode.encoded(Some("splits:\n".to_string())));
    assert_eq!(write.file.folder, "/data/livesplit");
    assert_eq!(write.file.name, "config.yml");
    assert_eq!(write.text, "splits:\n");
    assert_eq!(write.written(true), Some(()));
}

#[test]
fn save_fails_where_a_step_fails() {
    let path = folder();
    let config = sample();
    assert_eq!(result(config.save_config(&no_folder())), None);
    assert_eq!(result(perform(config.save_config(&path)).created(false)), None);
    let encode = perform(perform(config.save_config(&path)).created(true));
    assert_eq!(result(encode.encoded(None)), None);
    let encode = perform(perform(config.save_config(&path)).created(true));
    let write = perform(encode.encoded(Some(String::new())));
    assert_eq!(write.written(false), None);
}

#[test]
fn set_hotkeys_changes_and_saves_them() {
    let path = folder();
    let mut config = Config::default();
    let create = perform(config.set_hotkeys(other_hotkeys(), &path));
    assert_eq!(text(&config.hotkeys.split), Some("Ctrl + KeyA"));
    assert_eq!(text(&create.stored.hotkeys.split), Some("Ctrl + KeyA"));
    assert!(!config.log.enable);
}

#[test]
fn set_hotkeys_keeps_them_where_saving_fails() {
    let mut config = Config::default();
    assert_eq!(result(config.set_hotkeys(other_hotkeys(), &no_folder())), None);
    assert_eq!(text(&config.hotkeys.split), Some("Ctrl + KeyA"));
    assert_eq!(config.hotkeys.reset, None);
}

#[test]
fn configure_hotkeys_hands_over_the_hotkeys() {
    let config = sample();
    let step = config.configure_hotkeys();
    assert_eq!(text(&step.hotkeys.split), Some("Ctrl + KeyA"));
    assert_eq!(step.created(Ok::<u8, ()>(7)), Some(7));
    assert_eq!(config.configure_hotkeys().created(Err::<u8, &str>("taken")), None);
}

#[test]
fn logging_that_is_off_takes_no_work() {
    let log = Log { enable: false, level: Some(LevelFilter::Trace), clear: true };
    assert_eq!(result(log_folder(log, &folder())), Some(()));
    assert_eq!(result(log_folder(log, &no_folder())), Some(()));
}

#[test]
fn logging_goes_through_its_steps() {
    let path = folder();
    let log = Log { enable: true, level: Some(LevelFilter::Info), clear: false };
    let step = perform(log_folder(log, &path));
    assert_eq!(step.folder, "/data/livesplit");
    let open = perform(step.created(true));
    assert_eq!(open.file.folder, "/data/livesplit");
    assert_eq!(open.file.name, "log.txt");
    assert_eq!(
        open.options,
        OpenOptions { create: true, write: true, append: true, truncate: false }
    );
    let install = perform(open.opened(true));
    assert_eq!(install.level, LevelFilter::Info);
    assert_eq!(install.installed(true), Some(()));
}

#[test]
fn cleared_log_is_truncated_and_warns_by_default() {
    let path = folder();
    let log = Log { enable: true, level: None, clear: true };
    let open = perform(perform(log_folder(log, &path)).created(true));
    assert_eq!(
        open.options,
        OpenOptions { create: true, write: true, append: false, truncate: true }
    );
    assert_eq!(perform(open.opened(true)).level, LevelFilter::Warn);
}

#[test]
fn logging_fails_where_a_step_fails() {
    let path = folder();
    let log = Log { enable: true, level: None, clear: false };
    assert_eq!(result(log_folder(log, &no_folder())), None);
    assert_eq!(result(perform(log_folder(log, &path)).created(false)), None);
    let open = perform(perform(log_folder(log, &path)).created(true));
    assert_eq!(result(open.opened(false)), None);
    let open = perform(perform(log_folder(log, &path)).created(true));
    assert_eq!(perform(open.opened(true)).installed(false), None);
}
