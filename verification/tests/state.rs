use livesplit_one::config::{Config, ConfigPath, Log};
use livesplit_one::hotkeys::HotkeyConfig;
use livesplit_one::next::Next;
use livesplit_one::state::State;

type TestState = State<u8, char>;

fn path() -> ConfigPath<String> {
    ConfigPath::new(Some("folder".to_string()))
}

fn with_system() -> TestState {
    State::new(Config::default(), Some(7), &path()).0
}

fn without_system() -> TestState {
    State::new(Config::default(), None, &path()).0
}

fn hotkeys(split: &str) -> HotkeyConfig {
    let mut hotkeys = HotkeyConfig::default();
    hotkeys.split = Some(split.to_string());
    hotkeys
}

#[test]
fn state_starts_without_a_window() {
    let path = path();
    let (state, setup) = TestState::new(Config::default(), Some(7), &path);
    assert_eq!(state.hotkey_system, Some(7));
    assert_eq!(state.window, None);
    assert!(matches!(setup, Next::Return(Some(()))));
}

#[test]
fn state_begins_to_set_up_the_log() {
    let path = path();
    let log = Log { enable: true, level: None, clear: false };
    let (_, setup) = TestState::new(Config { log, ..Config::default() }, None, &path);
    assert!(matches!(setup, Next::Perform(step) if step.folder == "folder"));
}

#[test]
fn default_hotkeys_are_on_the_number_pad() {
    let hotkeys = HotkeyConfig::default();
    assert_eq!(hotkeys.split.as_deref(), Some("Numpad1"));
    assert_eq!(hotkeys.reset.as_deref(), Some("Numpad3"));
    assert_eq!(hotkeys.undo.as_deref(), Some("Numpad8"));
    assert_eq!(hotkeys.skip.as_deref(), Some("Numpad2"));
    assert_eq!(hotkeys.pause.as_deref(), Some("Numpad5"));
    assert_eq!(hotkeys.undo_all_pauses, None);
    assert_eq!(hotkeys.previous_comparison.as_deref(), Some("Numpad4"));
    assert_eq!(hotkeys.next_comparison.as_deref(), Some("Numpad6"));
    assert_eq!(hotkeys.toggle_timing_method, None);
}

#[test]
fn hotkeys_are_applied_then_stored() {
    let mut state = with_system();
    let store = match state.set_hotkey_config(hotkeys("KeyA")) {
        Next::Perform(apply) => {
            assert_eq!(*apply.system, 7);
            assert_eq!(apply.hotkeys.split.as_deref(), Some("KeyA"));
            apply.applied(true)
        }
        Next::Return(_) => panic!("there is a hotkey system"),
    };
    let path = path();
    let (answer, save) = state.store_hotkeys(store, &path);
    assert!(answer);
    assert!(matches!(save, Next::Perform(create) if create.stored.hotkeys.split.as_deref() == Some("KeyA")));
    assert_eq!(state.config.hotkeys.split.as_deref(), Some("KeyA"));
    assert_eq!(state.config.hotkeys.undo.as_deref(), Some("Numpad8"));
    assert_eq!(state.hotkey_system, Some(7));
}

#[test]
fn hotkeys_that_are_refused_are_stored_too() {
    let mut state = with_system();
    let store = match state.set_hotkey_config(hotkeys("KeyA")) {
        Next::Perform(apply) => apply.applied(false),
        Next::Return(_) => panic!("there is a hotkey system"),
    };
    let (answer, _) = state.store_hotkeys(store, &path());
    assert!(!answer);
    assert_eq!(state.config.hotkeys.split.as_deref(), Some("KeyA"));
}

#[test]
fn hotkeys_are_stored_without_a_system_too() {
    let mut state = without_system();
    let store = match state.set_hotkey_config(hotkeys("KeyA")) {
        Next::Perform(_) => panic!("there is no hotkey system"),
        Next::Return(store) => store,
    };
    let (answer, _) = state.store_hotkeys(store, &path());
    assert!(!answer);
    assert_eq!(state.config.hotkeys.split.as_deref(), Some("KeyA"));
}

#[test]
fn last_hotkeys_count() {
    let mut state = without_system();
    for key in ["KeyA", "KeyB"] {
        if let Next::Return(store) = state.set_hotkey_config(hotkeys(key)) {
            state.store_hotkeys(store, &path());
        }
    }
    assert_eq!(state.config.hotkeys.split.as_deref(), Some("KeyB"));
}

#[test]
fn hotkeys_are_switched_on_and_off() {
    let state = with_system();
    for active in [true, false] {
        match state.set_hotkey_activation(active) {
            Next::Perform(step) => {
                assert_eq!(*step.system, 7);
                assert_eq!(step.activate, active);
                assert!(step.switched(true));
            }
            Next::Return(_) => panic!("there is a hotkey system"),
        }
    }
    match state.set_hotkey_activation(true) {
        Next::Perform(step) => assert!(!step.switched(false)),
        Next::Return(_) => panic!("there is a hotkey system"),
    }
}

#[test]
fn hotkeys_cannot_be_switched_without_a_system() {
    assert!(matches!(without_system().set_hotkey_activation(true), Next::Return(false)));
    assert!(matches!(without_system().set_hotkey_activation(false), Next::Return(false)));
}

#[test]
fn hotkeys_are_read_from_the_system() {
    let state = with_system();
    match state.get_hotkey_config() {
        Next::Perform(step) => {
            assert_eq!(*step.system, 7);
            assert_eq!(step.read(hotkeys("KeyA")).split.as_deref(), Some("KeyA"));
        }
        Next::Return(_) => panic!("there is a hotkey system"),
    }
}

#[test]
fn hotkeys_without_a_system_are_the_default_ones() {
    let mut state = without_system();
    state.config.hotkeys = hotkeys("KeyA");
    match state.get_hotkey_config() {
        Next::Perform(_) => panic!("there is no hotkey system"),
        Next::Return(hotkeys) => assert_eq!(hotkeys.split.as_deref(), Some("Numpad1")),
    }
}

#[test]
fn keys_are_resolved_by_the_system() {
    let state = with_system();
    for (text, name) in [("KeyY", "KeyY"), ("Y", "KeyY"), ("7", "Digit7"), ("OSLeft", "MetaLeft")] {
        match state.resolve_hotkey(text.to_string()) {
            Next::Perform(step) => {
                assert_eq!(*step.system, 7);
                assert_eq!(step.key, name);
                assert_eq!(step.resolved("Z".to_string()), "Z");
            }
            Next::Return(_) => panic!("the text names a key"),
        }
    }
}

#[test]
fn texts_that_are_no_keys_stand_for_themselves() {
    let state = with_system();
    for text in ["", "keyy", "Ctrl + KeyA", "Numpad"] {
        match state.resolve_hotkey(text.to_string()) {
            Next::Perform(_) => panic!("the text names no key"),
            Next::Return(same) => assert_eq!(same, text),
        }
    }
}

#[test]
fn keys_without_a_system_stand_for_themselves() {
    match without_system().resolve_hotkey("Y".to_string()) {
        Next::Perform(_) => panic!("there is no hotkey system"),
        Next::Return(same) => assert_eq!(same, "Y"),
    }
}

#[test]
fn parsed_keys_are_resolved() {
    let state = with_system();
    let next = state.resolve_parsed("Y".to_string(), Some("KeyY".to_string()));
    assert!(matches!(next, Next::Perform(step) if step.key == "KeyY"));
    let next = state.resolve_parsed("?".to_string(), None);
    assert!(matches!(next, Next::Return(same) if same == "?"));
}

#[test]
fn settings_reach_the_window() {
    let mut state = with_system();
    assert!(matches!(state.settings_changed(true), Next::Return(())));
    state.window = Some('w');
    for always_on_top in [true, false] {
        match state.settings_changed(always_on_top) {
            Next::Perform(step) => {
                assert_eq!(*step.window, 'w');
                assert_eq!(step.always_on_top, always_on_top);
            }
            Next::Return(()) => panic!("there is a window"),
        }
    }
}
