//! What the application holds while it runs, and what the window can ask of it.

use vstd::prelude::*;

use crate::config::{Config, ConfigPath, CreateFolder, StoredConfig};
use crate::hotkeys::{default_hotkeys, key_code_name, parse_key_code, HotkeyConfig};
use crate::logging::LogFolder;
use crate::next::Next;

verus! {

/// What the application holds while it runs: the configuration, the hotkey system, where one
/// could be set up, and the window, once there is one.
#[derive(Debug)]
pub struct State<H, W> {
    pub config: Config,
    pub hotkey_system: Option<H>,
    pub window: Option<W>,
}

/// The first step of changing the hotkeys: apply them to the hotkey system.
#[derive(Debug)]
pub struct ApplyHotkeys<'a, H> {
    pub system: &'a H,
    pub hotkeys: HotkeyConfig,
}

/// The last part of changing the hotkeys: to be stored ([`State::store_hotkeys`]), whatever
/// came of applying them.
#[derive(Debug)]
pub struct StoreHotkeys {
    pub hotkeys: HotkeyConfig,
    /// Whether the hotkey system took them.
    pub applied: bool,
}

/// The only step of turning the hotkeys on or off: activate or deactivate the hotkey system.
#[derive(Debug)]
pub struct SwitchHotkeys<'a, H> {
    pub system: &'a H,
    pub activate: bool,
}

/// The only step of reading the hotkeys: read the configuration of the hotkey system.
#[derive(Debug)]
pub struct ReadHotkeys<'a, H> {
    pub system: &'a H,
}

/// The only step of resolving a key: let the hotkey system resolve the key of this name.
#[derive(Debug)]
pub struct ResolveKey<'a, H> {
    pub system: &'a H,
    pub key: String,
}

/// Keep the window above all others, or stop doing so.
#[derive(Debug)]
pub struct PinWindow<'a, W> {
    pub window: &'a W,
    pub always_on_top: bool,
}

impl<H, W> State<H, W> {
    /// The state that the application starts with, which has no window yet, and how setting
    /// up the log begins. The application runs on whatever comes of that.
    pub fn new<'a, P>(
        config: Config,
        hotkey_system: Option<H>,
        path: &'a ConfigPath<P>,
    ) -> (r: (Self, Next<LogFolder<'a, P>, Option<()>>))
        ensures
            r.0 == (State { config, hotkey_system, window: None::<W> }),
            r.1 == config.spec_setup_logging(path),
    {
        let setup = config.setup_logging(path);
        (State { config, hotkey_system, window: None }, setup)
    }

    /// How changing the hotkeys begins.
    pub open spec fn spec_set_hotkey_config(&self, hotkeys: HotkeyConfig) -> Next<
        ApplyHotkeys<'_, H>,
        StoreHotkeys,
    > {
        match self.hotkey_system {
            Some(system) => Next::Perform(ApplyHotkeys { system: &system, hotkeys }),
            None => Next::Return(StoreHotkeys { hotkeys, applied: false }),
        }
    }

    /// Changes the hotkeys.
    pub fn set_hotkey_config(&self, hotkeys: HotkeyConfig) -> (next: Next<
        ApplyHotkeys<'_, H>,
        StoreHotkeys,
    >)
        ensures
            next == self.spec_set_hotkey_config(hotkeys),
    {
        match &self.hotkey_system {
            Some(system) => Next::Perform(ApplyHotkeys { system, hotkeys }),
            None => Next::Return(StoreHotkeys { hotkeys, applied: false }),
        }
    }

    /// The state with the hotkeys in its configuration.
    pub open spec fn spec_store_hotkeys(self, store: StoreHotkeys) -> Self {
        State { config: self.config.with_hotkeys(store.hotkeys), ..self }
    }

    /// Stores the changed hotkeys in the configuration, and saves it. Says whether the hotkey
    /// system took them, and how saving begins; neither keeps them from being stored.
    pub fn store_hotkeys<'a, P>(&mut self, store: StoreHotkeys, path: &'a ConfigPath<P>) -> (r: (
        bool,
        Next<CreateFolder<'a, P>, Option<()>>,
    ))
        ensures
            *final(self) == old(self).spec_store_hotkeys(store),
            r.0 == store.applied,
            r.1 == final(self).config.spec_save_config(path),
    {
        let save = self.config.set_hotkeys(store.hotkeys, path);
        (store.applied, save)
    }

    /// How turning the hotkeys on or off begins.
    pub open spec fn spec_set_hotkey_activation(&self, active: bool) -> Next<
        SwitchHotkeys<'_, H>,
        bool,
    > {
        match self.hotkey_system {
            Some(system) => Next::Perform(SwitchHotkeys { system: &system, activate: active }),
            None => Next::Return(false),
        }
    }

    /// Turns the hotkeys on or off. The result says whether that worked.
    pub fn set_hotkey_activation(&self, active: bool) -> (next: Next<SwitchHotkeys<'_, H>, bool>)
        ensures
            next == self.spec_set_hotkey_activation(active),
    {
        match &self.hotkey_system {
            Some(system) => Next::Perform(SwitchHotkeys { system, activate: active }),
            None => Next::Return(false),
        }
    }

    /// The hotkeys: those of the hotkey system, or the default ones where there is none.
    pub fn get_hotkey_config(&self) -> (next: Next<ReadHotkeys<'_, H>, HotkeyConfig>)
        ensures
            match self.hotkey_system {
                Some(system) => next == Next::<_, HotkeyConfig>::Perform(
                    ReadHotkeys { system: &system },
                ),
                None => next matches Next::Return(hotkeys) && hotkeys@ == default_hotkeys(),
            },
    {
        match &self.hotkey_system {
            Some(system) => Next::Perform(ReadHotkeys { system }),
            None => Next::Return(HotkeyConfig::default()),
        }
    }

    /// How resolving a key begins, where the text parsed to this key: a text that is no key,
    /// and every text where there is no hotkey system, stands for itself.
    pub open spec fn spec_resolve_parsed(&self, key_code: String, parsed: Option<String>) -> Next<
        ResolveKey<'_, H>,
        String,
    > {
        match (self.hotkey_system, parsed) {
            (Some(system), Some(key)) => Next::Perform(ResolveKey { system: &system, key }),
            _ => Next::Return(key_code),
        }
    }

    /// Resolves a key, where the text parsed to the key of this name.
    pub fn resolve_parsed(&self, key_code: String, parsed: Option<String>) -> (next: Next<
        ResolveKey<'_, H>,
        String,
    >)
        ensures
            next == self.spec_resolve_parsed(key_code, parsed),
    {
        match (&self.hotkey_system, parsed) {
            (Some(system), Some(key)) => Next::Perform(ResolveKey { system, key }),
            _ => Next::Return(key_code),
        }
    }

    /// Resolves a key to what the keyboard layout has in its place. A text that names no key,
    /// and every text where there is no hotkey system, stands for itself.
    pub fn resolve_hotkey(&self, key_code: String) -> (next: Next<ResolveKey<'_, H>, String>)
        ensures
            match (self.hotkey_system, key_code_name(key_code@)) {
                (Some(system), Some(name)) => next matches Next::Perform(step) && *step.system
                    == system && step.key@ == name && key_code_name(name) == Some(name),
                _ => next == Next::<ResolveKey<'_, H>, _>::Return(key_code),
            },
    {
        let parsed = parse_key_code(key_code.as_str());
        self.resolve_parsed(key_code, parsed)
    }

    /// Takes the settings that concern the window. There is nothing to do without one.
    pub fn settings_changed(&self, always_on_top: bool) -> (next: Next<PinWindow<'_, W>, ()>)
        ensures
            next == (match self.window {
                Some(window) => Next::Perform(PinWindow { window: &window, always_on_top }),
                None => Next::Return(()),
            }),
    {
        match &self.window {
            Some(window) => Next::Perform(PinWindow { window, always_on_top }),
            None => Next::Return(()),
        }
    }
}

impl<'a, H> ApplyHotkeys<'a, H> {
    /// What is to be stored.
    pub open spec fn spec_applied(self, applied: bool) -> StoreHotkeys {
        StoreHotkeys { hotkeys: self.hotkeys, applied }
    }

    /// Goes on once the hotkey system took the hotkeys, or refused them.
    pub fn applied(self, applied: bool) -> (store: StoreHotkeys)
        ensures
            store == self.spec_applied(applied),
    {
        StoreHotkeys { hotkeys: self.hotkeys, applied }
    }
}

impl<'a, H> SwitchHotkeys<'a, H> {
    /// Ends once the hotkeys are switched, or could not be.
    pub fn switched(self, switched: bool) -> (worked: bool)
        ensures
            worked == switched,
    {
        switched
    }
}

impl<'a, H> ReadHotkeys<'a, H> {
    /// Ends with the hotkeys of the hotkey system.
    pub fn read(self, hotkeys: HotkeyConfig) -> (result: HotkeyConfig)
        ensures
            result == hotkeys,
    {
        hotkeys
    }
}

impl<'a, H> ResolveKey<'a, H> {
    /// Ends with what the hotkey system made of the key.
    pub fn resolved(self, text: String) -> (result: String)
        ensures
            result == text,
    {
        text
    }
}

/// What is to be stored in the end of changing the hotkeys, by whether the hotkey system
/// took them.
pub open spec fn hotkeys_to_store<H, W>(
    state: &State<H, W>,
    hotkeys: HotkeyConfig,
    applied: bool,
) -> StoreHotkeys {
    match state.spec_set_hotkey_config(hotkeys) {
        Next::Return(store) => store,
        Next::Perform(apply) => apply.spec_applied(applied),
    }
}

/// Changed hotkeys are stored in any case, and nothing else of the state changes. The answer
/// is that they were applied exactly where there is a hotkey system and it took them.
pub proof fn lemma_hotkeys_are_stored<H, W>(
    state: State<H, W>,
    hotkeys: HotkeyConfig,
    applied: bool,
)
    ensures
        hotkeys_to_store(&state, hotkeys, applied).applied <==> state.hotkey_system is Some
            && applied,
        state.spec_store_hotkeys(hotkeys_to_store(&state, hotkeys, applied)) == (State {
            config: Config { hotkeys, ..state.config },
            ..state
        }),
{
}

/// Of two changes of the hotkeys the second one counts.
pub proof fn lemma_last_hotkeys_count<H, W>(
    state: State<H, W>,
    first: StoreHotkeys,
    second: StoreHotkeys,
)
    ensures
        state.spec_store_hotkeys(first).spec_store_hotkeys(second) == state.spec_store_hotkeys(
            second,
        ),
{
}

/// What is saved after a change of the hotkeys has the new ones, and else what was there.
pub proof fn lemma_new_hotkeys_are_saved<H, W, P>(
    state: State<H, W>,
    store: StoreHotkeys,
    path: &ConfigPath<P>,
)
    requires
        path.folder is Some,
    ensures
        state.spec_store_hotkeys(store).config.spec_save_config(path) matches Next::Perform(
            create,
        ) && create.stored.hotkeys == store.hotkeys && create.stored == (StoredConfig {
            hotkeys: store.hotkeys,
            ..state.config.spec_stored()
        }),
{
}

/// Without a hotkey system nothing is asked of one: hotkeys are not applied, cannot be turned
/// on or off, and every key stands for itself.
pub proof fn lemma_without_hotkey_system<H, W>(
    state: &State<H, W>,
    hotkeys: HotkeyConfig,
    active: bool,
    key_code: String,
    parsed: Option<String>,
)
    requires
        state.hotkey_system is None,
    ensures
        state.spec_set_hotkey_config(hotkeys) == Next::<ApplyHotkeys<'_, H>, _>::Return(
            StoreHotkeys { hotkeys, applied: false },
        ),
        state.spec_set_hotkey_activation(active) == Next::<SwitchHotkeys<'_, H>, _>::Return(false),
        state.spec_resolve_parsed(key_code, parsed) == Next::<ResolveKey<'_, H>, _>::Return(
            key_code,
        ),
{
}

/// The application starts with the configuration and the hotkey system that it is given, and
/// without a window.
pub proof fn lemma_start<'a, H, W, P>(
    config: Config,
    hotkey_system: Option<H>,
    path: &'a ConfigPath<P>,
    r: (State<H, W>, Next<LogFolder<'a, P>, Option<()>>),
    setup: Next<LogFolder<'a, P>, Option<()>>,
)
    requires
        call_ensures(State::<H, W>::new::<P>, (config, hotkey_system, path), r),
        call_ensures(Config::setup_logging::<P>, (&config, path), setup),
    ensures
        r.0.config == config,
        r.0.hotkey_system == hotkey_system,
        r.0.window is None,
        r.1 == setup,
{
}

/// Where there is a hotkey system, changing the hotkeys begins with applying to it exactly the
/// hotkeys that were asked for, action by action. Where there is none, they are to be stored
/// as they are, as not applied.
pub proof fn lemma_hotkeys_are_applied_as_asked<'a, H, W>(
    state: &'a State<H, W>,
    hotkeys: HotkeyConfig,
    next: Next<ApplyHotkeys<'a, H>, StoreHotkeys>,
)
    requires
        call_ensures(State::<H, W>::set_hotkey_config, (state, hotkeys), next),
    ensures
        state.hotkey_system matches Some(system) ==> (next matches Next::Perform(step)
            && *step.system == system && step.hotkeys.split == hotkeys.split && step.hotkeys.reset
            == hotkeys.reset && step.hotkeys.undo == hotkeys.undo && step.hotkeys.skip
            == hotkeys.skip && step.hotkeys.pause == hotkeys.pause && step.hotkeys.undo_all_pauses
            == hotkeys.undo_all_pauses && step.hotkeys.previous_comparison
            == hotkeys.previous_comparison && step.hotkeys.next_comparison
            == hotkeys.next_comparison && step.hotkeys.toggle_timing_method
            == hotkeys.toggle_timing_method),
        state.hotkey_system is None ==> (next matches Next::Return(store) && store.hotkeys
            == hotkeys && !store.applied),
{
}

/// What is stored in the end are the hotkeys that were applied, with what came of that.
pub proof fn lemma_applied_hotkeys_are_stored<'a, H>(
    step: ApplyHotkeys<'a, H>,
    applied: bool,
    store: StoreHotkeys,
)
    requires
        call_ensures(ApplyHotkeys::<'a, H>::applied, (step, applied), store),
    ensures
        store.hotkeys == step.hotkeys,
        store.applied == applied,
{
}

/// Storing the hotkeys puts exactly them into the configuration and leaves all else as it is,
/// answers whether they were applied, and saves the configuration that results.
pub proof fn lemma_store_hotkeys<'a, H, W, P>(
    state: &mut State<H, W>,
    store: StoreHotkeys,
    path: &'a ConfigPath<P>,
    r: (bool, Next<CreateFolder<'a, P>, Option<()>>),
)
    requires
        call_ensures(State::<H, W>::store_hotkeys::<P>, (state, store, path), r),
    ensures
        final(state).config.hotkeys == store.hotkeys,
        final(state).config.splits == old(state).config.splits,
        final(state).config.general == old(state).config.general,
        final(state).config.log == old(state).config.log,
        final(state).hotkey_system == old(state).hotkey_system,
        final(state).window == old(state).window,
        r.0 == store.applied,
        path.folder matches Some(folder) ==> (r.1 matches Next::Perform(create) && *create.folder
            == folder && create.stored.hotkeys == store.hotkeys && create.stored.current
            == old(state).config.splits.current && create.stored.general
            == old(state).config.general && create.stored.log == old(state).config.log),
        path.folder is None ==> (r.1 matches Next::Return(saved) && saved is None),
{
}

/// The hotkeys are turned on where that was asked for and off where that was, in the hotkey
/// system there is. The answer is what came of it, and `false` without a hotkey system.
pub proof fn lemma_hotkeys_are_switched_as_asked<'a, H, W>(
    state: &'a State<H, W>,
    active: bool,
    next: Next<SwitchHotkeys<'a, H>, bool>,
    step: SwitchHotkeys<'a, H>,
    switched: bool,
    worked: bool,
)
    requires
        call_ensures(State::<H, W>::set_hotkey_activation, (state, active), next),
        call_ensures(SwitchHotkeys::<'a, H>::switched, (step, switched), worked),
    ensures
        state.hotkey_system matches Some(system) ==> (next matches Next::Perform(switch)
            && *switch.system == system && switch.activate == active),
        state.hotkey_system is None ==> next == Next::<SwitchHotkeys<'a, H>, _>::Return(false),
        worked == switched,
{
}

/// The hotkeys are those of the hotkey system, as it told them. Without one they are the digits
/// of the number pad, each for its action.
pub proof fn lemma_hotkeys_are_read<'a, H, W>(
    state: &'a State<H, W>,
    next: Next<ReadHotkeys<'a, H>, HotkeyConfig>,
    step: ReadHotkeys<'a, H>,
    told: HotkeyConfig,
    read: HotkeyConfig,
)
    requires
        call_ensures(State::<H, W>::get_hotkey_config, (state,), next),
        call_ensures(ReadHotkeys::<'a, H>::read, (step, told), read),
    ensures
        state.hotkey_system matches Some(system) ==> (next matches Next::Perform(ask)
            && *ask.system == system),
        state.hotkey_system is None ==> (next matches Next::Return(hotkeys)
            && hotkeys.split.deep_view() == Some("Numpad1"@) && hotkeys.reset.deep_view() == Some(
            "Numpad3"@,
        ) && hotkeys.undo.deep_view() == Some("Numpad8"@) && hotkeys.skip.deep_view() == Some(
            "Numpad2"@,
        ) && hotkeys.pause.deep_view() == Some("Numpad5"@)
            && hotkeys.previous_comparison.deep_view() == Some("Numpad4"@)
            && hotkeys.next_comparison.deep_view() == Some("Numpad6"@) && hotkeys.undo_all_pauses
            is None && hotkeys.toggle_timing_method is None),
        read == told,
{
}

/// A text that names a key is resolved by the hotkey system, as that key, and what it says is
/// the result. A text that names none, or where there is no hotkey system, stands for itself.
pub proof fn lemma_keys_are_resolved<'a, H, W>(
    state: &'a State<H, W>,
    key_code: String,
    parsed: Option<String>,
    next: Next<ResolveKey<'a, H>, String>,
    direct: Next<ResolveKey<'a, H>, String>,
    step: ResolveKey<'a, H>,
    told: String,
    result: String,
)
    requires
        call_ensures(State::<H, W>::resolve_parsed, (state, key_code, parsed), next),
        call_ensures(State::<H, W>::resolve_hotkey, (state, key_code), direct),
        call_ensures(ResolveKey::<'a, H>::resolved, (step, told), result),
    ensures
        state.hotkey_system is Some && parsed is Some ==> (next matches Next::Perform(resolve)
            && *resolve.system == state.hotkey_system->0 && resolve.key == parsed->0),
        state.hotkey_system is None || parsed is None ==> next == Next::<
            ResolveKey<'a, H>,
            _,
        >::Return(key_code),
        state.hotkey_system is Some && key_code_name(key_code@) is Some ==> (direct matches
            Next::Perform(resolve) && *resolve.system == state.hotkey_system->0 && Some(
            resolve.key@,
        ) == key_code_name(key_code@)),
        state.hotkey_system is None || key_code_name(key_code@) is None ==> direct == Next::<
            ResolveKey<'a, H>,
            _,
        >::Return(key_code),
        result == told,
{
}

/// The window there is, and no other, is kept above the others exactly where that was asked
/// for. Without a window nothing is to be done.
pub proof fn lemma_window_is_pinned_as_asked<'a, H, W>(
    state: &'a State<H, W>,
    always_on_top: bool,
    next: Next<PinWindow<'a, W>, ()>,
)
    requires
        call_ensures(State::<H, W>::settings_changed, (state, always_on_top), next),
    ensures
        state.window matches Some(window) ==> (next matches Next::Perform(pin) && *pin.window
            == window && pin.always_on_top == always_on_top),
        state.window is None ==> next == Next::<PinWindow<'a, W>, _>::Return(()),
{
}

} // verus!
