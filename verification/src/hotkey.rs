//! The single global hotkey: what a binding is, how settings name one, and
//! the swap that replaces the active binding.
//!
//! The registry of global hotkeys belongs to the operating system. The
//! manager here keeps track of the one binding that this process holds there
//! and decides each swap in two steps: [`register_from_settings`] says which
//! binding to ask the registry for, and [`HotkeyManager::confirm`] takes the
//! registry's answer. The new binding is registered before the old one is
//! released, so a refusal leaves the old hotkey in force.

use crate::settings::{Hotkey, Settings};
use crate::text::same_text;
use vstd::prelude::*;

verus! {

/// The keys that a hotkey can be bound to.
#[derive(Clone, Copy, Debug, PartialEq, Eq, Structural)]
pub enum KeyCode {
    Semicolon,
    KeyJ,
    KeyK,
    KeyL,
}

/// One global hotkey: a set of modifiers and a key.
#[derive(Clone, Copy, Debug, PartialEq, Eq, Structural)]
pub struct Binding {
    pub ctrl: bool,
    pub shift: bool,
    pub alt: bool,
    pub code: KeyCode,
}

/// Why a hotkey could not be put in force.
#[derive(Clone, Copy, Debug, PartialEq, Eq, Structural)]
pub enum HotkeyError {
    /// The settings name a key outside the supported set.
    UnsupportedCode,
    /// The registry refused the binding, as it does when another program
    /// holds it.
    RegistrationFailed,
}

/// What this process holds in the registry.
#[derive(Clone, Copy, Debug, PartialEq, Eq, Structural)]
pub enum HotkeyState {
    Unregistered,
    Registered(Binding),
}

/// What a swap asks of the registry first.
#[derive(Clone, Copy, Debug, PartialEq, Eq, Structural)]
pub enum SwapStep {
    /// The wanted binding is the one in force: there is nothing to ask.
    Keep,
    /// Ask the registry for this binding and hand its answer to
    /// [`HotkeyManager::confirm`].
    Register(Binding),
}

/// The key that a name stands for, if it is a supported one.
pub open spec fn code_of(name: Seq<char>) -> Option<KeyCode> {
    if name == "Semicolon"@ {
        Some(KeyCode::Semicolon)
    } else if name == "KeyJ"@ {
        Some(KeyCode::KeyJ)
    } else if name == "KeyK"@ {
        Some(KeyCode::KeyK)
    } else if name == "KeyL"@ {
        Some(KeyCode::KeyL)
    } else {
        None
    }
}

/// The binding that a configured hotkey asks for, if its key is supported.
pub open spec fn binding_of(hotkey: Hotkey) -> Option<Binding> {
    match code_of(hotkey.code@) {
        Some(code) => Some(
            Binding { ctrl: hotkey.ctrl, shift: hotkey.shift, alt: hotkey.alt, code },
        ),
        None => None,
    }
}

/// The first step of a swap to `wanted`.
pub open spec fn swap_step(state: HotkeyState, wanted: Binding) -> SwapStep {
    if state == HotkeyState::Registered(wanted) {
        SwapStep::Keep
    } else {
        SwapStep::Register(wanted)
    }
}

/// The first step that a configured hotkey leads to, or the reason why
/// there is none.
pub open spec fn planned(state: HotkeyState, hotkey: Hotkey) -> Result<SwapStep, HotkeyError> {
    match binding_of(hotkey) {
        Some(wanted) => Ok(swap_step(state, wanted)),
        None => Err(HotkeyError::UnsupportedCode),
    }
}

/// The state after the registry answered a request for `wanted`.
pub open spec fn settled(state: HotkeyState, wanted: Binding, accepted: bool) -> HotkeyState {
    if accepted {
        HotkeyState::Registered(wanted)
    } else {
        state
    }
}

/// The binding to release after the registry answered a request for
/// `wanted`: the one that was in force, once another has taken its place.
pub open spec fn released(state: HotkeyState, wanted: Binding, accepted: bool) -> Option<Binding> {
    match state {
        HotkeyState::Registered(old) if accepted && old != wanted => Some(old),
        _ => None,
    }
}

/// Finds the key that a name stands for.
pub fn parse_code(code: &str) -> (r: Option<KeyCode>)
    ensures
        r == code_of(code@),
{
    if same_text(code, "Semicolon") {
        Some(KeyCode::Semicolon)
    } else if same_text(code, "KeyJ") {
        Some(KeyCode::KeyJ)
    } else if same_text(code, "KeyK") {
        Some(KeyCode::KeyK)
    } else if same_text(code, "KeyL") {
        Some(KeyCode::KeyL)
    } else {
        None
    }
}

/// Keeps track of the one binding that this process holds in the registry.
pub struct HotkeyManager {
    state: HotkeyState,
}

impl View for HotkeyManager {
    type V = HotkeyState;

    closed spec fn view(&self) -> HotkeyState {
        self.state
    }
}

impl HotkeyManager {
    /// A manager that holds nothing in the registry.
    pub fn new() -> (r: Self)
        ensures
            r@ == HotkeyState::Unregistered,
    {
        HotkeyManager { state: HotkeyState::Unregistered }
    }

    /// What the manager holds in the registry.
    pub fn state(&self) -> (r: HotkeyState)
        ensures
            r == self@,
    {
        self.state
    }

    /// Takes the registry's answer to a request for `wanted`.
    ///
    /// Where the registry accepted, `wanted` is the binding in force from
    /// now on, and the result is the binding to release: the one that was in
    /// force before, if there was another. Where it refused, nothing
    /// changes and the error says so.
    pub fn confirm(&mut self, wanted: Binding, accepted: bool) -> (r: Result<
        Option<Binding>,
        HotkeyError,
    >)
        ensures
            final(self)@ == settled(old(self)@, wanted, accepted),
            accepted ==> r == Ok::<Option<Binding>, HotkeyError>(
                released(old(self)@, wanted, accepted),
            ),
            !accepted ==> r == Err::<Option<Binding>, HotkeyError>(
                HotkeyError::RegistrationFailed,
            ),
    {
        if !accepted {
            return Err(HotkeyError::RegistrationFailed);
        }
        let before = self.state;
        self.state = HotkeyState::Registered(wanted);
        match before {
            HotkeyState::Registered(old) => {
                if old == wanted {
                    Ok(None)
                } else {
                    Ok(Some(old))
                }
            },
            HotkeyState::Unregistered => Ok(None),
        }
    }
}

/// Decides how to put the configured hotkey in force.
///
/// A key outside the supported set is an error. The manager is only read:
/// whatever the result, the binding in force stays until
/// [`HotkeyManager::confirm`] hears that the registry accepted another.
pub fn register_from_settings(manager: &HotkeyManager, s: &Settings) -> (r: Result<
    SwapStep,
    HotkeyError,
>)
    ensures
        r == planned(manager@, s.hotkey),
        r == Err::<SwapStep, HotkeyError>(HotkeyError::UnsupportedCode) <==> code_of(
            s.hotkey.code@,
        ) is None,
{
    let code = match parse_code(s.hotkey.code.as_str()) {
        Some(code) => code,
        None => {
            return Err(HotkeyError::UnsupportedCode);
        },
    };
    let wanted = Binding { ctrl: s.hotkey.ctrl, shift: s.hotkey.shift, alt: s.hotkey.alt, code };
    match manager.state {
        HotkeyState::Registered(active) => {
            if active == wanted {
                Ok(SwapStep::Keep)
            } else {
                Ok(SwapStep::Register(wanted))
            }
        },
        HotkeyState::Unregistered => Ok(SwapStep::Register(wanted)),
    }
}

impl HotkeyError {
    /// The text of the error.
    pub open spec fn text(self) -> Seq<char> {
        match self {
            HotkeyError::UnsupportedCode => "unsupported code"@,
            HotkeyError::RegistrationFailed => "快捷鍵註冊失敗，可能被其他程式佔用"@,
        }
    }

    /// The error as a message for the user.
    pub fn message(&self) -> (r: String)
        ensures
            r@ == self.text(),
    {
        match self {
            HotkeyError::UnsupportedCode => String::from_str("unsupported code"),
            HotkeyError::RegistrationFailed => String::from_str("快捷鍵註冊失敗，可能被其他程式佔用"),
        }
    }
}

/// What a key is shown as: its character, or a question mark for a name
/// outside the supported set.
pub open spec fn key_label(name: Seq<char>) -> Seq<char> {
    match code_of(name) {
        Some(KeyCode::Semicolon) => ";"@,
        Some(KeyCode::KeyJ) => "J"@,
        Some(KeyCode::KeyK) => "K"@,
        Some(KeyCode::KeyL) => "L"@,
        None => "?"@,
    }
}

/// The name of a modifier followed by the separator, where the modifier is
/// part of the hotkey.
pub open spec fn modifier_label(held: bool, name: Seq<char>) -> Seq<char> {
    if held {
        name + " + "@
    } else {
        Seq::empty()
    }
}

/// A configured hotkey as the user reads it: the modifiers that it holds, in
/// the order Ctrl, Shift, Alt, and then the key, with `" + "` between
/// neighbours.
pub open spec fn display_of(hotkey: Hotkey) -> Seq<char> {
    modifier_label(hotkey.ctrl, "Ctrl"@) + modifier_label(hotkey.shift, "Shift"@) + modifier_label(
        hotkey.alt,
        "Alt"@,
    ) + key_label(hotkey.code@)
}

/// Writes the configured hotkey as the user reads it, such as `Ctrl + ;`.
pub fn get_hotkey_display(s: &Settings) -> (r: String)
    ensures
        r@ == display_of(s.hotkey),
{
    let mut out: String = String::new();
    if s.hotkey.ctrl {
        out.append("Ctrl");
        out.append(" + ");
    }
    assert(out@ == modifier_label(s.hotkey.ctrl, "Ctrl"@));
    let ghost ctrl = out@;
    if s.hotkey.shift {
        out.append("Shift");
        out.append(" + ");
    }
    assert(out@ == ctrl + modifier_label(s.hotkey.shift, "Shift"@));
    let ghost shift = out@;
    if s.hotkey.alt {
        out.append("Alt");
        out.append(" + ");
    }
    assert(out@ == shift + modifier_label(s.hotkey.alt, "Alt"@));
    let key = match parse_code(s.hotkey.code.as_str()) {
        Some(KeyCode::Semicolon) => ";",
        Some(KeyCode::KeyJ) => "J",
        Some(KeyCode::KeyK) => "K",
        Some(KeyCode::KeyL) => "L",
        None => "?",
    };
    out.append(key);
    out
}

/// The bindings that the registry holds for this process when it agrees
/// with a state of the manager.
pub open spec fn registry_of(state: HotkeyState) -> Set<Binding> {
    match state {
        HotkeyState::Unregistered => Set::empty(),
        HotkeyState::Registered(active) => set![active],
    }
}

/// A manager together with the registry that it speaks to, after one
/// attempt to apply settings.
pub struct Applied {
    pub state: HotkeyState,
    pub registry: Set<Binding>,
    pub result: Result<(), HotkeyError>,
}

/// One attempt to apply a configured hotkey, carried out in full: the step
/// of [`planned`] is put to a registry that holds `registry` for this
/// process and answers `accepted`, the manager takes the answer as
/// [`settled`] says, and the binding of [`released`] is given back.
pub open spec fn applied(
    state: HotkeyState,
    registry: Set<Binding>,
    hotkey: Hotkey,
    accepted: bool,
) -> Applied {
    match planned(state, hotkey) {
        Err(e) => Applied { state, registry, result: Err(e) },
        Ok(SwapStep::Keep) => Applied { state, registry, result: Ok(()) },
        Ok(SwapStep::Register(wanted)) => if accepted {
            let grown = registry.insert(wanted);
            Applied {
                state: settled(state, wanted, true),
                registry: match released(state, wanted, true) {
                    Some(old) => grown.remove(old),
                    None => grown,
                },
                result: Ok(()),
            }
        } else {
            Applied { state, registry, result: Err(HotkeyError::RegistrationFailed) }
        },
    }
}

/// Settings that name an unsupported key are refused, and neither the
/// manager nor the registry changes.
pub proof fn lemma_unsupported_code_changes_nothing(
    state: HotkeyState,
    registry: Set<Binding>,
    hotkey: Hotkey,
    accepted: bool,
)
    requires
        code_of(hotkey.code@) is None,
    ensures
        applied(state, registry, hotkey, accepted) == (Applied {
            state,
            registry,
            result: Err(HotkeyError::UnsupportedCode),
        }),
{
}

/// An attempt that fails, for whatever reason, leaves the binding that was
/// in force in force.
pub proof fn lemma_failure_keeps_binding(
    state: HotkeyState,
    registry: Set<Binding>,
    hotkey: Hotkey,
    accepted: bool,
)
    requires
        applied(state, registry, hotkey, accepted).result is Err,
    ensures
        applied(state, registry, hotkey, accepted).state == state,
        applied(state, registry, hotkey, accepted).registry == registry,
{
}

/// Whatever an attempt comes to, the registry goes on holding exactly what
/// the manager says it holds; and an attempt that succeeds leaves exactly
/// the wanted binding there.
pub proof fn lemma_apply_keeps_registry_in_step(
    state: HotkeyState,
    hotkey: Hotkey,
    accepted: bool,
)
    ensures
        ({
            let after = applied(state, registry_of(state), hotkey, accepted);
            &&& after.registry == registry_of(after.state)
            &&& after.result is Ok ==> binding_of(hotkey) is Some && after.state
                == HotkeyState::Registered(binding_of(hotkey)->0) && after.registry == set![
                binding_of(hotkey)->0,
            ]
        }),
{
    let after = applied(state, registry_of(state), hotkey, accepted);
    assert(after.registry =~= registry_of(after.state));
}

/// After two attempts in a row that both succeed, the registry holds one
/// binding for this process: the one of the later settings.
pub proof fn lemma_two_applies_leave_latest(
    state: HotkeyState,
    first: Hotkey,
    first_accepted: bool,
    second: Hotkey,
    second_accepted: bool,
)
    requires
        applied(state, registry_of(state), first, first_accepted).result is Ok,
        ({
            let mid = applied(state, registry_of(state), first, first_accepted);
            applied(mid.state, mid.registry, second, second_accepted).result is Ok
        }),
    ensures
        ({
            let mid = applied(state, registry_of(state), first, first_accepted);
            let end = applied(mid.state, mid.registry, second, second_accepted);
            &&& binding_of(second) is Some
            &&& end.state == HotkeyState::Registered(binding_of(second)->0)
            &&& end.registry == set![binding_of(second)->0]
            &&& end.registry.len() == 1
        }),
{
    lemma_apply_keeps_registry_in_step(state, first, first_accepted);
    let mid = applied(state, registry_of(state), first, first_accepted);
    lemma_apply_keeps_registry_in_step(mid.state, second, second_accepted);
}

} // verus!
