//! Hotkey dispatch: what each configured binding does when triggered, and
//! which window receives the focus after the active desktop changes.
use vstd::prelude::*;
use crate::config::{HotKey, Settings};

verus! {

/// Why the dispatcher could not be set up.
#[derive(Clone, Debug, PartialEq, Eq)]
pub enum ShortcutError {
    /// A key name outside the key vocabulary.
    InvalidKey(String),
    /// The system refused a binding; its message.
    HotKeyRegistrationFailed(String),
}

/// What a configured binding does when triggered.
#[derive(Clone, Copy, Debug, PartialEq, Eq)]
pub enum HotkeyAction {
    SwitchDesktop { target: u32 },
    MoveWindow { target: u32, follow: bool },
}

/// A command issued to the desktop manager.
#[derive(Clone, Copy, Debug, PartialEq, Eq)]
pub enum Command {
    SwitchDesktop { desktop: u32 },
    MoveWindow { window: u64, desktop: u32 },
}

/// A hotkey whose key names have been resolved to keys of type `K`.
#[derive(Clone, Debug, PartialEq, Eq)]
pub struct ParsedHotKey<K> {
    pub trigger_key: K,
    pub modifier_keys: Vec<K>,
    pub target_desktop_index: u32,
}

/// The position of the first unknown name among `modifiers[i..]`, or the
/// length where every one is known.
pub open spec fn first_unknown<K>(modifiers: Seq<Option<K>>, i: int) -> int
    decreases modifiers.len() - i,
{
    if i >= modifiers.len() {
        modifiers.len() as int
    } else if modifiers[i] is None {
        i
    } else {
        first_unknown(modifiers, i + 1)
    }
}

/// The error of resolving the key names of `h`, where `trigger` and
/// `modifiers` are what the key vocabulary gives for them: the trigger is
/// checked first, then the modifiers in order.
pub open spec fn parse_error<K>(h: HotKey, trigger: Option<K>, modifiers: Seq<Option<K>>) -> Option<ShortcutError> {
    if trigger is None {
        Some(ShortcutError::InvalidKey(h.trigger_key))
    } else if first_unknown(modifiers, 0) < modifiers.len() {
        Some(ShortcutError::InvalidKey(h.modifier_keys@[first_unknown(modifiers, 0)]))
    } else {
        None
    }
}

/// `p` holds the resolved keys and the target of `h`.
pub open spec fn parsed_from<K>(p: ParsedHotKey<K>, h: HotKey, trigger: Option<K>, modifiers: Seq<Option<K>>) -> bool {
    &&& p.trigger_key == trigger->0
    &&& p.target_desktop_index == h.target_desktop_index
    &&& p.modifier_keys@.len() == modifiers.len()
    &&& forall|i: int| 0 <= i < modifiers.len() ==> #[trigger] p.modifier_keys@[i] == modifiers[i]->0
}

/// What the key vocabulary gives for the names of one hotkey.
#[derive(Clone, Debug, PartialEq, Eq)]
pub struct KeyLookup<K> {
    pub trigger: Option<K>,
    pub modifiers: Vec<Option<K>>,
}

impl HotKey {
    /// Resolves the key names of this hotkey. `trigger` is the key the
    /// trigger name denotes and `modifiers[i]` the key that the `i`-th
    /// modifier name denotes, `None` for a name outside the vocabulary. The
    /// trigger is checked first, then the modifiers in order; the first
    /// unknown name is the error.
    pub fn parse<K: Copy>(&self, trigger: Option<K>, modifiers: &Vec<Option<K>>) -> (r: Result<ParsedHotKey<K>, ShortcutError>)
        requires
            modifiers@.len() == self.modifier_keys@.len(),
        ensures
            r is Err <==> parse_error(*self, trigger, modifiers@) is Some,
            r is Err ==> r->Err_0 == parse_error(*self, trigger, modifiers@)->0,
            r is Ok ==> parsed_from(r->Ok_0, *self, trigger, modifiers@),
    {
        let trigger_key = match trigger {
            Some(k) => k,
            None => {
                return Err(ShortcutError::InvalidKey(self.trigger_key.clone()));
            },
        };
        let mut keys: Vec<K> = Vec::new();
        let mut i: usize = 0;
        while i < modifiers.len()
            invariant
                0 <= i <= modifiers@.len(),
                modifiers@.len() == self.modifier_keys@.len(),
                trigger is Some,
                keys@.len() == i,
                first_unknown(modifiers@, 0) == first_unknown(modifiers@, i as int),
                forall|j: int| 0 <= j < i ==> #[trigger] keys@[j] == modifiers@[j]->0,
            decreases modifiers@.len() - i,
        {
            match &modifiers[i] {
                Some(k) => {
                    keys.push(*k);
                },
                None => {
                    return Err(ShortcutError::InvalidKey(self.modifier_keys[i].clone()));
                },
            }
            i = i + 1;
        }
        Ok(ParsedHotKey { trigger_key, modifier_keys: keys, target_desktop_index: self.target_desktop_index })
    }
}

/// Resolves every hotkey, or none: the result is the error of the first
/// hotkey that fails, so no binding is set up from a partly valid
/// configuration.
pub fn parse_hotkeys<K: Copy>(hotkeys: &Vec<HotKey>, lookups: &Vec<KeyLookup<K>>) -> (r: Result<Vec<ParsedHotKey<K>>, ShortcutError>)
    requires
        lookups@.len() == hotkeys@.len(),
        forall|i: int| 0 <= i < hotkeys@.len() ==> (#[trigger] lookups@[i]).modifiers@.len() == hotkeys@[i].modifier_keys@.len(),
    ensures
        r is Ok <==> forall|i: int| 0 <= i < hotkeys@.len() ==> parse_error(
            hotkeys@[i],
            lookups@[i].trigger,
            lookups@[i].modifiers@,
        ) is None,
        r is Ok ==> r->Ok_0@.len() == hotkeys@.len() && forall|i: int| 0 <= i < hotkeys@.len() ==> parsed_from(
            #[trigger] r->Ok_0@[i],
            hotkeys@[i],
            lookups@[i].trigger,
            lookups@[i].modifiers@,
        ),
        r is Err ==> exists|i: int|
            0 <= i < hotkeys@.len()
            && (forall|j: int| 0 <= j < i ==> parse_error(#[trigger] hotkeys@[j], lookups@[j].trigger, lookups@[j].modifiers@) is None)
            && parse_error(hotkeys@[i], lookups@[i].trigger, lookups@[i].modifiers@) == Some(r->Err_0),
{
    let mut parsed: Vec<ParsedHotKey<K>> = Vec::new();
    let mut i: usize = 0;
    while i < hotkeys.len()
        invariant
            0 <= i <= hotkeys@.len(),
            lookups@.len() == hotkeys@.len(),
            forall|k: int| 0 <= k < hotkeys@.len() ==> (#[trigger] lookups@[k]).modifiers@.len() == hotkeys@[k].modifier_keys@.len(),
            parsed@.len() == i,
            forall|j: int| 0 <= j < i ==> parse_error(#[trigger] hotkeys@[j], lookups@[j].trigger, lookups@[j].modifiers@) is None,
            forall|j: int| 0 <= j < i ==> parsed_from(#[trigger] parsed@[j], hotkeys@[j], lookups@[j].trigger, lookups@[j].modifiers@),
        decreases hotkeys@.len() - i,
    {
        let lookup = &lookups[i];
        assert(lookups@[i as int].modifiers@.len() == hotkeys@[i as int].modifier_keys@.len());
        match hotkeys[i].parse(lookup.trigger, &lookup.modifiers) {
            Ok(p) => {
                parsed.push(p);
            },
            Err(e) => {
                return Err(e);
            },
        }
        i = i + 1;
    }
    Ok(parsed)
}

/// The action of each configured binding, in registration order: the
/// switch-desktop bindings, then the move-window bindings.
pub open spec fn actions_of(settings: Settings) -> Seq<HotkeyAction> {
    Seq::new(
        (settings.switch_desktop_hotkeys@.len() + settings.move_window_hotkeys@.len()) as nat,
        |i: int|
            if i < settings.switch_desktop_hotkeys@.len() {
                HotkeyAction::SwitchDesktop { target: settings.switch_desktop_hotkeys@[i].target_desktop_index }
            } else {
                HotkeyAction::MoveWindow {
                    target: settings.move_window_hotkeys@[i - settings.switch_desktop_hotkeys@.len()].target_desktop_index,
                    follow: settings.follow_moved_windows,
                }
            },
    )
}

/// The action of each configured binding, in registration order.
pub fn hotkey_actions(settings: &Settings) -> (r: Vec<HotkeyAction>)
    requires
        settings.switch_desktop_hotkeys@.len() + settings.move_window_hotkeys@.len() <= usize::MAX,
    ensures
        r@ == actions_of(*settings),
{
    let mut r: Vec<HotkeyAction> = Vec::new();
    let switch = &settings.switch_desktop_hotkeys;
    let moves = &settings.move_window_hotkeys;
    let mut i: usize = 0;
    while i < switch.len()
        invariant
            0 <= i <= switch@.len(),
            switch == &settings.switch_desktop_hotkeys,
            r@ == actions_of(*settings).subrange(0, i as int),
        decreases switch@.len() - i,
    {
        r.push(HotkeyAction::SwitchDesktop { target: switch[i].target_desktop_index });
        i = i + 1;
        assert(r@ =~= actions_of(*settings).subrange(0, i as int));
    }
    let mut j: usize = 0;
    while j < moves.len()
        invariant
            0 <= j <= moves@.len(),
            switch == &settings.switch_desktop_hotkeys,
            moves == &settings.move_window_hotkeys,
            switch@.len() + moves@.len() <= usize::MAX,
            r@ == actions_of(*settings).subrange(0, switch@.len() + j),
        decreases moves@.len() - j,
    {
        r.push(HotkeyAction::MoveWindow {
            target: moves[j].target_desktop_index,
            follow: settings.follow_moved_windows,
        });
        j = j + 1;
        assert(r@ =~= actions_of(*settings).subrange(0, switch@.len() + j));
    }
    assert(r@ =~= actions_of(*settings));
    r
}

/// The commands of a triggered binding, given the number of desktops that
/// exist at trigger time and the window in the foreground. A target outside
/// the current desktop list issues nothing.
pub open spec fn commands_of(action: HotkeyAction, desktop_count: nat, window: u64) -> Seq<Command> {
    match action {
        HotkeyAction::SwitchDesktop { target } => if target < desktop_count {
            seq![Command::SwitchDesktop { desktop: target }]
        } else {
            seq![]
        },
        HotkeyAction::MoveWindow { target, follow } => if target >= desktop_count {
            seq![]
        } else if follow {
            seq![Command::MoveWindow { window, desktop: target }, Command::SwitchDesktop { desktop: target }]
        } else {
            seq![Command::MoveWindow { window, desktop: target }]
        },
    }
}

/// Decides what a triggered binding issues. `desktop_count` is the length of
/// the desktop list queried at trigger time; `window` the foreground window,
/// which only a move-window binding uses.
pub fn on_trigger(action: HotkeyAction, desktop_count: usize, window: u64) -> (r: Vec<Command>)
    ensures
        r@ == commands_of(action, desktop_count as nat, window),
{
    match action {
        HotkeyAction::SwitchDesktop { target } => {
            if (target as u64) < (desktop_count as u64) {
                vec![Command::SwitchDesktop { desktop: target }]
            } else {
                Vec::new()
            }
        },
        HotkeyAction::MoveWindow { target, follow } => {
            if (target as u64) >= (desktop_count as u64) {
                Vec::new()
            } else if follow {
                vec![Command::MoveWindow { window, desktop: target }, Command::SwitchDesktop { desktop: target }]
            } else {
                vec![Command::MoveWindow { window, desktop: target }]
            }
        },
    }
}

/// What the desktop manager holds, as far as the commands change it.
pub struct DesktopModel {
    pub desktop_count: nat,
    pub active: u32,
    pub window_desktop: Map<u64, u32>,
}

/// One command carried out by the desktop manager.
pub open spec fn apply_command(m: DesktopModel, c: Command) -> DesktopModel {
    match c {
        Command::SwitchDesktop { desktop } => DesktopModel { active: desktop, ..m },
        Command::MoveWindow { window, desktop } => DesktopModel {
            window_desktop: m.window_desktop.insert(window, desktop),
            ..m
        },
    }
}

pub open spec fn apply_commands(m: DesktopModel, cs: Seq<Command>) -> DesktopModel
    decreases cs.len(),
{
    if cs.len() == 0 {
        m
    } else {
        apply_commands(apply_command(m, cs[0]), cs.drop_first())
    }
}

/// A switch to a target at or past the end of the desktop list issues no
/// command and leaves the active desktop as it was; a target inside it
/// becomes the active desktop.
pub proof fn lemma_switch_target(m: DesktopModel, target: u32, window: u64)
    ensures
        target >= m.desktop_count ==> commands_of(HotkeyAction::SwitchDesktop { target }, m.desktop_count, window).len() == 0,
        target >= m.desktop_count ==> apply_commands(
            m,
            commands_of(HotkeyAction::SwitchDesktop { target }, m.desktop_count, window),
        ) == m,
        target < m.desktop_count ==> apply_commands(
            m,
            commands_of(HotkeyAction::SwitchDesktop { target }, m.desktop_count, window),
        ).active == target,
{
    if target < m.desktop_count {
        let cs = commands_of(HotkeyAction::SwitchDesktop { target }, m.desktop_count, window);
        let m1 = apply_command(m, cs[0]);
        assert(cs.drop_first().len() == 0);
        assert(apply_commands(m1, cs.drop_first()) == m1);
        assert(apply_commands(m, cs) == apply_commands(m1, cs.drop_first()));
    }
}

/// Moving the foreground window to a desktop that exists puts the window
/// there; the active desktop follows it when `follow` is set and stays as it
/// was otherwise. A target past the end of the list changes nothing.
pub proof fn lemma_move_window(m: DesktopModel, target: u32, follow: bool, window: u64)
    ensures
        ({
            let after = apply_commands(
                m,
                commands_of(HotkeyAction::MoveWindow { target, follow }, m.desktop_count, window),
            );
            &&& target < m.desktop_count ==> after.window_desktop.contains_key(window)
                && after.window_desktop[window] == target
            &&& target < m.desktop_count && follow ==> after.active == target
            &&& !follow ==> after.active == m.active
            &&& target >= m.desktop_count ==> after == m
        }),
{
    let cs = commands_of(HotkeyAction::MoveWindow { target, follow }, m.desktop_count, window);
    if target < m.desktop_count {
        let m1 = apply_command(m, cs[0]);
        assert(m1.window_desktop[window] == target);
        assert(apply_commands(m, cs) == apply_commands(m1, cs.drop_first()));
        if follow {
            let rest = cs.drop_first();
            let m2 = apply_command(m1, rest[0]);
            assert(rest.drop_first().len() == 0);
            assert(rest[0] == Command::SwitchDesktop { desktop: target });
            assert(apply_commands(m2, rest.drop_first()) == m2);
            assert(apply_commands(m1, rest) == apply_commands(m2, rest.drop_first()));
        } else {
            assert(cs.drop_first().len() == 0);
            assert(apply_commands(m1, cs.drop_first()) == m1);
        }
    }
}

/// A window as reported when the active desktop changes.
#[derive(Clone, Copy, Debug, PartialEq, Eq)]
pub struct WindowCandidate {
    pub id: u64,
    pub x: i32,
    pub y: i32,
    pub is_full_screen: bool,
    pub on_current_desktop: bool,
}

/// Minimized windows report non-positive coordinates; full-screen windows do
/// too and remain candidates.
pub open spec fn focusable(w: WindowCandidate) -> bool {
    (w.is_full_screen || (w.x > 0 && w.y > 0)) && w.on_current_desktop
}

/// The window to raise after the active desktop changed: the first that is
/// focusable, in the order the windows were enumerated.
pub fn focus_target(windows: &Vec<WindowCandidate>) -> (r: Option<u64>)
    ensures
        r is None <==> (forall|i: int| 0 <= i < windows@.len() ==> !focusable(#[trigger] windows@[i])),
        r is Some ==> exists|i: int|
            0 <= i < windows@.len() && focusable(windows@[i]) && windows@[i].id == r->0
            && forall|j: int| 0 <= j < i ==> !focusable(#[trigger] windows@[j]),
{
    let mut i: usize = 0;
    while i < windows.len()
        invariant
            0 <= i <= windows@.len(),
            forall|j: int| 0 <= j < i ==> !focusable(#[trigger] windows@[j]),
        decreases windows@.len() - i,
    {
        let w = windows[i];
        if (w.is_full_screen || (w.x > 0 && w.y > 0)) && w.on_current_desktop {
            assert(focusable(windows@[i as int]));
            return Some(w.id);
        }
        i = i + 1;
    }
    None
}

} // verus!
