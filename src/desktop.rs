//! Desktop identities and the classification of raw desktop-manager events.
use vstd::prelude::*;

verus! {

/// A snapshot of one desktop's identity at query time.
#[derive(Clone, Debug, PartialEq, Eq)]
pub struct DesktopInfo {
    pub name: String,
    pub index: u32,
}

impl DesktopInfo {
    pub fn new(name: String, index: u32) -> (r: DesktopInfo)
        ensures
            r.name@ == name@,
            r.index == index,
    {
        DesktopInfo { name, index }
    }

    /// A field-by-field copy whose contents Verus knows.
    pub fn duplicate(&self) -> (r: DesktopInfo)
        ensures
            r.name@ == self.name@,
            r.index == self.index,
    {
        DesktopInfo { name: self.name.clone(), index: self.index }
    }
}

/// A raw notification of the desktop manager. Desktops are identified by
/// their position in the desktop list at the time the event is read.
#[derive(Clone, Debug, PartialEq, Eq)]
pub enum RawEvent {
    Created { desktop: u32 },
    Destroyed { destroyed: u32, fallback: u32 },
    Changed { new: u32, old: u32 },
    NameChanged { desktop: u32, name: String },
    WallpaperChanged { desktop: u32, path: String },
    Moved { desktop: u32, old_index: i64, new_index: i64 },
    WindowChanged { window: u64 },
}

/// Which of the two derived signal streams a raw event feeds.
#[derive(Clone, Copy, Debug, PartialEq, Eq)]
pub struct Signals {
    pub active_changed: bool,
    pub set_changed: bool,
}

/// The active desktop is reported anew on creation, destruction, a switch,
/// a move, and on a rename of the desktop that is currently active.
pub open spec fn fires_active_changed(event: RawEvent, current: u32) -> bool {
    match event {
        RawEvent::Created { .. } => true,
        RawEvent::Destroyed { .. } => true,
        RawEvent::Changed { .. } => true,
        RawEvent::NameChanged { desktop, .. } => desktop == current,
        RawEvent::Moved { .. } => true,
        RawEvent::WallpaperChanged { .. } => false,
        RawEvent::WindowChanged { .. } => false,
    }
}

/// The desktop list is reported anew on creation, destruction, a rename and
/// a move; a switch leaves the set of desktops as it was.
pub open spec fn fires_set_changed(event: RawEvent) -> bool {
    match event {
        RawEvent::Created { .. } => true,
        RawEvent::Destroyed { .. } => true,
        RawEvent::NameChanged { .. } => true,
        RawEvent::Moved { .. } => true,
        RawEvent::Changed { .. } => false,
        RawEvent::WallpaperChanged { .. } => false,
        RawEvent::WindowChanged { .. } => false,
    }
}

/// Classifies a raw event against the freshly queried active desktop.
pub fn classify(event: &RawEvent, current: u32) -> (r: Signals)
    ensures
        r.active_changed == fires_active_changed(*event, current),
        r.set_changed == fires_set_changed(*event),
{
    match event {
        RawEvent::Created { .. } => Signals { active_changed: true, set_changed: true },
        RawEvent::Destroyed { .. } => Signals { active_changed: true, set_changed: true },
        RawEvent::Changed { .. } => Signals { active_changed: true, set_changed: false },
        RawEvent::NameChanged { desktop, .. } => Signals {
            active_changed: *desktop == current,
            set_changed: true,
        },
        RawEvent::Moved { .. } => Signals { active_changed: true, set_changed: true },
        RawEvent::WallpaperChanged { .. } => Signals { active_changed: false, set_changed: false },
        RawEvent::WindowChanged { .. } => Signals { active_changed: false, set_changed: false },
    }
}

/// What the hub's worker does for one raw event.
#[derive(Clone, Debug, PartialEq, Eq)]
pub struct EventPlan {
    /// The active desktop to broadcast on the active-changed stream, if any.
    pub broadcast_active: Option<DesktopInfo>,
    /// Whether to query the desktop list and broadcast it on the
    /// set-changed stream.
    pub refresh_desktops: bool,
}

/// Decides the broadcasts for one raw event. `current` is the active desktop
/// as queried after the event arrived, `None` where that query failed: then
/// no active desktop is broadcast, and the set-changed stream is served as
/// the event asks.
pub fn plan_event(event: &RawEvent, current: Option<DesktopInfo>) -> (r: EventPlan)
    ensures
        r.refresh_desktops == fires_set_changed(*event),
        match current {
            Some(c) => if fires_active_changed(*event, c.index) {
                r.broadcast_active == Some(c)
            } else {
                r.broadcast_active.is_none()
            },
            None => r.broadcast_active.is_none(),
        },
{
    let refresh_desktops = match event {
        RawEvent::Created { .. } | RawEvent::Destroyed { .. } | RawEvent::NameChanged { .. } | RawEvent::Moved {
            ..
        } => true,
        _ => false,
    };
    match current {
        Some(c) => {
            let signals = classify(event, c.index);
            if signals.active_changed {
                EventPlan { broadcast_active: Some(c), refresh_desktops }
            } else {
                EventPlan { broadcast_active: None, refresh_desktops }
            }
        },
        None => EventPlan { broadcast_active: None, refresh_desktops },
    }
}

/// A rename of the active desktop feeds both streams; a rename of any other
/// desktop feeds only the set-changed stream.
pub proof fn lemma_rename_signals(desktop: u32, name: String, current: u32)
    ensures
        fires_set_changed(RawEvent::NameChanged { desktop, name }),
        fires_active_changed(RawEvent::NameChanged { desktop, name }, current)
            <==> desktop == current,
{
}

/// A switch of the active desktop never feeds the set-changed stream, and
/// always feeds the active-changed stream.
pub proof fn lemma_switch_signals(new: u32, old: u32, current: u32)
    ensures
        !fires_set_changed(RawEvent::Changed { new, old }),
        fires_active_changed(RawEvent::Changed { new, old }, current),
{
}

} // verus!
