//! Turns window lifecycle notifications into registry updates, and primes
//! the registry from the windows already open at startup.
use vstd::prelude::*;
use crate::classifier::{candidate, host_frame_class, is_application_frame_window, is_candidate, WindowFacts};
use crate::registry::{entry_of, EntryView, Registry, WindowKey};
use crate::resolver::{resolve_owner, resolved_owner};

verus! {

pub const EVENT_OBJECT_CREATE: u32 = 0x8000;
pub const EVENT_OBJECT_DESTROY: u32 = 0x8001;
pub const EVENT_OBJECT_SHOW: u32 = 0x8002;
pub const EVENT_OBJECT_HIDE: u32 = 0x8003;
pub const EVENT_OBJECT_NAMECHANGE: u32 = 0x800C;
pub const EVENT_OBJECT_CLOAKED: u32 = 0x8017;
pub const EVENT_OBJECT_UNCLOAKED: u32 = 0x8018;

/// Object identifier of a notification that concerns the window itself.
pub const OBJID_WINDOW: i32 = 0;

/// The three kinds of notification that the registry reacts to.
#[derive(PartialEq, Eq, Structural, Clone, Copy, Debug)]
pub enum EventClass {
    Appeared,
    Renamed,
    Disappeared,
}

/// The class of a raw notification, or `None` when it must be ignored: it
/// concerns a sub-object rather than the window, carries no window, or has a
/// code outside the three classes.
pub open spec fn notification_class(event: u32, id_object: i32, key: WindowKey) -> Option<EventClass> {
    if id_object != OBJID_WINDOW || key == 0 {
        None
    } else if event == EVENT_OBJECT_CREATE || event == EVENT_OBJECT_SHOW || event == EVENT_OBJECT_UNCLOAKED {
        Some(EventClass::Appeared)
    } else if event == EVENT_OBJECT_NAMECHANGE {
        Some(EventClass::Renamed)
    } else if event == EVENT_OBJECT_HIDE || event == EVENT_OBJECT_DESTROY || event == EVENT_OBJECT_CLOAKED {
        Some(EventClass::Disappeared)
    } else {
        None
    }
}

/// Filters and classifies one raw notification.
pub fn classify_notification(event: u32, id_object: i32, key: WindowKey) -> (r: Option<EventClass>)
    ensures
        r == notification_class(event, id_object, key),
{
    if id_object != OBJID_WINDOW || key == 0 {
        None
    } else if event == EVENT_OBJECT_CREATE || event == EVENT_OBJECT_SHOW || event == EVENT_OBJECT_UNCLOAKED {
        Some(EventClass::Appeared)
    } else if event == EVENT_OBJECT_NAMECHANGE {
        Some(EventClass::Renamed)
    } else if event == EVENT_OBJECT_HIDE || event == EVENT_OBJECT_DESTROY || event == EVENT_OBJECT_CLOAKED {
        Some(EventClass::Disappeared)
    } else {
        None
    }
}

/// What was read from the window system about a window that appeared.
pub struct Observation {
    pub facts: WindowFacts,
    /// Process reported as the window's owner.
    pub raw_pid: u32,
    /// Owners of the window's descendants, in enumeration order.
    pub descendant_pids: Vec<u32>,
    /// Current title; may be empty.
    pub title: String,
}

/// A typed lifecycle event.
pub enum WindowEvent {
    Appeared(WindowKey, Observation),
    Renamed(WindowKey, String),
    Disappeared(WindowKey),
}

/// The true owner of an observed window.
pub open spec fn observed_owner(o: Observation) -> u32 {
    resolved_owner(host_frame_class(o.facts.class_name@), o.raw_pid, o.descendant_pids@)
}

/// Effect of one event on the registry's contents.
pub open spec fn apply_event(m: Map<WindowKey, EntryView>, e: WindowEvent) -> Map<WindowKey, EntryView> {
    match e {
        WindowEvent::Appeared(k, o) => if candidate(k, o.facts) {
            m.insert(k, entry_of(observed_owner(o), o.title@))
        } else {
            m
        },
        WindowEvent::Renamed(k, t) => if m.contains_key(k) {
            m.insert(k, entry_of(m[k].pid, t@))
        } else {
            m
        },
        WindowEvent::Disappeared(k) => m.remove(k),
    }
}

/// Contents after replaying `events`, in arrival order, from empty.
pub open spec fn replay_events(events: Seq<WindowEvent>) -> Map<WindowKey, EntryView>
    decreases events.len(),
{
    if events.len() == 0 {
        Map::empty()
    } else {
        apply_event(replay_events(events.drop_last()), events.last())
    }
}

/// Effect of seeding one already open window.
pub open spec fn seed_effect(m: Map<WindowKey, EntryView>, k: WindowKey, o: Observation) -> Map<WindowKey, EntryView> {
    if candidate(k, o.facts) && observed_owner(o) != 0 {
        m.insert(k, entry_of(observed_owner(o), o.title@))
    } else {
        m
    }
}

/// The true owner of an observed window.
pub fn owner_of(o: &Observation) -> (r: u32)
    ensures
        r == observed_owner(*o),
{
    let host = is_application_frame_window(&o.facts.class_name);
    resolve_owner(host, o.raw_pid, o.descendant_pids.as_slice())
}

impl Registry {
    /// Applies one lifecycle event.
    pub fn dispatch(&mut self, event: WindowEvent)
        ensures
            final(self)@ == apply_event(old(self)@, event),
    {
        match event {
            WindowEvent::Appeared(key, o) => {
                if is_candidate(key, &o.facts) {
                    let pid = owner_of(&o);
                    self.upsert(key, pid, o.title);
                }
            },
            WindowEvent::Renamed(key, title) => {
                self.update_title(key, title);
            },
            WindowEvent::Disappeared(key) => {
                self.remove(key);
            },
        }
    }

    /// Adds a window found open at startup, unless it is no candidate or its
    /// owner cannot be resolved.
    pub fn seed_window(&mut self, key: WindowKey, o: Observation)
        ensures
            final(self)@ == seed_effect(old(self)@, key, o),
    {
        if !is_candidate(key, &o.facts) {
            return;
        }
        let pid = owner_of(&o);
        if pid == 0 {
            return;
        }
        self.upsert(key, pid, o.title);
    }
}

/// Replays `events` in arrival order against an empty registry.
pub fn replay(events: Vec<WindowEvent>) -> (r: Registry)
    ensures
        r@ == replay_events(events@),
{
    let ghost all = events@;
    let mut rest = events;
    let mut r = Registry::new();
    let ghost mut done: int = 0;
    assert(all.subrange(0, 0) =~= Seq::<WindowEvent>::empty());
    assert(all.subrange(0, all.len() as int) =~= all);
    while rest.len() > 0
        invariant
            0 <= done <= all.len(),
            rest@ == all.subrange(done, all.len() as int),
            r@ == replay_events(all.subrange(0, done)),
        decreases rest@.len(),
    {
        let e = rest.remove(0);
        assert(all.subrange(0, done + 1).drop_last() =~= all.subrange(0, done));
        r.dispatch(e);
        proof {
            done = done + 1;
        }
        assert(rest@ =~= all.subrange(done, all.len() as int));
    }
    assert(all.subrange(0, done) =~= all);
    r
}

/// Replaying one more event applies it to the result of the earlier ones, so
/// events take effect exactly in arrival order.
pub proof fn lemma_replay_appends(events: Seq<WindowEvent>, e: WindowEvent)
    ensures
        replay_events(events.push(e)) == apply_event(replay_events(events), e),
{
    assert(events.push(e).drop_last() =~= events);
}

/// A disappearance removes the window whatever was known of it, and a rename
/// or a disappearance of an untracked window changes nothing.
pub proof fn lemma_untracked_events(m: Map<WindowKey, EntryView>, k: WindowKey, t: String)
    ensures
        !apply_event(m, WindowEvent::Disappeared(k)).contains_key(k),
        !m.contains_key(k) ==> apply_event(m, WindowEvent::Disappeared(k)) == m,
        !m.contains_key(k) ==> apply_event(m, WindowEvent::Renamed(k, t)) == m,
{
    assert(!m.contains_key(k) ==> m.remove(k) =~= m);
}

} // verus!
