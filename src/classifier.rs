//! Decides whether a top-level window is a real, user-facing application
//! window worth tracking.
use vstd::prelude::*;
use crate::registry::WindowKey;

verus! {

/// Extended style bit of an auxiliary floating palette window.
pub const WS_EX_TOOLWINDOW: u32 = 0x0000_0080;

/// Extended style bit of a window that asks for a taskbar button.
pub const WS_EX_APPWINDOW: u32 = 0x0004_0000;

/// What the window system reports about one window.
pub struct WindowFacts {
    /// The window is visible (a minimised window counts as visible).
    pub visible: bool,
    /// Extended style bits.
    pub ex_style: u32,
    /// Window class name.
    pub class_name: String,
    /// The window's root owner; the window itself when it has no owner.
    pub root_owner: WindowKey,
    /// The window's last active popup; the window itself when it has none.
    pub last_active_popup: WindowKey,
    /// Whether that popup is visible.
    pub popup_visible: bool,
    /// Compositor cloaking attribute; `None` when the query failed.
    pub cloaked: Option<u32>,
}

/// Class name of the frame that hosts modern applications of another process.
pub open spec fn host_frame_class(name: Seq<char>) -> bool {
    name == "ApplicationFrameWindow"@
}

/// The window is an auxiliary floating palette.
pub open spec fn is_tool_window(ex_style: u32) -> bool {
    ex_style & WS_EX_TOOLWINDOW != 0
}

/// The window asks for a taskbar button.
pub open spec fn requests_taskbar(ex_style: u32) -> bool {
    ex_style & WS_EX_APPWINDOW != 0
}

/// A failed cloaking query counts as not cloaked.
pub open spec fn is_cloaked(state: Option<u32>) -> bool {
    match state {
        Some(v) => v != 0,
        None => false,
    }
}

/// The six rules, all of which a tracked window must pass.
pub open spec fn candidate(key: WindowKey, f: WindowFacts) -> bool {
    let host = host_frame_class(f.class_name@);
    &&& f.visible
    &&& !is_tool_window(f.ex_style)
    &&& (f.root_owner == key || requests_taskbar(f.ex_style) || host)
    &&& !(!host && f.last_active_popup != key && !f.popup_visible)
    &&& !is_cloaked(f.cloaked)
}

/// Whether a window class is the host frame of modern applications.
pub fn is_application_frame_window(class_name: &String) -> (r: bool)
    ensures
        r == host_frame_class(class_name@),
{
    let frame = String::from_str("ApplicationFrameWindow");
    *class_name == frame
}

/// Applies the rules in order and rejects on the first that fails.
pub fn is_candidate(key: WindowKey, facts: &WindowFacts) -> (r: bool)
    ensures
        r == candidate(key, *facts),
{
    if !facts.visible {
        return false;
    }
    if facts.ex_style & WS_EX_TOOLWINDOW != 0 {
        return false;
    }
    let host = is_application_frame_window(&facts.class_name);
    let has_appwindow = facts.ex_style & WS_EX_APPWINDOW != 0;
    if facts.root_owner != key && !has_appwindow && !host {
        return false;
    }
    if !host && facts.last_active_popup != key && !facts.popup_visible {
        return false;
    }
    let cloaked = match facts.cloaked {
        Some(v) => v != 0,
        None => false,
    };
    !cloaked
}

/// A cloaked window is never a candidate, whatever else holds of it.
pub proof fn lemma_cloaked_is_rejected(key: WindowKey, facts: WindowFacts)
    requires
        is_cloaked(facts.cloaked),
    ensures
        !candidate(key, facts),
{
}

/// A tool window that neither asks for a taskbar button nor is a host frame
/// is rejected, whether or not it is visible or owned.
pub proof fn lemma_tool_window_is_rejected(key: WindowKey, facts: WindowFacts)
    requires
        is_tool_window(facts.ex_style),
        !requests_taskbar(facts.ex_style),
        !host_frame_class(facts.class_name@),
    ensures
        !candidate(key, facts),
{
}

} // verus!
