//! The match-and-activate engine: the session's transition function.
//!
//! Every protocol notification the client cares about is first turned into a
//! plain value (an interface name, a window property, a lifecycle signal) by
//! the transport layer, then handed to one of the handlers here.  Each
//! handler returns the commands the transport must issue in response.  The
//! whole policy is also stated once, as the spec functions [`step`],
//! [`step_activates`] and [`step_prints`], which the handlers' contracts are
//! tied to and which the library's laws are proved over.

use vstd::prelude::*;

use crate::session::Session;
use crate::session::SessionView;
use crate::session::Toplevel;
use crate::session::ToplevelView;
use crate::text::contains_substr;
use crate::text::is_substring_of;
use crate::text::str_eq;

verus! {

/// A property-change notification for one tracked window.
pub enum ToplevelEvent {
    /// The window's title changed to the carried string.
    Title(String),
    /// The window's application id changed to the carried string.
    AppId(String),
    /// Any other notification for the window (state, parent, output,
    /// closed): accepted, deliberately without effect.
    Other,
}

/// The mathematical value of a [`ToplevelEvent`].
pub ghost enum ToplevelEventView {
    Title(Seq<char>),
    AppId(Seq<char>),
    Other,
}

impl View for ToplevelEvent {
    type V = ToplevelEventView;

    open spec fn view(&self) -> ToplevelEventView {
        match self {
            ToplevelEvent::Title(t) => ToplevelEventView::Title(t@),
            ToplevelEvent::AppId(a) => ToplevelEventView::AppId(a@),
            ToplevelEvent::Other => ToplevelEventView::Other,
        }
    }
}

/// A notification from the toplevel-manager capability.
pub enum ManagerEvent {
    /// The manager surfaced a new window.
    NewToplevel,
    /// The manager will emit nothing further; the run is over.
    Finished,
    /// Any other manager notification: accepted, deliberately without
    /// effect.
    Other,
}

/// The mathematical value of a [`ManagerEvent`].
pub ghost enum ManagerEventView {
    NewToplevel,
    Finished,
    Other,
}

impl View for ManagerEvent {
    type V = ManagerEventView;

    open spec fn view(&self) -> ManagerEventView {
        match self {
            ManagerEvent::NewToplevel => ManagerEventView::NewToplevel,
            ManagerEvent::Finished => ManagerEventView::Finished,
            ManagerEvent::Other => ManagerEventView::Other,
        }
    }
}

/// Every notification the session reacts to, as one ghost sum: a registry
/// advertisement, a manager signal, or a property event for the window at a
/// given index.  The laws about whole runs quantify over sequences of these.
pub ghost enum RunEventView {
    Global(Seq<char>),
    Manager(ManagerEventView),
    Handle(int, ToplevelEventView),
}

/// What the transport must do after a registry advertisement.
pub enum BindAction {
    /// Bind the advertised global as the toplevel-manager capability.
    BindManager,
    /// Bind the advertised global as the seat capability.
    BindSeat,
    /// Leave the advertised global unbound.
    Ignore,
}

/// What the transport must do after a manager notification.
pub enum ManagerDirective {
    /// Start listening to the new window's events; the session will track it
    /// under the carried index.
    Track(usize),
    /// Leave the run loop and end the process normally.
    Exit,
    /// Nothing.
    Ignore,
}

/// What the transport must do after a window property event.
pub struct Response {
    /// Issue the activation command on the window the event came from, with
    /// the bound seat as the actor.
    pub activate: bool,
    /// Tell the manager to stop surfacing windows.
    pub stop_manager: bool,
    /// Print this line on standard output.
    pub print_line: Option<String>,
}

/// The interface name under which the compositor advertises the
/// toplevel-manager capability.
pub open spec fn manager_interface() -> Seq<char> {
    "zwlr_foreign_toplevel_manager_v1"@
}

/// The interface name under which the compositor advertises the seat
/// capability.
pub open spec fn seat_interface() -> Seq<char> {
    "wl_seat"@
}

/// The protocol version the manager capability is bound at.
pub const MANAGER_BIND_VERSION: u32 = 3;

/// The protocol version the seat capability is bound at.
pub const SEAT_BIND_VERSION: u32 = 8;

/// Whether the session may still activate a window at all: not in list
/// mode, not already activated, and both capabilities bound.
pub open spec fn ready(s: SessionView) -> bool {
    &&& !s.list_app_id
    &&& !s.activated
    &&& s.seat_bound
    &&& s.manager_bound
}

/// The title rule: the target is set, and the title equals it, or contains
/// it when substring mode is on.
pub open spec fn title_matches(target: Seq<char>, contains: bool, title: Seq<char>) -> bool {
    target.len() > 0 && (title == target || (contains && is_substring_of(target, title)))
}

/// The application-id rule: the target is set and the id equals it exactly.
pub open spec fn app_id_matches(target: Seq<char>, app_id: Seq<char>) -> bool {
    target.len() > 0 && app_id == target
}

/// Whether one event makes the session issue the activation command.
pub open spec fn step_activates(s: SessionView, e: RunEventView) -> bool {
    ready(s) && match e {
        RunEventView::Handle(_, ToplevelEventView::Title(t)) => title_matches(
            s.title,
            s.contains,
            t,
        ),
        RunEventView::Handle(_, ToplevelEventView::AppId(a)) => app_id_matches(s.app_id, a),
        _ => false,
    }
}

/// The line one event makes the session print, if any: in list mode, every
/// application-id update is printed, verbatim and without deduplication.
pub open spec fn step_prints(s: SessionView, e: RunEventView) -> Option<Seq<char>> {
    match e {
        RunEventView::Handle(_, ToplevelEventView::AppId(a)) => if s.list_app_id {
            Option::Some(a)
        } else {
            Option::None
        },
        _ => Option::None,
    }
}

/// The session state after one event.
///
/// A registry advertisement of a known interface marks that capability
/// bound; a new window is tracked with empty properties; the manager's
/// finished signal clears the running flag; a property event overwrites the
/// stored property of the window it names, and marks the session activated
/// when it fires the activation.
pub open spec fn step(s: SessionView, e: RunEventView) -> SessionView {
    match e {
        RunEventView::Global(iface) => if iface == manager_interface() {
            SessionView { manager_bound: true, ..s }
        } else if iface == seat_interface() {
            SessionView { seat_bound: true, ..s }
        } else {
            s
        },
        RunEventView::Manager(ManagerEventView::NewToplevel) => SessionView {
            toplevels: s.toplevels.push(
                ToplevelView { title: Seq::empty(), app_id: Seq::empty() },
            ),
            ..s
        },
        RunEventView::Manager(ManagerEventView::Finished) => SessionView { running: false, ..s },
        RunEventView::Manager(ManagerEventView::Other) => s,
        RunEventView::Handle(i, ev) => {
            let stored = if 0 <= i < s.toplevels.len() {
                match ev {
                    ToplevelEventView::Title(t) => SessionView {
                        toplevels: s.toplevels.update(
                            i,
                            ToplevelView { title: t, ..s.toplevels[i] },
                        ),
                        ..s
                    },
                    ToplevelEventView::AppId(a) => SessionView {
                        toplevels: s.toplevels.update(
                            i,
                            ToplevelView { app_id: a, ..s.toplevels[i] },
                        ),
                        ..s
                    },
                    ToplevelEventView::Other => s,
                }
            } else {
                s
            };
            if step_activates(s, e) {
                SessionView { activated: true, ..stored }
            } else {
                stored
            }
        },
    }
}

/// The executable title rule; equal to the spec-level [`title_matches`].
pub fn title_rule(target: &String, contains: bool, title: &String) -> (r: bool)
    ensures
        r == title_matches(target@, contains, title@),
{
    if target.as_str().is_empty() {
        return false;
    }
    if *title == *target {
        return true;
    }
    if contains {
        contains_substr(title.as_str(), target.as_str())
    } else {
        false
    }
}

/// The executable application-id rule; equal to the spec-level
/// [`app_id_matches`].
pub fn app_id_rule(target: &String, app_id: &String) -> (r: bool)
    ensures
        r == app_id_matches(target@, app_id@),
{
    if target.as_str().is_empty() {
        false
    } else {
        *app_id == *target
    }
}

impl Session {
    /// Handles one registry advertisement, given its interface name.
    ///
    /// The two needed capabilities are each bound at most once: a repeated
    /// advertisement of an already-bound interface is ignored, as is every
    /// unknown interface.
    pub fn on_global(&mut self, interface: &str) -> (a: BindAction)
        ensures
            final(self)@ == step(old(self)@, RunEventView::Global(interface@)),
            (a is BindManager) <==> (interface@ == manager_interface() && !old(
                self,
            )@.manager_bound),
            (a is BindSeat) <==> (interface@ == seat_interface() && !old(self)@.seat_bound),
    {
        proof {
            reveal_strlit("zwlr_foreign_toplevel_manager_v1");
            reveal_strlit("wl_seat");
            assert(manager_interface().len() == 32);
            assert(seat_interface().len() == 7);
        }
        if str_eq(interface, "zwlr_foreign_toplevel_manager_v1") {
            if !self.manager_bound {
                self.manager_bound = true;
                proof {
                    assert(self@ =~= step(old(self)@, RunEventView::Global(interface@)));
                }
                return BindAction::BindManager;
            }
            proof {
                assert(self@ =~= step(old(self)@, RunEventView::Global(interface@)));
            }
            BindAction::Ignore
        } else if str_eq(interface, "wl_seat") {
            if !self.seat_bound {
                self.seat_bound = true;
                proof {
                    assert(self@ =~= step(old(self)@, RunEventView::Global(interface@)));
                }
                return BindAction::BindSeat;
            }
            proof {
                assert(self@ =~= step(old(self)@, RunEventView::Global(interface@)));
            }
            BindAction::Ignore
        } else {
            BindAction::Ignore
        }
    }

    /// Handles one notification from the manager capability.
    ///
    /// A new window is tracked, with empty properties, under the index the
    /// directive carries; the finished signal clears the running flag and
    /// tells the caller to end the run.
    pub fn on_manager_event(&mut self, event: ManagerEvent) -> (d: ManagerDirective)
        ensures
            final(self)@ == step(old(self)@, RunEventView::Manager(event@)),
            (d is Exit) <==> (event is Finished),
            (event is NewToplevel) ==> (d matches ManagerDirective::Track(i) && i == old(
                self,
            )@.toplevels.len()),
            (event is Other) ==> (d is Ignore),
    {
        match event {
            ManagerEvent::NewToplevel => {
                let idx = self.toplevels.len();
                self.toplevels.push(Toplevel { title: String::new(), app_id: String::new() });
                proof {
                    assert(self@.toplevels =~= old(self)@.toplevels.push(
                        ToplevelView { title: Seq::empty(), app_id: Seq::empty() },
                    ));
                    assert(self@ =~= step(old(self)@, RunEventView::Manager(event@)));
                }
                ManagerDirective::Track(idx)
            },
            ManagerEvent::Finished => {
                self.running = false;
                proof {
                    assert(self@ =~= step(old(self)@, RunEventView::Manager(event@)));
                }
                ManagerDirective::Exit
            },
            ManagerEvent::Other => ManagerDirective::Ignore,
        }
    }

    /// Handles one property event for the window tracked at `idx`.
    ///
    /// The stored property is overwritten; the activation fires exactly when
    /// [`step_activates`] says so, and the manager is stopped exactly then;
    /// in list mode every application-id update is printed.
    pub fn on_toplevel_event(&mut self, idx: usize, event: ToplevelEvent) -> (r: Response)
        requires
            idx < old(self)@.toplevels.len(),
        ensures
            final(self)@ == step(old(self)@, RunEventView::Handle(idx as int, event@)),
            r.activate == step_activates(old(self)@, RunEventView::Handle(idx as int, event@)),
            r.stop_manager == r.activate,
            (match step_prints(old(self)@, RunEventView::Handle(idx as int, event@)) {
                Option::Some(line) => r.print_line matches Option::Some(p) && p@ == line,
                Option::None => r.print_line is None,
            }),
    {
        match event {
            ToplevelEvent::Title(t) => {
                let fire = !self.list_app_id && !self.activated && self.seat_bound
                    && self.manager_bound && title_rule(&self.title, self.contains, &t);
                self.toplevels[idx].title = t;
                if fire {
                    self.activated = true;
                }
                proof {
                    assert(self@.toplevels =~= step(
                        old(self)@,
                        RunEventView::Handle(idx as int, event@),
                    ).toplevels);
                    assert(self@ =~= step(old(self)@, RunEventView::Handle(idx as int, event@)));
                }
                Response { activate: fire, stop_manager: fire, print_line: Option::None }
            },
            ToplevelEvent::AppId(a) => {
                let fire = !self.list_app_id && !self.activated && self.seat_bound
                    && self.manager_bound && app_id_rule(&self.app_id, &a);
                let line = if self.list_app_id {
                    Option::Some(a.clone())
                } else {
                    Option::None
                };
                self.toplevels[idx].app_id = a;
                if fire {
                    self.activated = true;
                }
                proof {
                    assert(self@.toplevels =~= step(
                        old(self)@,
                        RunEventView::Handle(idx as int, event@),
                    ).toplevels);
                    assert(self@ =~= step(old(self)@, RunEventView::Handle(idx as int, event@)));
                }
                Response { activate: fire, stop_manager: fire, print_line: line }
            },
            ToplevelEvent::Other => {
                Response { activate: false, stop_manager: false, print_line: Option::None }
            },
        }
    }
}

} // verus!
