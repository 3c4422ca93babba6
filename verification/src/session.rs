//! The process-wide session state and its mathematical view.
//!
//! One `Session` exists per run.  It holds the match predicate chosen at
//! startup, the flags that drive the run loop, and the properties reported
//! so far for every window the manager has surfaced.

use vstd::prelude::*;

verus! {

/// One tracked window: the properties reported for it so far.
///
/// A window starts with both properties empty; they are overwritten as the
/// compositor reports changes.
pub struct Toplevel {
    pub title: String,
    pub app_id: String,
}

/// The mathematical value of a [`Toplevel`].
pub ghost struct ToplevelView {
    pub title: Seq<char>,
    pub app_id: Seq<char>,
}

impl View for Toplevel {
    type V = ToplevelView;

    open spec fn view(&self) -> ToplevelView {
        ToplevelView { title: self.title@, app_id: self.app_id@ }
    }
}

/// The process-wide state.
///
/// `title` and `app_id` are the match targets; an empty string means the
/// corresponding rule is unused.  `contains` switches the title rule from
/// exact equality to substring search.  `list_app_id` switches the whole
/// client from activating to printing application ids.  `seat_bound` and
/// `manager_bound` record which of the two needed capabilities have been
/// resolved from the registry, and `activated` records whether the one
/// permitted activation has already been issued.
pub struct Session {
    pub title: String,
    pub app_id: String,
    pub contains: bool,
    pub list_app_id: bool,
    pub running: bool,
    pub seat_bound: bool,
    pub manager_bound: bool,
    pub activated: bool,
    pub toplevels: Vec<Toplevel>,
}

/// The mathematical value of a [`Session`].
#[verifier::ext_equal]
pub ghost struct SessionView {
    pub title: Seq<char>,
    pub app_id: Seq<char>,
    pub contains: bool,
    pub list_app_id: bool,
    pub running: bool,
    pub seat_bound: bool,
    pub manager_bound: bool,
    pub activated: bool,
    pub toplevels: Seq<ToplevelView>,
}

impl View for Session {
    type V = SessionView;

    open spec fn view(&self) -> SessionView {
        SessionView {
            title: self.title@,
            app_id: self.app_id@,
            contains: self.contains,
            list_app_id: self.list_app_id,
            running: self.running,
            seat_bound: self.seat_bound,
            manager_bound: self.manager_bound,
            activated: self.activated,
            toplevels: self.toplevels@.map_values(|t: Toplevel| t@),
        }
    }
}

/// The one startup failure: no title, no application id, and list mode off.
#[derive(Debug)]
pub enum ConfigError {
    NoTarget,
}

impl ConfigError {
    /// A human-readable description of the failure.
    pub fn message(&self) -> (m: String)
        ensures
            m@ == "You must specify either a title or an app_id"@,
    {
        "You must specify either a title or an app_id".to_owned()
    }
}

impl Session {
    /// Validates the requested predicate and builds the initial session.
    ///
    /// The request is rejected exactly when it names nothing to do: no
    /// title, no application id, and list mode off.  An absent target is
    /// stored as the empty string, which the match rules treat as unused.
    pub fn new(title: Option<String>, app_id: Option<String>, contains: bool, list_app_id: bool) -> (r:
        Result<Session, ConfigError>)
        ensures
            (r is Err) <==> (title is None && app_id is None && !list_app_id),
            r matches Ok(s) ==> {
                &&& s@.title == (match title {
                    Option::Some(t) => t@,
                    Option::None => Seq::<char>::empty(),
                })
                &&& s@.app_id == (match app_id {
                    Option::Some(a) => a@,
                    Option::None => Seq::<char>::empty(),
                })
                &&& s@.contains == contains
                &&& s@.list_app_id == list_app_id
                &&& s@.running
                &&& !s@.seat_bound
                &&& !s@.manager_bound
                &&& !s@.activated
                &&& s@.toplevels =~= Seq::<ToplevelView>::empty()
            },
    {
        if title.is_none() && app_id.is_none() && !list_app_id {
            return Result::Err(ConfigError::NoTarget);
        }
        let t = match title {
            Option::Some(t) => t,
            Option::None => String::new(),
        };
        let a = match app_id {
            Option::Some(a) => a,
            Option::None => String::new(),
        };
        Result::Ok(
            Session {
                title: t,
                app_id: a,
                contains,
                list_app_id,
                running: true,
                seat_bound: false,
                manager_bound: false,
                activated: false,
                toplevels: Vec::new(),
            },
        )
    }

    /// Whether the run loop should keep dispatching.
    pub fn is_running(&self) -> (b: bool)
        ensures
            b == self@.running,
    {
        self.running
    }

    /// How many windows the session tracks so far.
    pub fn toplevel_count(&self) -> (n: usize)
        ensures
            n == self@.toplevels.len(),
    {
        self.toplevels.len()
    }
}

} // verus!
