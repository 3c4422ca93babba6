//! Laws of the engine, stated over whole runs of events.
//!
//! A run is the fold of [`step`] over a sequence of events from an initial
//! session.  The lemmas here pin down the behaviours the client promises
//! across a run: each match rule fires exactly when its predicate holds, an
//! activation is issued at most once per run, and list mode prints every
//! application-id update, in order, without ever activating.

use vstd::prelude::*;

use crate::engine::app_id_matches;
use crate::engine::ready;
use crate::engine::step;
use crate::engine::step_activates;
use crate::engine::step_prints;
use crate::engine::title_matches;
use crate::engine::RunEventView;
use crate::engine::ToplevelEventView;
use crate::session::SessionView;
use crate::text::is_substring_of;

verus! {

/// The session state after a whole run of events.
pub open spec fn run(s: SessionView, evs: Seq<RunEventView>) -> SessionView
    decreases evs.len(),
{
    if evs.len() == 0 {
        s
    } else {
        step(run(s, evs.drop_last()), evs.last())
    }
}

/// How many activation commands a run of events issues.
pub open spec fn activations(s: SessionView, evs: Seq<RunEventView>) -> nat
    decreases evs.len(),
{
    if evs.len() == 0 {
        0nat
    } else {
        activations(s, evs.drop_last()) + (if step_activates(run(s, evs.drop_last()), evs.last()) {
            1nat
        } else {
            0nat
        })
    }
}

/// The lines a run of events prints, in order.
pub open spec fn prints(s: SessionView, evs: Seq<RunEventView>) -> Seq<Seq<char>>
    decreases evs.len(),
{
    if evs.len() == 0 {
        Seq::empty()
    } else {
        match step_prints(run(s, evs.drop_last()), evs.last()) {
            Option::Some(line) => prints(s, evs.drop_last()).push(line),
            Option::None => prints(s, evs.drop_last()),
        }
    }
}

/// The application-id payloads carried by a sequence of events, in order.
pub open spec fn app_id_updates(evs: Seq<RunEventView>) -> Seq<Seq<char>>
    decreases evs.len(),
{
    if evs.len() == 0 {
        Seq::empty()
    } else {
        match evs.last() {
            RunEventView::Handle(_, ToplevelEventView::AppId(a)) => app_id_updates(
                evs.drop_last(),
            ).push(a),
            _ => app_id_updates(evs.drop_last()),
        }
    }
}

/// No event changes the predicate chosen at startup: target title, target
/// application id, substring mode and list mode survive any run.
pub proof fn lemma_config_stable(s: SessionView, evs: Seq<RunEventView>)
    ensures
        run(s, evs).title == s.title,
        run(s, evs).app_id == s.app_id,
        run(s, evs).contains == s.contains,
        run(s, evs).list_app_id == s.list_app_id,
    decreases evs.len(),
{
    if evs.len() > 0 {
        lemma_config_stable(s, evs.drop_last());
    }
}

/// With the title target set and substring mode off, a title event fires the
/// activation exactly when the session is ready to activate and the new
/// title equals the target; in particular a proper superstring never fires.
pub proof fn lemma_title_exact_match(s: SessionView, i: int, t: Seq<char>)
    requires
        s.title.len() > 0,
        !s.contains,
    ensures
        step_activates(s, RunEventView::Handle(i, ToplevelEventView::Title(t))) <==> (ready(s) && t
            == s.title),
{
}

/// With substring mode on, a title event fires the activation exactly when
/// the session is ready, the title target is set, and the target occurs in
/// the new title; an equal title counts as containing the target.
pub proof fn lemma_title_contains_match(s: SessionView, i: int, t: Seq<char>)
    requires
        s.contains,
    ensures
        step_activates(s, RunEventView::Handle(i, ToplevelEventView::Title(t))) <==> (ready(s)
            && s.title.len() > 0 && is_substring_of(s.title, t)),
{
    if t == s.title {
        assert(t.subrange(0, 0 + s.title.len() as int) =~= s.title);
    }
}

/// An application-id event fires the activation exactly when the session is
/// ready, the application-id target is set, and the new id equals the
/// target; substring mode plays no part in it.
pub proof fn lemma_app_id_exact_match(s: SessionView, i: int, a: Seq<char>)
    ensures
        step_activates(s, RunEventView::Handle(i, ToplevelEventView::AppId(a))) <==> (ready(s)
            && s.app_id.len() > 0 && a == s.app_id),
        step_activates(s, RunEventView::Handle(i, ToplevelEventView::AppId(a))) == step_activates(
            (SessionView { contains: !s.contains, ..s }),
            RunEventView::Handle(i, ToplevelEventView::AppId(a)),
        ),
{
}

/// A session that has already activated never activates again, whatever
/// arrives: the activated flag absorbs every further event.
pub proof fn lemma_activated_is_absorbing(s: SessionView, evs: Seq<RunEventView>)
    requires
        s.activated,
    ensures
        run(s, evs).activated,
        activations(s, evs) == 0,
    decreases evs.len(),
{
    if evs.len() > 0 {
        lemma_activated_is_absorbing(s, evs.drop_last());
    }
}

/// Over any run, the activated flag is set exactly when the run issued an
/// activation.
pub proof fn lemma_activated_tracks_count(s: SessionView, evs: Seq<RunEventView>)
    requires
        !s.activated,
    ensures
        run(s, evs).activated <==> activations(s, evs) >= 1,
    decreases evs.len(),
{
    if evs.len() > 0 {
        lemma_activated_tracks_count(s, evs.drop_last());
    }
}

/// At most one activation command is ever issued per run, whatever events
/// arrive and however many windows satisfy the predicate.
pub proof fn lemma_at_most_one_activation(s: SessionView, evs: Seq<RunEventView>)
    requires
        !s.activated,
    ensures
        activations(s, evs) <= 1,
    decreases evs.len(),
{
    if evs.len() > 0 {
        let prefix = evs.drop_last();
        lemma_at_most_one_activation(s, prefix);
        if step_activates(run(s, prefix), evs.last()) {
            lemma_activated_tracks_count(s, prefix);
        }
    }
}

/// In list mode a run prints exactly the application-id payloads of its
/// events, in arrival order and without deduplication, and never issues an
/// activation.
pub proof fn lemma_list_mode_prints_never_activates(s: SessionView, evs: Seq<RunEventView>)
    requires
        s.list_app_id,
    ensures
        prints(s, evs) == app_id_updates(evs),
        activations(s, evs) == 0,
    decreases evs.len(),
{
    if evs.len() > 0 {
        lemma_list_mode_prints_never_activates(s, evs.drop_last());
        lemma_config_stable(s, evs.drop_last());
    }
}

} // verus!
