//! Properties of the reconciler that hold over every state and every run.
use vstd::prelude::*;
use crate::element::{apply, apply_all, fails_at, stop_plan, unity_volume, ElementModel, OpView};
use crate::reconciler::{is_request, next, observes_playing, run, Command, Event, Intent};
use crate::readiness::Observation;

verus! {

/// Every transition keeps the state well formed.
pub proof fn lemma_next_preserves_wf(i: Intent, ev: Event)
    requires
        i.wf(),
    ensures
        next(i, ev).0.wf(),
{
}

/// The intent is never left set while the element is playing: whatever the
/// run of events, once the last one shows the element not paused, nothing is
/// pending any more.
pub proof fn lemma_playing_clears_intent(i: Intent, evs: Seq<Event>)
    requires
        evs.len() > 0,
        observes_playing(evs.last()),
    ensures
        !run(i, evs).0.wants_playing,
        run(i, evs).0 == Intent::idle(),
{
}

/// A stop leaves the element muted, at the start, at unity gain and without
/// a source, whatever its state before and whichever steps the host
/// rejected; it is paused unless the pause itself was rejected.
pub proof fn lemma_stop_quiesces(e: ElementModel, failures: Seq<bool>)
    ensures
        apply_all(e, stop_plan(), failures).muted,
        apply_all(e, stop_plan(), failures).position == 0,
        apply_all(e, stop_plan(), failures).volume == unity_volume(),
        apply_all(e, stop_plan(), failures).source.len() == 0,
        !fails_at(failures, 0) ==> apply_all(e, stop_plan(), failures).paused,
{
    let f = failures;
    let p = stop_plan();
    lemma_apply_all_step(e, Seq::empty(), p[0], f);
    lemma_apply_all_step(e, seq![p[0]], p[1], f);
    lemma_apply_all_step(e, seq![p[0], p[1]], p[2], f);
    lemma_apply_all_step(e, seq![p[0], p[1], p[2]], p[3], f);
    lemma_apply_all_step(e, seq![p[0], p[1], p[2], p[3]], p[4], f);
    assert(Seq::<OpView>::empty().push(p[0]) =~= seq![p[0]]);
    assert(seq![p[0]].push(p[1]) =~= seq![p[0], p[1]]);
    assert(seq![p[0], p[1]].push(p[2]) =~= seq![p[0], p[1], p[2]]);
    assert(seq![p[0], p[1], p[2]].push(p[3]) =~= seq![p[0], p[1], p[2], p[3]]);
    assert(seq![p[0], p[1], p[2], p[3]].push(p[4]) =~= p);
}

/// Carrying out one more operation.
proof fn lemma_apply_all_step(e: ElementModel, ops: Seq<OpView>, op: OpView, failures: Seq<bool>)
    ensures
        apply_all(e, ops.push(op), failures) == apply(apply_all(e, ops, failures), op, fails_at(failures, ops.len() as int)),
{
    assert(ops.push(op).drop_last() =~= ops);
}

/// A verification tick with nothing pending does nothing: no reload, no
/// play call and no change of state.
pub proof fn lemma_idle_verify_is_noop(i: Intent, o: Observation)
    requires
        i.wf(),
        !i.wants_playing,
    ensures
        next(i, Event::VerifyTick(o)) == (i, Command::Nothing),
{
}

/// Two play requests in a row while the element is paused and not yet
/// buffered trigger at most one reload, and leave a play pending after each.
pub proof fn lemma_request_twice_unready(i: Intent, o: Observation)
    requires
        i.wf(),
        o.has_source,
        o.paused,
        !o.readiness.spec_is_ready(),
    ensures
        run(i, seq![Event::PlayRequested(o)]).0.wants_playing,
        run(i, seq![Event::PlayRequested(o), Event::PlayRequested(o)]).0.wants_playing,
        run(i, seq![Event::PlayRequested(o), Event::PlayRequested(o)]).1 == seq![Command::Load, Command::Nothing]
            || run(i, seq![Event::PlayRequested(o), Event::PlayRequested(o)]).1 == seq![Command::Nothing, Command::Nothing],
{
    let e = Event::PlayRequested(o);
    let none = Seq::<Event>::empty();
    lemma_run_step(i, none, e);
    lemma_run_step(i, seq![e], e);
    assert(none.push(e) =~= seq![e]);
    assert(seq![e].push(e) =~= seq![e, e]);
    let r = run(i, seq![e, e]);
    assert(r.1 =~= seq![Command::Load, Command::Nothing] || r.1 =~= seq![Command::Nothing, Command::Nothing]);
}

/// A run extended by one event takes one more transition.
proof fn lemma_run_step(i: Intent, evs: Seq<Event>, ev: Event)
    ensures
        run(i, evs.push(ev)) == (next(run(i, evs).0, ev).0, run(i, evs).1.push(next(run(i, evs).0, ev).1)),
{
    assert(evs.push(ev).drop_last() =~= evs);
}

/// A play attempt that left the element paused: the play call was rejected,
/// or it resolved with the element still paused.
pub open spec fn is_refusal(ev: Event) -> bool {
    ev is PlayRejected || ev == (Event::PlayResolved { paused: true })
}

/// Two play requests in a row on a buffered element, both refused by the
/// host, issue both play calls but only one reload, and leave a play pending.
pub proof fn lemma_request_twice_refused(i: Intent, o: Observation, s1: Event, s2: Event)
    requires
        i.wf(),
        o.has_source,
        o.paused,
        o.readiness.spec_is_ready(),
        is_refusal(s1),
        is_refusal(s2),
    ensures
        run(i, seq![Event::PlayRequested(o), Event::PlayRequested(o), s1, s2]).0.wants_playing,
        run(i, seq![Event::PlayRequested(o), Event::PlayRequested(o), s1, s2]).1
            == seq![Command::PlayAndAwait, Command::PlayAndAwait, Command::Load, Command::Nothing],
{
    let e = Event::PlayRequested(o);
    let none = Seq::<Event>::empty();
    lemma_run_step(i, none, e);
    lemma_run_step(i, seq![e], e);
    lemma_run_step(i, seq![e, e], s1);
    lemma_run_step(i, seq![e, e, s1], s2);
    assert(none.push(e) =~= seq![e]);
    assert(seq![e].push(e) =~= seq![e, e]);
    assert(seq![e, e].push(s1) =~= seq![e, e, s1]);
    assert(seq![e, e, s1].push(s2) =~= seq![e, e, s1, s2]);
    let r = run(i, seq![e, e, s1, s2]);
    assert(r.1 =~= seq![Command::PlayAndAwait, Command::PlayAndAwait, Command::Load, Command::Nothing]);
}

/// A run issues one action per event.
proof fn lemma_run_len(i: Intent, evs: Seq<Event>)
    ensures
        run(i, evs).1.len() == evs.len(),
    decreases evs.len(),
{
    if evs.len() > 0 {
        lemma_run_len(i, evs.drop_last());
    }
}

/// With nothing pending (as after a pause, a stop or a change of source), no
/// run of events that the host delivers on its own brings playback back:
/// every action is `Nothing` and nothing becomes pending until play is
/// requested again.
pub proof fn lemma_no_automatic_play(evs: Seq<Event>)
    requires
        forall|k: int| 0 <= k < evs.len() ==> !is_request(#[trigger] evs[k]),
    ensures
        run(Intent::idle(), evs).0 == Intent::idle(),
        run(Intent::idle(), evs).1.len() == evs.len(),
        forall|k: int| 0 <= k < evs.len() ==> #[trigger] run(Intent::idle(), evs).1[k] == Command::Nothing,
    decreases evs.len(),
{
    if evs.len() > 0 {
        let prev = evs.drop_last();
        assert forall|k: int| 0 <= k < prev.len() implies !is_request(#[trigger] prev[k]) by {
            assert(prev[k] == evs[k]);
        }
        lemma_no_automatic_play(prev);
        lemma_run_len(Intent::idle(), prev);
        assert(!is_request(evs[evs.len() - 1]));
    }
}

} // verus!
