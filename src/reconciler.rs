//! The playback reconciler: the single owner of the user's intent to play.
//!
//! It is an actor with one inbox. Each entry point is handed what was just
//! read from the element, updates the intent, and answers with at most one
//! corrective action for the host to carry out. Where that action has a
//! result worth reading (a play call, a reload), the host reads the element
//! again afterwards and hands it back as the next event.
use vstd::prelude::*;
use crate::element::{ops_view, pause_plan, source_plan, stop_ops, stop_plan, ElementOp};
use crate::readiness::Observation;

verus! {

/// The reconciler's state as a mathematical value.
#[derive(Clone, Copy, Debug, PartialEq, Eq, Structural)]
pub struct Intent {
    /// The user wants the current source playing and it is not yet seen playing.
    pub wants_playing: bool,
    /// A reload was triggered in this pending cycle and the element has not
    /// since been seen past the readiness threshold.
    pub reload_outstanding: bool,
}

impl Intent {
    /// A reload can only be outstanding while a play is pending.
    pub open spec fn wf(self) -> bool {
        self.reload_outstanding ==> self.wants_playing
    }

    /// Nothing pending: the state at creation and after pause, stop or a new source.
    pub open spec fn idle() -> Intent {
        Intent { wants_playing: false, reload_outstanding: false }
    }
}

/// What the host reports to the reconciler.
#[derive(Clone, Copy, Debug, PartialEq, Eq, Structural)]
pub enum Event {
    /// The user asked to play the current source.
    PlayRequested(Observation),
    /// The play call issued for a request settled successfully; `paused` is
    /// read from the element afterwards.
    PlayResolved { paused: bool },
    /// The play call issued for a request was rejected by the host.
    PlayRejected,
    /// The host signalled that the element can now play.
    ReadinessReached(Observation),
    /// The periodic verification tick. It acts only while a play is pending:
    /// if the element is already playing, the intent is dropped; if it is
    /// paused, it is played or reloaded.
    VerifyTick(Observation),
    /// A play call issued from a readiness event or a tick returned; `paused`
    /// is read from the element afterwards.
    PlayTried { paused: bool },
    /// A reload issued from a tick returned; the element is read again.
    Reloaded(Observation),
}

/// What the host is to do next.
#[derive(Clone, Copy, Debug, PartialEq, Eq, Structural)]
pub enum Command {
    /// Nothing.
    Nothing,
    /// Reload the element so that it starts buffering; nothing to report back.
    Load,
    /// Reload the element, then report `Event::Reloaded`.
    LoadAndRecheck,
    /// Call play and wait for it to settle, then report `Event::PlayResolved`
    /// or `Event::PlayRejected`.
    PlayAndAwait,
    /// Call play without waiting and swallow any failure, then report
    /// `Event::PlayTried`.
    Play,
}

/// Whether an event shows the element actually playing.
pub open spec fn observes_playing(ev: Event) -> bool {
    match ev {
        Event::PlayRequested(o) => o.has_source && !o.paused,
        Event::PlayResolved { paused } => !paused,
        Event::PlayRejected => false,
        Event::ReadinessReached(o) => !o.paused,
        Event::VerifyTick(o) => !o.paused,
        Event::PlayTried { paused } => !paused,
        Event::Reloaded(o) => !o.paused,
    }
}

/// Whether an event is the user asking for playback; every other event is
/// delivered by the host on its own.
pub open spec fn is_request(ev: Event) -> bool {
    ev is PlayRequested
}

/// A reload after a play attempt that left the element paused: at most one
/// per pending cycle, and none once the request was cancelled.
pub open spec fn after_refusal(i: Intent) -> (Intent, Command) {
    if i.wants_playing && !i.reload_outstanding {
        (Intent { wants_playing: true, reload_outstanding: true }, Command::Load)
    } else {
        (i, Command::Nothing)
    }
}

/// The reconciler's transition: the next intent and the action for the host.
pub open spec fn next(i: Intent, ev: Event) -> (Intent, Command) {
    if observes_playing(ev) {
        (Intent::idle(), Command::Nothing)
    } else {
        match ev {
            Event::PlayRequested(o) => {
                if !o.has_source {
                    (i, Command::Nothing)
                } else if o.readiness.spec_is_ready() {
                    (Intent { wants_playing: true, reload_outstanding: false }, Command::PlayAndAwait)
                } else if i.reload_outstanding {
                    (Intent { wants_playing: true, reload_outstanding: true }, Command::Nothing)
                } else {
                    (Intent { wants_playing: true, reload_outstanding: true }, Command::Load)
                }
            },
            Event::PlayResolved { .. } => after_refusal(i),
            Event::PlayRejected => after_refusal(i),
            Event::ReadinessReached(_) => {
                if i.wants_playing {
                    (Intent { wants_playing: true, reload_outstanding: false }, Command::Play)
                } else {
                    (i, Command::Nothing)
                }
            },
            Event::VerifyTick(o) => {
                if !i.wants_playing {
                    (i, Command::Nothing)
                } else if o.readiness.spec_is_ready() {
                    (Intent { wants_playing: true, reload_outstanding: false }, Command::Play)
                } else {
                    (Intent { wants_playing: true, reload_outstanding: true }, Command::LoadAndRecheck)
                }
            },
            Event::Reloaded(o) => {
                if i.wants_playing && o.readiness.spec_is_ready() {
                    (Intent { wants_playing: true, reload_outstanding: false }, Command::Play)
                } else {
                    (i, Command::Nothing)
                }
            },
            Event::PlayTried { .. } => (i, Command::Nothing),
        }
    }
}

/// The intent after a run of events, and the actions issued along the way.
pub open spec fn run(i: Intent, evs: Seq<Event>) -> (Intent, Seq<Command>)
    decreases evs.len(),
{
    if evs.len() == 0 {
        (i, Seq::empty())
    } else {
        let prev = run(i, evs.drop_last());
        let step = next(prev.0, evs.last());
        (step.0, prev.1.push(step.1))
    }
}

/// The playback reconciler. It is created with the element and lives as long
/// as it does; its intent is never persisted.
pub struct Reconciler {
    intent: Intent,
}

impl View for Reconciler {
    type V = Intent;

    closed spec fn view(&self) -> Intent {
        self.intent
    }
}

impl Reconciler {
    #[verifier::type_invariant]
    closed spec fn inv(self) -> bool {
        self.intent.wf()
    }

    /// A reconciler with nothing pending.
    pub fn new() -> (r: Reconciler)
        ensures
            r@ == Intent::idle(),
    {
        Reconciler { intent: Intent { wants_playing: false, reload_outstanding: false } }
    }

    /// Whether the user wants the source playing and it has not yet been seen playing.
    pub fn wants_playing(&self) -> (r: bool)
        ensures
            r == self@.wants_playing,
    {
        self.intent.wants_playing
    }

    /// Whether a reload is outstanding in the current pending cycle.
    pub fn reload_outstanding(&self) -> (r: bool)
        ensures
            r == self@.reload_outstanding,
    {
        self.intent.reload_outstanding
    }

    /// Pauses playback: the intent is dropped, then the element is paused.
    pub fn request_pause(&mut self) -> (ops: Vec<ElementOp>)
        ensures
            final(self)@ == Intent::idle(),
            ops_view(ops@) == pause_plan(),
    {
        self.intent = Intent { wants_playing: false, reload_outstanding: false };
        let ops = vec![ElementOp::Pause];
        assert(ops_view(ops@) =~= pause_plan());
        ops
    }

    /// Stops playback: the intent is dropped first, so that no pending retry
    /// fires afterwards, then the element is reset.
    pub fn request_stop(&mut self) -> (ops: Vec<ElementOp>)
        ensures
            final(self)@ == Intent::idle(),
            ops_view(ops@) == stop_plan(),
    {
        self.intent = Intent { wants_playing: false, reload_outstanding: false };
        stop_ops()
    }

    /// Changes the source: a full stop, then the new URL. Playback does not
    /// start until it is requested again.
    pub fn set_source(&mut self, url: &str) -> (ops: Vec<ElementOp>)
        ensures
            final(self)@ == Intent::idle(),
            ops_view(ops@) == source_plan(url@),
    {
        let mut ops = self.request_stop();
        ops.push(ElementOp::SetSource(url.to_owned()));
        ops.push(ElementOp::PreloadAuto);
        ops.push(ElementOp::AnonymousCors);
        ops.push(ElementOp::Rewind);
        ops.push(ElementOp::SetMuted(false));
        assert(ops_view(ops@) =~= source_plan(url@));
        ops
    }

    /// Takes one event from the host and answers with what to do next.
    pub fn handle(&mut self, ev: Event) -> (cmd: Command)
        ensures
            (final(self)@, cmd) == next(old(self)@, ev),
            final(self)@.wf(),
    {
        proof {
            use_type_invariant(&*self);
        }
        if event_observes_playing(ev) {
            self.intent = Intent { wants_playing: false, reload_outstanding: false };
            return Command::Nothing;
        }
        let wants = self.intent.wants_playing;
        let outstanding = self.intent.reload_outstanding;
        let pending = Intent { wants_playing: true, reload_outstanding: true };
        let retrying = Intent { wants_playing: true, reload_outstanding: false };
        match ev {
            Event::PlayRequested(o) => {
                if !o.has_source {
                    Command::Nothing
                } else if o.readiness.is_ready() {
                    self.intent = retrying;
                    Command::PlayAndAwait
                } else if outstanding {
                    self.intent = pending;
                    Command::Nothing
                } else {
                    self.intent = pending;
                    Command::Load
                }
            },
            Event::PlayResolved { .. } | Event::PlayRejected => {
                if wants && !outstanding {
                    self.intent = pending;
                    Command::Load
                } else {
                    Command::Nothing
                }
            },
            Event::ReadinessReached(_) => {
                if wants {
                    self.intent = retrying;
                    Command::Play
                } else {
                    Command::Nothing
                }
            },
            Event::VerifyTick(o) => {
                if !wants {
                    Command::Nothing
                } else if o.readiness.is_ready() {
                    self.intent = retrying;
                    Command::Play
                } else {
                    self.intent = pending;
                    Command::LoadAndRecheck
                }
            },
            Event::Reloaded(o) => {
                if wants && o.readiness.is_ready() {
                    self.intent = retrying;
                    Command::Play
                } else {
                    Command::Nothing
                }
            },
            Event::PlayTried { .. } => Command::Nothing,
        }
    }
}

/// Whether an event shows the element actually playing.
pub fn event_observes_playing(ev: Event) -> (r: bool)
    ensures
        r == observes_playing(ev),
{
    match ev {
        Event::PlayRequested(o) => o.has_source && !o.paused,
        Event::PlayResolved { paused } => !paused,
        Event::PlayRejected => false,
        Event::ReadinessReached(o) => !o.paused,
        Event::VerifyTick(o) => !o.paused,
        Event::PlayTried { paused } => !paused,
        Event::Reloaded(o) => !o.paused,
    }
}

} // verus!
