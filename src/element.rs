//! The media element as far as pause, stop and a change of source touch it.
//!
//! Those entry points do not decide anything from the element's state: they
//! answer with a fixed list of operations for the host to carry out in
//! order. `ElementModel` says what each operation does to the element, so
//! that what the list achieves can be stated and proved.
use vstd::prelude::*;

verus! {

/// One operation on the media element.
#[derive(Clone, Debug, PartialEq, Eq)]
pub enum ElementOp {
    /// Pause playback; the host may reject it.
    Pause,
    SetMuted(bool),
    /// Move the playback position back to the start.
    Rewind,
    /// Set the element's gain back to unity.
    ResetVolume,
    /// Assign the source URL; an empty one clears it.
    SetSource(String),
    /// Ask the host to buffer the whole source eagerly.
    PreloadAuto,
    /// Fetch the source without credentials, as an anonymous cross-origin request.
    AnonymousCors,
}

/// An operation as a mathematical value.
pub ghost enum OpView {
    Pause,
    SetMuted(bool),
    Rewind,
    ResetVolume,
    SetSource(Seq<char>),
    PreloadAuto,
    AnonymousCors,
}

impl View for ElementOp {
    type V = OpView;

    open spec fn view(&self) -> OpView {
        match self {
            ElementOp::Pause => OpView::Pause,
            ElementOp::SetMuted(m) => OpView::SetMuted(*m),
            ElementOp::Rewind => OpView::Rewind,
            ElementOp::ResetVolume => OpView::ResetVolume,
            ElementOp::SetSource(s) => OpView::SetSource(s@),
            ElementOp::PreloadAuto => OpView::PreloadAuto,
            ElementOp::AnonymousCors => OpView::AnonymousCors,
        }
    }
}

/// A list of operations as mathematical values.
pub open spec fn ops_view(ops: Seq<ElementOp>) -> Seq<OpView> {
    ops.map_values(|op: ElementOp| op@)
}

/// The gain of an element at unity volume, in hundredths.
pub open spec fn unity_volume() -> int {
    100
}

/// The properties of the element that the operations change.
pub ghost struct ElementModel {
    pub source: Seq<char>,
    pub paused: bool,
    pub muted: bool,
    /// Playback position; zero is the start.
    pub position: int,
    /// Gain in hundredths of unity.
    pub volume: int,
    pub preload_auto: bool,
    pub anonymous_cors: bool,
}

/// Only a pause can be rejected by the host; the property setters always take.
pub open spec fn fallible(op: OpView) -> bool {
    op is Pause
}

/// The element after one operation; `failed` says whether the host rejected it.
pub open spec fn apply(e: ElementModel, op: OpView, failed: bool) -> ElementModel {
    if failed && fallible(op) {
        e
    } else {
        match op {
            OpView::Pause => ElementModel { paused: true, ..e },
            OpView::SetMuted(m) => ElementModel { muted: m, ..e },
            OpView::Rewind => ElementModel { position: 0, ..e },
            OpView::ResetVolume => ElementModel { volume: unity_volume(), ..e },
            OpView::SetSource(s) => ElementModel { source: s, ..e },
            OpView::PreloadAuto => ElementModel { preload_auto: true, ..e },
            OpView::AnonymousCors => ElementModel { anonymous_cors: true, ..e },
        }
    }
}

/// Whether the host rejects the operation at `k` of a list; steps past the
/// end of `failures` succeed.
pub open spec fn fails_at(failures: Seq<bool>, k: int) -> bool {
    0 <= k < failures.len() && failures[k]
}

/// The element after carrying out `ops` in order, every step attempted
/// whether or not an earlier one was rejected.
pub open spec fn apply_all(e: ElementModel, ops: Seq<OpView>, failures: Seq<bool>) -> ElementModel
    decreases ops.len(),
{
    if ops.len() == 0 {
        e
    } else {
        apply(
            apply_all(e, ops.drop_last(), failures),
            ops.last(),
            fails_at(failures, ops.len() - 1),
        )
    }
}

/// What the host does when playback is paused.
pub open spec fn pause_plan() -> Seq<OpView> {
    seq![OpView::Pause]
}

/// What the host does when playback is stopped: the element is left paused,
/// muted, at the start, at unity gain and with no source.
pub open spec fn stop_plan() -> Seq<OpView> {
    seq![
        OpView::Pause,
        OpView::SetMuted(true),
        OpView::Rewind,
        OpView::ResetVolume,
        OpView::SetSource(Seq::empty()),
    ]
}

/// What the host does when the source changes to `url`: a full stop, then
/// the new source, set to buffer eagerly, at the start and audible.
pub open spec fn source_plan(url: Seq<char>) -> Seq<OpView> {
    stop_plan() + seq![
        OpView::SetSource(url),
        OpView::PreloadAuto,
        OpView::AnonymousCors,
        OpView::Rewind,
        OpView::SetMuted(false),
    ]
}

/// The operations that stop playback, in the order of `stop_plan`.
pub fn stop_ops() -> (ops: Vec<ElementOp>)
    ensures
        ops_view(ops@) == stop_plan(),
{
    let ops = vec![
        ElementOp::Pause,
        ElementOp::SetMuted(true),
        ElementOp::Rewind,
        ElementOp::ResetVolume,
        ElementOp::SetSource(String::new()),
    ];
    assert(ops_view(ops@) =~= stop_plan());
    ops
}

} // verus!
