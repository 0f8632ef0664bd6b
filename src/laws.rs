use crate::decode::{
    after_retrieve, after_submit, kept_after_retrieve, kept_after_submit, outcome, start_phase,
    submit_fatal, with_given, DataProps, LoopPhase,
};
use crate::error::{is_again_code, Error};
use crate::picture::{
    effective_height, frame_height, layout_of, plane_len, stride_of, timestamp_of, FrameMeta,
    Picture, PixelLayout, PlanarImageComponent, NO_TIMESTAMP,
};
use vstd::prelude::*;

verus! {

/// Both chroma planes have the same number of rows for every known layout:
/// half the frame height, rounded up, under 4:2:0, and the full height under
/// the other layouts. Luma always has the full height.
pub proof fn lemma_chroma_heights(m: FrameMeta)
    requires
        layout_of(m.layout) != PixelLayout::Unknown,
    ensures
        effective_height(m, PlanarImageComponent::U) == effective_height(
            m,
            PlanarImageComponent::V,
        ),
        layout_of(m.layout) == PixelLayout::I420 ==> effective_height(m, PlanarImageComponent::U)
            == (frame_height(m) as nat + 1) / 2,
        layout_of(m.layout) != PixelLayout::I420 ==> effective_height(m, PlanarImageComponent::U)
            == frame_height(m) as nat,
        effective_height(m, PlanarImageComponent::Y) == frame_height(m) as nat,
{
}

/// A clone of a picture describes every plane exactly as the original does,
/// so a plane taken from either has the same stride, rows and length, before
/// and after the other handle is dropped.
pub proof fn lemma_clone_keeps_planes<H>(p: Picture<H>, q: Picture<H>, c: PlanarImageComponent)
    requires
        q@ == p@,
    ensures
        stride_of(q@, c) == stride_of(p@, c),
        effective_height(q@, c) == effective_height(p@, c),
        plane_len(q@, c) == plane_len(p@, c),
{
}

/// Decoding a chunk without bytes ends at once, with no pictures and no error.
pub proof fn lemma_empty_chunk<P>()
    ensures
        outcome(start_phase(0), Seq::<P>::empty()) == Some(Ok::<Seq<P>, Error>(Seq::empty())),
{
}

/// A rejected submission ends the loop with that error, whatever pictures had
/// been collected: none of them is part of the result.
pub proof fn lemma_rejected_submission<P>(pictures: Seq<P>, status: i32, again_errno: i32)
    requires
        submit_fatal(status, again_errno),
    ensures
        kept_after_submit(pictures, status, again_errno) == Seq::<P>::empty(),
        outcome(after_submit(status, again_errno), kept_after_submit(pictures, status, again_errno))
            == Some(Err::<Seq<P>, Error>(Error(status))),
{
}

/// No retrieval ends the loop with an error. "Not ready" keeps the loop going
/// while bytes remain; any other retrieval error ends it with the pictures
/// collected so far as its result.
pub proof fn lemma_retrieval_never_fails<P>(
    pictures: Seq<P>,
    result: Result<P, Error>,
    again_errno: i32,
    remaining: nat,
)
    ensures
        !(after_retrieve(result, again_errno, remaining) is Failed),
        result matches Err(e) && is_again_code(e.0 as int, again_errno as int) ==> after_retrieve(
            result,
            again_errno,
            remaining,
        ) == start_phase(remaining),
        result matches Err(e) && !is_again_code(e.0 as int, again_errno as int) ==> outcome(
            after_retrieve(result, again_errno, remaining),
            kept_after_retrieve(pictures, result),
        ) == Some(Ok::<Seq<P>, Error>(pictures)),
{
}

/// A timestamp set on submission is reported back unchanged by a picture
/// that carries it, unless it is the sentinel for "no timestamp".
pub proof fn lemma_timestamp_round_trip(
    base: DataProps,
    offset: Option<i64>,
    t: i64,
    duration: Option<i64>,
)
    requires
        t != NO_TIMESTAMP,
    ensures
        timestamp_of(with_given(base, offset, Some(t), duration).timestamp) == Some(t),
        timestamp_of(NO_TIMESTAMP) is None,
{
}

} // verus!
