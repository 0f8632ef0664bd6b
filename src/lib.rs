//! A safe control layer around a native AV1 decoder engine.
//!
//! The engine itself is driven from outside this crate; the crate holds the
//! decisions made around it: how status codes are classified, how submission
//! metadata is filled in, how the submit/retrieve loop proceeds, and how the
//! memory geometry of decoded planes is derived from frame metadata.

mod decode;
mod error;
mod laws;
mod picture;

pub use decode::{
    action_of, after_retrieve, after_submit, given_or, kept_after_retrieve, kept_after_submit,
    outcome, start_phase, submit_fatal, with_given, Action, DataProps, DecodeLoop, LoopPhase,
};
pub use error::{check_status, is_again_code, normalized_errno, Error};
pub use laws::{
    lemma_chroma_heights, lemma_clone_keeps_planes, lemma_empty_chunk, lemma_rejected_submission,
    lemma_retrieval_never_fails, lemma_timestamp_round_trip,
};
pub use picture::{
    bits_of, component_index, effective_height, frame_height, geometry_defined, layout_of,
    plane_len, stride_of, timestamp_of, BitsPerComponent, FrameMeta, Picture, PixelLayout,
    PlanarImageComponent, Plane, LAYOUT_I400, LAYOUT_I420, LAYOUT_I422, LAYOUT_I444, NO_TIMESTAMP,
};
