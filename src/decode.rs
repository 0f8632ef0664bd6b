use crate::error::{is_again_code, Error};
use vstd::prelude::*;

verus! {

/// The timing metadata attached to a chunk of encoded data.
#[derive(Debug, Clone, Copy, PartialEq, Eq)]
pub struct DataProps {
    pub offset: i64,
    pub timestamp: i64,
    pub duration: i64,
}

pub open spec fn given_or(v: Option<i64>, default: i64) -> i64 {
    match v {
        Some(x) => x,
        None => default,
    }
}

/// The metadata `base` with each attribute that the caller gave replaced.
pub open spec fn with_given(
    base: DataProps,
    offset: Option<i64>,
    timestamp: Option<i64>,
    duration: Option<i64>,
) -> DataProps {
    DataProps {
        offset: given_or(offset, base.offset),
        timestamp: given_or(timestamp, base.timestamp),
        duration: given_or(duration, base.duration),
    }
}

impl DataProps {
    /// Writes the attributes that are given over the engine's defaults in
    /// `self`; an absent attribute keeps its default.
    pub fn apply(self, offset: Option<i64>, timestamp: Option<i64>, duration: Option<i64>) -> (r:
        DataProps)
        ensures
            r == with_given(self, offset, timestamp, duration),
    {
        let mut r = self;
        if let Some(o) = offset {
            r.offset = o;
        }
        if let Some(t) = timestamp {
            r.timestamp = t;
        }
        if let Some(d) = duration {
            r.duration = d;
        }
        r
    }
}

/// Where the decode loop of one chunk stands.
#[derive(Debug, Clone, Copy, PartialEq, Eq)]
pub enum LoopPhase {
    /// Bytes remain: the chunk is to be handed to the engine.
    Submit,
    /// The engine is to be asked for a decoded picture.
    Retrieve,
    /// The loop is over and the pictures collected are the result.
    Finished,
    /// The engine rejected the chunk: the loop is over with this error.
    Failed(Error),
}

/// What the driver of the loop has to do next.
#[derive(Debug, Clone, Copy, PartialEq, Eq)]
pub enum Action {
    /// Send the remaining bytes to the engine, then report the status with
    /// `DecodeLoop::submitted`.
    Submit,
    /// Ask the engine for a picture, then report it with
    /// `DecodeLoop::retrieved`.
    Retrieve,
    /// Nothing more: take the result with `DecodeLoop::finish`.
    Stop,
}

/// The phase a loop starts in for a chunk with `remaining` bytes.
pub open spec fn start_phase(remaining: nat) -> LoopPhase {
    if remaining > 0 {
        LoopPhase::Submit
    } else {
        LoopPhase::Finished
    }
}

/// Whether a submission status is a rejection of the input.
pub open spec fn submit_fatal(status: i32, again_errno: i32) -> bool {
    status < 0 && !is_again_code(status as int, again_errno as int)
}

pub open spec fn after_submit(status: i32, again_errno: i32) -> LoopPhase {
    if submit_fatal(status, again_errno) {
        LoopPhase::Failed(Error(status))
    } else {
        LoopPhase::Retrieve
    }
}

/// The pictures held after a submission: a rejected chunk discards them.
pub open spec fn kept_after_submit<P>(pictures: Seq<P>, status: i32, again_errno: i32) -> Seq<P> {
    if submit_fatal(status, again_errno) {
        Seq::empty()
    } else {
        pictures
    }
}

/// The phase after a retrieval: a picture or a "not ready" goes on while
/// bytes remain; any other error ends retrieval, though not with a failure.
pub open spec fn after_retrieve<P>(
    result: Result<P, Error>,
    again_errno: i32,
    remaining: nat,
) -> LoopPhase {
    match result {
        Ok(_) => start_phase(remaining),
        Err(e) => if is_again_code(e.0 as int, again_errno as int) {
            start_phase(remaining)
        } else {
            LoopPhase::Finished
        },
    }
}

pub open spec fn kept_after_retrieve<P>(pictures: Seq<P>, result: Result<P, Error>) -> Seq<P> {
    match result {
        Ok(p) => pictures.push(p),
        Err(_) => pictures,
    }
}

/// The result of a loop that stands in `phase` holding `pictures`, once it is
/// over.
pub open spec fn outcome<P>(phase: LoopPhase, pictures: Seq<P>) -> Option<Result<Seq<P>, Error>> {
    match phase {
        LoopPhase::Finished => Some(Ok(pictures)),
        LoopPhase::Failed(e) => Some(Err(e)),
        _ => None,
    }
}

pub open spec fn action_of(phase: LoopPhase) -> Action {
    match phase {
        LoopPhase::Submit => Action::Submit,
        LoopPhase::Retrieve => Action::Retrieve,
        _ => Action::Stop,
    }
}

/// The decisions of decoding one borrowed chunk: submit while bytes remain,
/// collect the pictures the engine hands out, retry on "not ready", abort on a
/// rejected submission and stop retrieving on any other retrieval error.
///
/// The driver performs each `Action` against the engine and reports what
/// happened; `P` is the driver's picture type.
pub struct DecodeLoop<P> {
    phase: LoopPhase,
    pictures: Vec<P>,
    again_errno: i32,
}

impl<P> DecodeLoop<P> {
    pub closed spec fn phase(&self) -> LoopPhase {
        self.phase
    }

    pub closed spec fn pictures(&self) -> Seq<P> {
        self.pictures@
    }

    pub closed spec fn again_errno(&self) -> i32 {
        self.again_errno
    }

    /// Starts the loop for a chunk of `remaining` bytes; `again_errno` is the
    /// platform's `EAGAIN`, in either sign convention.
    pub fn new(remaining: usize, again_errno: i32) -> (r: Self)
        requires
            again_errno != i32::MIN,
        ensures
            r.phase() == start_phase(remaining as nat),
            r.pictures() == Seq::<P>::empty(),
            r.again_errno() == again_errno,
    {
        let phase = if remaining > 0 {
            LoopPhase::Submit
        } else {
            LoopPhase::Finished
        };
        DecodeLoop { phase, pictures: Vec::new(), again_errno }
    }

    /// The next thing to do.
    pub fn next_action(&self) -> (r: Action)
        ensures
            r == action_of(self.phase()),
    {
        match self.phase {
            LoopPhase::Submit => Action::Submit,
            LoopPhase::Retrieve => Action::Retrieve,
            _ => Action::Stop,
        }
    }

    /// Records the status the engine returned for a submission.
    pub fn submitted(&mut self, status: i32)
        requires
            old(self).phase() == LoopPhase::Submit,
            old(self).again_errno() != i32::MIN,
        ensures
            final(self).phase() == after_submit(status, old(self).again_errno()),
            final(self).pictures() == kept_after_submit(
                old(self).pictures(),
                status,
                old(self).again_errno(),
            ),
            final(self).again_errno() == old(self).again_errno(),
    {
        let err = Error(status);
        if status < 0 && !err.is_again(self.again_errno) {
            self.phase = LoopPhase::Failed(err);
            self.pictures = Vec::new();
        } else {
            self.phase = LoopPhase::Retrieve;
        }
    }

    /// Records what a retrieval gave, and how many bytes of the chunk the
    /// engine has not consumed yet.
    pub fn retrieved(&mut self, result: Result<P, Error>, remaining: usize)
        requires
            old(self).phase() == LoopPhase::Retrieve,
            old(self).again_errno() != i32::MIN,
        ensures
            final(self).phase() == after_retrieve(
                result,
                old(self).again_errno(),
                remaining as nat,
            ),
            final(self).pictures() == kept_after_retrieve(old(self).pictures(), result),
            final(self).again_errno() == old(self).again_errno(),
    {
        let go_on = match result {
            Ok(p) => {
                self.pictures.push(p);
                true
            },
            Err(e) => e.is_again(self.again_errno),
        };
        self.phase = if !go_on {
            LoopPhase::Finished
        } else if remaining > 0 {
            LoopPhase::Submit
        } else {
            LoopPhase::Finished
        };
    }

    /// Whether the loop is over.
    pub fn is_over(&self) -> (r: bool)
        ensures
            r == (outcome(self.phase(), self.pictures()) is Some),
    {
        match self.phase {
            LoopPhase::Finished | LoopPhase::Failed(_) => true,
            _ => false,
        }
    }

    /// The result of a loop that is over: the pictures collected, or the
    /// error that rejected the chunk.
    pub fn finish(self) -> (r: Result<Vec<P>, Error>)
        requires
            outcome(self.phase(), self.pictures()) is Some,
        ensures
            match outcome(self.phase(), self.pictures()) {
                Some(Ok(s)) => r is Ok && r->Ok_0@ == s,
                Some(Err(e)) => r == Err::<Vec<P>, Error>(e),
                None => false,
            },
    {
        match self.phase {
            LoopPhase::Failed(e) => Err(e),
            _ => Ok(self.pictures),
        }
    }
}

} // verus!
