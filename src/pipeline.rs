//! The capture pipeline's lifecycle: Inactive until started against a
//! configuration that resolves, Active until stopped.
//!
//! The native calls (resolve, start, wait, poll, stop) are made by the caller;
//! the pipeline decides whether each is allowed and what its outcome means.

use vstd::prelude::*;
use crate::base::StreamProfile;
use crate::error::{category_from_native, category_of, ErrorKind, NativeError, RsError};
use crate::frame::Frame;
use crate::frame_kind::Any;
use crate::resolve::ResolveAnswer;

verus! {

/// Frames captured together, in capture order, sharing one sequence number.
#[derive(Debug)]
pub struct FrameSet {
    number: u64,
    frames: Vec<Frame<Any>>,
}

impl FrameSet {
    pub closed spec fn spec_number(self) -> u64 {
        self.number
    }

    pub closed spec fn spec_frames(self) -> Seq<Frame<Any>> {
        self.frames@
    }

    pub fn new(number: u64, frames: Vec<Frame<Any>>) -> (r: FrameSet)
        ensures
            r.spec_number() == number,
            r.spec_frames() == frames@,
    {
        FrameSet { number, frames }
    }

    /// The hardware sequence number of the set.
    pub fn number(&self) -> (r: u64)
        ensures
            r == self.spec_number(),
    {
        self.number
    }

    /// How many frames the set holds.
    pub fn count(&self) -> (r: usize)
        ensures
            r == self.spec_frames().len(),
    {
        self.frames.len()
    }

    /// The frame at position `i`.
    pub fn frame(&self, i: usize) -> (r: &Frame<Any>)
        requires
            i < self.spec_frames().len(),
        ensures
            *r == self.spec_frames()[i as int],
    {
        &self.frames[i]
    }

    /// The frames, in capture order, each ready to be narrowed.
    pub fn into_frames(self) -> (r: Vec<Frame<Any>>)
        ensures
            r@ == self.spec_frames(),
    {
        self.frames
    }
}

/// What a native wait or poll call came back with.
#[derive(Debug)]
pub enum WaitOutcome {
    Arrived(FrameSet),
    TimedOut,
    Failed(NativeError),
}

/// A capture pipeline.
#[derive(Debug)]
pub struct Pipeline {
    active: Option<Vec<StreamProfile>>,
}

impl Pipeline {
    /// The profiles in effect while Active; `None` while Inactive.
    pub closed spec fn spec_active(self) -> Option<Seq<StreamProfile>> {
        match self.active {
            Some(v) => Some(v@),
            None => None,
        }
    }

    /// An Inactive pipeline.
    pub fn new() -> (r: Pipeline)
        ensures
            r.spec_active() is None,
    {
        Pipeline { active: None }
    }

    pub fn is_active(&self) -> (r: bool)
        ensures
            r == self.spec_active() is Some,
    {
        self.active.is_some()
    }

    /// Starts capture with what the native library resolved the requested
    /// configuration (or, with none, its defaults) to. An unresolvable one is
    /// `UnsatisfiableConfiguration`; otherwise its profiles are in effect. An
    /// Active pipeline cannot be started again: `WrongApiCallSequence`. On an
    /// error nothing changes.
    pub fn start(&mut self, answer: ResolveAnswer) -> (r: Result<(), RsError>)
        ensures
            old(self).spec_active() is Some ==> (r matches Err(e) && e.kind
                == ErrorKind::WrongApiCallSequence),
            r is Err ==> *final(self) == *old(self),
            old(self).spec_active() is None ==> match answer {
                ResolveAnswer::Resolvable(v) => r is Ok && final(self).spec_active() == Some(v@),
                ResolveAnswer::Unresolvable => (r matches Err(e) && e.kind
                    == ErrorKind::UnsatisfiableConfiguration),
            },
    {
        if self.active.is_some() {
            return Err(RsError::new(ErrorKind::WrongApiCallSequence, String::new()));
        }
        match answer {
            ResolveAnswer::Resolvable(v) => {
                self.active = Some(v);
                Ok(())
            },
            ResolveAnswer::Unresolvable => Err(
                RsError::new(ErrorKind::UnsatisfiableConfiguration, String::new()),
            ),
        }
    }

    /// The profiles in effect, while Active.
    pub fn profile(&self) -> (r: Option<&Vec<StreamProfile>>)
        ensures
            r is None <==> self.spec_active() is None,
            r matches Some(v) ==> self.spec_active() == Some(v@),
    {
        match &self.active {
            Some(v) => Some(v),
            None => None,
        }
    }

    /// Interprets what a native wait or poll returned: a frame-set is handed
    /// through as it came, a timeout is `None`, a native failure is an error of
    /// its category. Waiting on an Inactive pipeline is `WrongApiCallSequence`.
    /// The pipeline's state does not change.
    pub fn complete_wait(&mut self, outcome: WaitOutcome) -> (r: Result<Option<FrameSet>, RsError>)
        ensures
            *final(self) == *old(self),
            old(self).spec_active() is None ==> (r matches Err(e) && e.kind
                == ErrorKind::WrongApiCallSequence),
            old(self).spec_active() is Some ==> match outcome {
                WaitOutcome::Arrived(fs) => r == Ok::<Option<FrameSet>, RsError>(Some(fs)),
                WaitOutcome::TimedOut => r == Ok::<Option<FrameSet>, RsError>(None),
                WaitOutcome::Failed(e) => (r matches Err(x) && x.kind == category_of(e.code)),
            },
    {
        if self.active.is_none() {
            return Err(RsError::new(ErrorKind::WrongApiCallSequence, String::new()));
        }
        match outcome {
            WaitOutcome::Arrived(fs) => Ok(Some(fs)),
            WaitOutcome::TimedOut => Ok(None),
            WaitOutcome::Failed(e) => {
                let kind = category_from_native(e.code);
                Err(RsError::new(kind, e.message))
            },
        }
    }

    /// Ends capture and returns to Inactive; never fails. On an Inactive
    /// pipeline it changes nothing.
    pub fn stop(&mut self)
        ensures
            final(self).spec_active() is None,
            old(self).spec_active() is None ==> *final(self) == *old(self),
    {
        self.active = None;
    }
}

} // verus!
