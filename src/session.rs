use vstd::prelude::*;
use crate::mapper::{comment_object, comment_of, objects_of, views_of, CommentObject};
use crate::model::PostCommentParsed;

verus! {

/// One of the composite's two text fields.
#[derive(Clone, Copy, Debug, PartialEq, Eq, Structural)]
pub enum TextField {
    /// The raw comment text.
    Raw,
    /// The rendered comment text.
    Parsed,
}

/// One boundary operation of the mapping, as the driver performs it.
#[derive(Clone, Copy, Debug, PartialEq, Eq, Structural)]
pub enum HostStep {
    /// Resolve the composite type and instantiate it with its no-argument constructor.
    NewComment,
    /// Allocate a host string holding one of the texts and store it in its field.
    SetText(TextField),
    /// Resolve the spannable interface and allocate an array of this many empty slots.
    NewArray(usize),
    /// Build the object for the spannable at this index (its strings, its
    /// subtype, its constructor) and store it in the array's slot of that index.
    BuildElement(usize),
    /// Store the array in the composite's spannable field.
    AttachArray,
}

/// Why a boundary operation failed.
#[derive(Clone, Copy, Debug, PartialEq, Eq, Structural)]
pub enum ErrorKind {
    /// A host type could not be found by its name.
    TypeResolution,
    /// A type was found, but its constructor could not be run.
    Instantiation,
    /// A field did not match the instance's layout.
    FieldAssignment,
    /// The host could not allocate a string.
    StringAllocation,
}

/// A failed mapping: what went wrong, and in which operation.
#[derive(Clone, Copy, Debug, PartialEq, Eq, Structural)]
pub struct MappingError {
    pub kind: ErrorKind,
    pub step: HostStep,
}

/// What the driver reports after performing an operation.
#[derive(Clone, Copy, Debug, PartialEq, Eq, Structural)]
pub enum HostEvent {
    Succeeded,
    Failed(ErrorKind),
}

/// What the driver must do next.
#[derive(Clone, Copy, Debug, PartialEq, Eq, Structural)]
pub enum Next {
    /// Perform this operation and report how it went.
    Perform(HostStep),
    /// Every operation succeeded: hand the composite to the caller.
    Finish,
    /// An operation failed: drop everything built so far and report this error.
    Abort(MappingError),
}

/// How far a mapping has gone: how many operations succeeded, and the
/// failure that ended it, if one did.
pub struct Progress {
    pub done: nat,
    pub failure: Option<MappingError>,
}

/// Progress of a mapping that has not begun.
pub open spec fn start() -> Progress {
    Progress { done: 0, failure: None }
}

/// Number of operations in the mapping of a comment with `n` spannables.
pub open spec fn step_count(n: nat) -> nat {
    n + 5
}

/// Operation `i` of the mapping of a comment with `n` spannables: the
/// composite, its two texts, the array, one operation for each spannable in
/// order, and last the array's attachment.
pub open spec fn step_at(n: nat, i: int) -> HostStep {
    if i == 0 {
        HostStep::NewComment
    } else if i == 1 {
        HostStep::SetText(TextField::Raw)
    } else if i == 2 {
        HostStep::SetText(TextField::Parsed)
    } else if i == 3 {
        HostStep::NewArray(n as usize)
    } else if i < n + 4 {
        HostStep::BuildElement((i - 4) as usize)
    } else {
        HostStep::AttachArray
    }
}

/// What the driver must do, with `n` spannables, at progress `p`.
pub open spec fn next_of(n: nat, p: Progress) -> Next {
    match p.failure {
        Some(e) => Next::Abort(e),
        None => if p.done < step_count(n) {
            Next::Perform(step_at(n, p.done as int))
        } else {
            Next::Finish
        },
    }
}

/// Progress after the driver reports `ev`. An event after the end, or after
/// a failure, changes nothing.
pub open spec fn advance(n: nat, p: Progress, ev: HostEvent) -> Progress {
    if p.failure is Some || p.done >= step_count(n) {
        p
    } else {
        match ev {
            HostEvent::Succeeded => Progress { done: p.done + 1, failure: None },
            HostEvent::Failed(kind) => Progress {
                done: p.done,
                failure: Some(MappingError { kind, step: step_at(n, p.done as int) }),
            },
        }
    }
}

/// Progress after the events `evs`, in order, starting from `p`.
pub open spec fn run(n: nat, p: Progress, evs: Seq<HostEvent>) -> Progress
    decreases evs.len(),
{
    if evs.len() == 0 {
        p
    } else {
        advance(n, run(n, p, evs.drop_last()), evs.last())
    }
}

/// The construction of one comment's host object graph. The driver asks
/// `next`, performs the operation, and reports it with `record`, until it is
/// told to finish or to abort.
pub struct MappingSession {
    object: CommentObject,
    done: usize,
    failure: Option<MappingError>,
}

impl MappingSession {
    /// The host objects to build.
    pub closed spec fn plan(self) -> CommentObject {
        self.object
    }

    /// Number of spannables in the comment.
    pub closed spec fn len(self) -> nat {
        self.object.spannables@.len()
    }

    /// How far the mapping has gone.
    pub closed spec fn progress(self) -> Progress {
        Progress { done: self.done as nat, failure: self.failure }
    }

    pub closed spec fn wf(self) -> bool {
        &&& step_count(self.len()) <= usize::MAX
        &&& self.done as nat <= step_count(self.len())
    }

    /// A session for the mapping of `comment`, with nothing done yet.
    pub fn new(comment: &PostCommentParsed) -> (r: MappingSession)
        requires
            comment.spannables@.len() + 5 <= usize::MAX,
        ensures
            r.wf(),
            comment_of(r.plan(), *comment),
            r.len() == comment.spannables@.len(),
            r.progress() == start(),
    {
        let object = comment_object(comment);
        assert(views_of(object.spannables@).len() == objects_of(comment.spannables@).len());
        MappingSession { object, done: 0, failure: None }
    }

    /// The host objects to build.
    pub fn object(&self) -> (r: &CommentObject)
        ensures
            *r == self.plan(),
    {
        &self.object
    }

    /// The operation that comes after the `done` that have succeeded.
    fn current_step(&self) -> (r: HostStep)
        requires
            self.wf(),
            self.done < step_count(self.len()),
        ensures
            r == step_at(self.len(), self.done as int),
    {
        let n = self.object.spannables.len();
        let i = self.done;
        if i == 0 {
            HostStep::NewComment
        } else if i == 1 {
            HostStep::SetText(TextField::Raw)
        } else if i == 2 {
            HostStep::SetText(TextField::Parsed)
        } else if i == 3 {
            HostStep::NewArray(n)
        } else if i < n + 4 {
            HostStep::BuildElement(i - 4)
        } else {
            HostStep::AttachArray
        }
    }

    /// What the driver must do now.
    pub fn next(&self) -> (r: Next)
        requires
            self.wf(),
        ensures
            r == next_of(self.len(), self.progress()),
    {
        match self.failure {
            Some(e) => Next::Abort(e),
            None => if self.done < self.object.spannables.len() + 5 {
                Next::Perform(self.current_step())
            } else {
                Next::Finish
            },
        }
    }

    /// Takes the driver's report on the operation that `next` named.
    pub fn record(&mut self, ev: HostEvent)
        requires
            old(self).wf(),
        ensures
            final(self).wf(),
            final(self).plan() == old(self).plan(),
            final(self).progress() == advance(old(self).len(), old(self).progress(), ev),
    {
        if self.failure.is_none() && self.done < self.object.spannables.len() + 5 {
            match ev {
                HostEvent::Succeeded => {
                    self.done = self.done + 1;
                },
                HostEvent::Failed(kind) => {
                    let step = self.current_step();
                    self.failure = Some(MappingError { kind, step });
                },
            }
        }
    }
}

} // verus!
