//! What an operation asks of the filesystem, and what the filesystem replies.
//!
//! An operation never touches the filesystem. It is given the replies to the
//! accesses it has asked for so far, oldest first, and answers with a `Step`:
//! the next access to perform, or the way the operation ended. Its caller
//! performs the access, adds the reply to the list and asks again:
//!
//! ```ignore
//! let mut replies = Vec::new();
//! let result = loop {
//!     match pwm.export(controller, &replies) {
//!         Step::Done(result) => break result,
//!         Step::Perform(action) => replies.push(perform(action)),
//!         Step::Stuck => unreachable!("each reply answers the access asked for"),
//!     }
//! };
//! ```

use vstd::prelude::*;

use crate::error::{IoFailure, PwmError, PwmErrorView};

verus! {

/// The most accesses that any operation asks for.
pub const MAX_ACCESSES: usize = 10;

/// One access to the filesystem.
#[derive(Debug, PartialEq, Eq)]
pub enum Action {
    /// Is there a directory at this path?
    IsDir(String),
    /// Is there a regular file at this path?
    IsFile(String),
    /// Read the file at this path as text.
    Read(String),
    /// Replace the contents of the file at this path by this text.
    Write(String, String),
}

/// The filesystem's reply to one access.
#[derive(Debug, PartialEq, Eq)]
pub enum Reply {
    /// To `IsDir` and `IsFile`: whether there is one.
    Found(bool),
    /// To `Read`: the text of the file.
    Contents(String),
    /// To `Write`: the text was written.
    Written,
    /// To `Read` and `Write`: the access failed.
    Failed(IoFailure),
}

/// Where an operation stands after the replies it was given.
#[derive(Debug, PartialEq, Eq)]
pub enum Step<T> {
    /// The operation is over, with this result.
    Done(Result<T, PwmError>),
    /// The operation needs the reply to this access.
    Perform(Action),
    /// The replies are not such that the operation can go on: one of them is
    /// no reply to the access that was asked for. A caller that adds to the
    /// replies what the filesystem answered to each access never sees this.
    Stuck,
}

/// An `Action` with its texts as sequences of characters.
pub enum ActionView {
    IsDir(Seq<char>),
    IsFile(Seq<char>),
    Read(Seq<char>),
    Write(Seq<char>, Seq<char>),
}

/// A `Reply` with its texts as sequences of characters.
pub enum ReplyView {
    Found(bool),
    Contents(Seq<char>),
    Written,
    Failed(Seq<char>),
}

/// A `Step` with its texts as sequences of characters.
pub enum StepView<T> {
    Done(Result<T, PwmErrorView>),
    Perform(ActionView),
    Stuck,
}

impl View for Action {
    type V = ActionView;

    open spec fn view(&self) -> ActionView {
        match self {
            Action::IsDir(path) => ActionView::IsDir(path@),
            Action::IsFile(path) => ActionView::IsFile(path@),
            Action::Read(path) => ActionView::Read(path@),
            Action::Write(path, text) => ActionView::Write(path@, text@),
        }
    }
}

impl View for Reply {
    type V = ReplyView;

    open spec fn view(&self) -> ReplyView {
        match self {
            Reply::Found(found) => ReplyView::Found(*found),
            Reply::Contents(text) => ReplyView::Contents(text@),
            Reply::Written => ReplyView::Written,
            Reply::Failed(failure) => ReplyView::Failed(failure@),
        }
    }
}

impl<T: View> View for Step<T> {
    type V = StepView<T::V>;

    open spec fn view(&self) -> StepView<T::V> {
        match self {
            Step::Done(Ok(value)) => StepView::Done(Ok(value@)),
            Step::Done(Err(error)) => StepView::Done(Err(error@)),
            Step::Perform(action) => StepView::Perform(action@),
            Step::Stuck => StepView::Stuck,
        }
    }
}

impl ActionView {
    /// Whether `reply` is of the kind that answers this access.
    pub open spec fn answered_by(self, reply: ReplyView) -> bool {
        match self {
            ActionView::IsDir(_) => reply is Found,
            ActionView::IsFile(_) => reply is Found,
            ActionView::Read(_) => reply is Contents || reply is Failed,
            ActionView::Write(_, _) => reply is Written || reply is Failed,
        }
    }
}

/// The replies with their texts as sequences of characters.
pub open spec fn views(replies: Seq<Reply>) -> Seq<ReplyView> {
    Seq::new(replies.len(), |i: int| replies[i]@)
}

impl<T> StepView<T> {
    /// This step, which did not end with a value, as the step of another
    /// operation: an error or an access is handed on.
    pub open spec fn pass<U>(self) -> StepView<U> {
        match self {
            StepView::Done(Ok(_)) => StepView::Stuck,
            StepView::Done(Err(error)) => StepView::Done(Err(error)),
            StepView::Perform(action) => StepView::Perform(action),
            StepView::Stuck => StepView::Stuck,
        }
    }

    /// The step that follows: `next` of the value if this one ended well,
    /// else this one.
    pub open spec fn and_then<U>(self, next: spec_fn(T) -> StepView<U>) -> StepView<U> {
        match self {
            StepView::Done(Ok(value)) => next(value),
            StepView::Done(Err(error)) => StepView::Done(Err(error)),
            StepView::Perform(action) => StepView::Perform(action),
            StepView::Stuck => StepView::Stuck,
        }
    }
}

impl<T: View> Step<T> {
    /// This step, which did not end with a value, as the step of another
    /// operation: an error or an access is handed on.
    pub(crate) fn pass<U: View>(self) -> (step: Step<U>)
        ensures
            step@ == self@.pass::<U::V>(),
    {
        match self {
            Step::Done(Ok(_)) => Step::Stuck,
            Step::Done(Err(error)) => Step::Done(Err(error)),
            Step::Perform(action) => Step::Perform(action),
            Step::Stuck => Step::Stuck,
        }
    }
}

} // verus!
