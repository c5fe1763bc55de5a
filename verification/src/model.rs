//! A filesystem to run operations against, in specifications only.

use vstd::prelude::*;

use crate::codec::{count_of, parsed_bool, parsed_duration, Polarity};
use crate::decimal::decimal_text;
use crate::error::{AccessView, Channel, Controller, PwmErrorView};
use crate::resolve::{channel_path, controller_file_path, controller_path};
use crate::sysfs::{ActionView, ReplyView, StepView, MAX_ACCESSES};
use crate::text::join;

verus! {

/// The filesystem as one operation finds it: what it answers to each access.
///
/// The answers to probes and reads are taken to stay the same while the
/// operation runs. What a write changes is left open.
pub struct Sysfs {
    /// Whether there is a directory at a path.
    pub is_dir: spec_fn(Seq<char>) -> bool,
    /// Whether there is a regular file at a path.
    pub is_file: spec_fn(Seq<char>) -> bool,
    /// What reading a path gives: the text there, or why it cannot be read.
    pub read: spec_fn(Seq<char>) -> Result<Seq<char>, Seq<char>>,
    /// What writing a text to a path gives: nothing, or why it cannot be written.
    pub write: spec_fn(Seq<char>, Seq<char>) -> Result<(), Seq<char>>,
}

/// How an operation ran: the step that it came to, and the writes that it
/// asked for on the way, in their order.
pub struct Run<T> {
    pub step: StepView<T>,
    pub writes: Seq<ActionView>,
}

impl Sysfs {
    /// The reply to one access.
    pub open spec fn answer(self, action: ActionView) -> ReplyView {
        match action {
            ActionView::IsDir(path) => ReplyView::Found((self.is_dir)(path)),
            ActionView::IsFile(path) => ReplyView::Found((self.is_file)(path)),
            ActionView::Read(path) => match (self.read)(path) {
                Ok(text) => ReplyView::Contents(text),
                Err(failure) => ReplyView::Failed(failure),
            },
            ActionView::Write(path, text) => match (self.write)(path, text) {
                Ok(_) => ReplyView::Written,
                Err(failure) => ReplyView::Failed(failure),
            },
        }
    }

    /// Whether the controller is unknown: its directory is not there, and
    /// so no file in it is.
    pub open spec fn lacks(self, root: Seq<char>, controller: Controller) -> bool {
        &&& !(self.is_dir)(controller_path(root, controller))
        &&& forall|name: Seq<char>|
            !(self.is_file)(#[trigger] controller_file_path(root, controller, name))
    }

    /// Runs an operation that has been given `replies` and has asked for
    /// `writes`: as long as it asks for an access, and for `fuel` accesses
    /// at most, its replies grow by the answer to that access.
    pub open spec fn run_from<T>(
        self,
        op: spec_fn(Seq<ReplyView>) -> StepView<T>,
        replies: Seq<ReplyView>,
        writes: Seq<ActionView>,
        fuel: nat,
    ) -> Run<T>
        decreases fuel,
    {
        match op(replies) {
            StepView::Perform(action) => if fuel == 0 {
                Run { step: StepView::Perform(action), writes }
            } else {
                self.run_from(
                    op,
                    replies.push(self.answer(action)),
                    if action is Write {
                        writes.push(action)
                    } else {
                        writes
                    },
                    (fuel - 1) as nat,
                )
            },
            step => Run { step, writes },
        }
    }

    /// Runs an operation from its start.
    pub open spec fn run<T>(self, op: spec_fn(Seq<ReplyView>) -> StepView<T>) -> Run<T> {
        self.run_from(op, Seq::empty(), Seq::empty(), MAX_ACCESSES as nat)
    }
}

/// A run that ended at `step` without a write.
pub open spec fn unwritten<T>(step: StepView<T>) -> Run<T> {
    Run { step, writes: Seq::empty() }
}

/// What each operation comes to on a filesystem.
impl Sysfs {
    /// The text read at `path`.
    pub open spec fn text_at(self, path: Seq<char>) -> StepView<Seq<char>> {
        match (self.read)(path) {
            Ok(text) => StepView::Done(Ok(text)),
            Err(failure) => StepView::Done(
                Err(PwmErrorView::Sysfs(AccessView::Read(path), failure)),
            ),
        }
    }

    /// The one write of `text` to `path`.
    pub open spec fn written(self, path: Seq<char>, text: Seq<char>) -> Run<()> {
        Run {
            step: match (self.write)(path, text) {
                Ok(_) => StepView::Done(Ok(())),
                Err(failure) => StepView::Done(
                    Err(PwmErrorView::Sysfs(AccessView::Write(path), failure)),
                ),
            },
            writes: seq![ActionView::Write(path, text)],
        }
    }

    /// The controller's directory, which must be there.
    pub open spec fn controller_dir(self, root: Seq<char>, controller: Controller) -> StepView<
        Seq<char>,
    > {
        let dir = controller_path(root, controller);
        if !(self.is_dir)(dir) {
            StepView::Done(Err(PwmErrorView::ControllerNotFound(controller)))
        } else {
            StepView::Done(Ok(dir))
        }
    }

    /// The controller's file `name`, which must be there.
    pub open spec fn controller_file(
        self,
        root: Seq<char>,
        controller: Controller,
        name: Seq<char>,
    ) -> StepView<Seq<char>> {
        let path = controller_file_path(root, controller, name);
        if !(self.is_file)(path) {
            StepView::Done(Err(PwmErrorView::ControllerNotFound(controller)))
        } else {
            StepView::Done(Ok(path))
        }
    }

    /// The channel count of the controller: its directory must be there,
    /// and its file `npwm` readable as a number. A text that is no number
    /// is a failure of the read, with the reason why it is none.
    pub open spec fn npwm(self, root: Seq<char>, controller: Controller) -> StepView<u32> {
        let dir = controller_path(root, controller);
        if !(self.is_dir)(dir) {
            StepView::Done(Err(PwmErrorView::ControllerNotFound(controller)))
        } else {
            match (self.read)(join(dir, "npwm"@)) {
                Ok(text) => match count_of(text) {
                    Ok(count) => StepView::Done(Ok(count)),
                    Err(reason) => StepView::Done(
                        Err(
                            PwmErrorView::Sysfs(
                                AccessView::Read(join(dir, "npwm"@)),
                                reason.text(),
                            ),
                        ),
                    ),
                },
                Err(failure) => StepView::Done(
                    Err(PwmErrorView::Sysfs(AccessView::Read(join(dir, "npwm"@)), failure)),
                ),
            }
        }
    }

    /// The channel's directory: the channel's number must be below the
    /// controller's count, and the directory there.
    pub open spec fn channel_dir(
        self,
        root: Seq<char>,
        controller: Controller,
        channel: Channel,
    ) -> StepView<Seq<char>> {
        let dir = channel_path(root, controller, channel);
        match self.npwm(root, controller) {
            StepView::Done(Ok(count)) => if channel.0 >= count {
                StepView::Done(Err(PwmErrorView::ChannelNotFound(controller, channel)))
            } else if !(self.is_dir)(dir) {
                StepView::Done(Err(PwmErrorView::NotExported(controller)))
            } else {
                StepView::Done(Ok(dir))
            },
            other => other.pass(),
        }
    }

    /// The channel's file `name`: as the channel's directory, and the file
    /// must be there.
    pub open spec fn channel_file(
        self,
        root: Seq<char>,
        controller: Controller,
        channel: Channel,
        name: Seq<char>,
    ) -> StepView<Seq<char>> {
        match self.channel_dir(root, controller, channel) {
            StepView::Done(Ok(dir)) => if !(self.is_file)(join(dir, name)) {
                StepView::Done(Err(PwmErrorView::NotExported(controller)))
            } else {
                StepView::Done(Ok(join(dir, name)))
            },
            other => other,
        }
    }

    /// The text of the channel's file `name`.
    pub open spec fn channel_text(
        self,
        root: Seq<char>,
        controller: Controller,
        channel: Channel,
        name: Seq<char>,
    ) -> StepView<Seq<char>> {
        match self.channel_file(root, controller, channel, name) {
            StepView::Done(Ok(path)) => self.text_at(path),
            other => other,
        }
    }

    /// The write of `text` to the controller's file `name`, which must be there.
    pub open spec fn controller_written(
        self,
        root: Seq<char>,
        controller: Controller,
        name: Seq<char>,
        text: Seq<char>,
    ) -> Run<()> {
        match self.controller_file(root, controller, name) {
            StepView::Done(Ok(path)) => self.written(path, text),
            other => unwritten(other.pass()),
        }
    }

    /// The write of `text` to the channel's file `name`.
    pub open spec fn channel_written(
        self,
        root: Seq<char>,
        controller: Controller,
        channel: Channel,
        name: Seq<char>,
        text: Seq<char>,
    ) -> Run<()> {
        match self.channel_file(root, controller, channel, name) {
            StepView::Done(Ok(path)) => self.written(path, text),
            other => unwritten(other.pass()),
        }
    }

    /// Whether the controller is exported: whether the directory of its
    /// first channel is there.
    pub open spec fn is_exported(self, root: Seq<char>, controller: Controller) -> StepView<bool> {
        match self.npwm(root, controller) {
            StepView::Done(Ok(count)) => if count == 0 {
                StepView::Done(Err(PwmErrorView::ChannelNotFound(controller, Channel(0))))
            } else {
                StepView::Done(Ok((self.is_dir)(channel_path(root, controller, Channel(0)))))
            },
            other => other.pass(),
        }
    }

    /// Whether the channel is enabled: the flag that its file `enable` holds.
    pub open spec fn is_enabled(
        self,
        root: Seq<char>,
        controller: Controller,
        channel: Channel,
    ) -> StepView<bool> {
        match self.channel_text(root, controller, channel, "enable"@) {
            StepView::Done(Ok(text)) => StepView::Done(parsed_bool(text)),
            other => other.pass(),
        }
    }

    /// Setting the period: it is written if the duty cycle can be read and
    /// is below it.
    pub open spec fn set_period(
        self,
        root: Seq<char>,
        controller: Controller,
        channel: Channel,
        period: u64,
    ) -> Run<()> {
        match self.channel_text(root, controller, channel, "duty_cycle"@) {
            StepView::Done(Ok(text)) => match parsed_duration(text) {
                Ok(duty_cycle) => if duty_cycle >= period {
                    unwritten(StepView::Done(Err(PwmErrorView::DutyCycleNotLessThanPeriod)))
                } else {
                    self.channel_written(
                        root,
                        controller,
                        channel,
                        "period"@,
                        decimal_text(period as nat),
                    )
                },
                Err(error) => unwritten(StepView::Done(Err(error))),
            },
            other => unwritten(other.pass()),
        }
    }

    /// Setting the duty cycle: it is written if the period can be read and
    /// is above it.
    pub open spec fn set_duty_cycle(
        self,
        root: Seq<char>,
        controller: Controller,
        channel: Channel,
        duty_cycle: u64,
    ) -> Run<()> {
        match self.channel_text(root, controller, channel, "period"@) {
            StepView::Done(Ok(text)) => match parsed_duration(text) {
                Ok(period) => if duty_cycle >= period {
                    unwritten(StepView::Done(Err(PwmErrorView::DutyCycleNotLessThanPeriod)))
                } else {
                    self.channel_written(
                        root,
                        controller,
                        channel,
                        "duty_cycle"@,
                        decimal_text(duty_cycle as nat),
                    )
                },
                Err(error) => unwritten(StepView::Done(Err(error))),
            },
            other => unwritten(other.pass()),
        }
    }

    /// Setting the polarity: its name is written if the channel's flag can
    /// be read and says that the channel is disabled.
    pub open spec fn set_polarity(
        self,
        root: Seq<char>,
        controller: Controller,
        channel: Channel,
        polarity: Polarity,
    ) -> Run<()> {
        match self.is_enabled(root, controller, channel) {
            StepView::Done(Ok(enabled)) => if enabled {
                unwritten(
                    StepView::Done(Err(PwmErrorView::IllegalChangeWhileEnabled("polarity"@))),
                )
            } else {
                self.channel_written(root, controller, channel, "polarity"@, polarity.name())
            },
            other => unwritten(other.pass()),
        }
    }
}

} // verus!
