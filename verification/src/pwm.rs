//! The operations on controllers and channels.
//!
//! Each operation makes its checks in a fixed order, so that each thing
//! that can be wrong has its own error, and asks for a write only after
//! every check has passed.

use vstd::prelude::*;
use vstd::string::*;

use crate::codec::{
    format_duration, parse_bool, parse_duration, parsed_bool, parsed_duration, Polarity,
};
use crate::decimal::decimal_text;
use crate::error::{Channel, Controller, PwmError, PwmErrorView};
use crate::resolve::{
    self, channel_dir_step, channel_file_step, controller_file_step, npwm_step, read_step,
    write_step, Pwm,
};
use crate::sysfs::{views, Reply, ReplyView, Step, StepView};

verus! {

/// Whether the controller's channels are ready for use: whether the
/// directory of its first channel is there.
pub open spec fn is_exported_step(
    root: Seq<char>,
    controller: Controller,
    replies: Seq<ReplyView>,
) -> StepView<bool> {
    match channel_dir_step(root, controller, Channel(0), replies, 0) {
        StepView::Done(Ok(_)) => StepView::Done(Ok(true)),
        StepView::Done(Err(PwmErrorView::NotExported(_))) => StepView::Done(Ok(false)),
        StepView::Done(Err(error)) => StepView::Done(Err(error)),
        StepView::Perform(action) => StepView::Perform(action),
        StepView::Stuck => StepView::Stuck,
    }
}

/// Writes `text` to the controller's file `name`, which must be there.
pub open spec fn controller_write_step(
    root: Seq<char>,
    controller: Controller,
    name: Seq<char>,
    text: Seq<char>,
    replies: Seq<ReplyView>,
) -> StepView<()> {
    controller_file_step(root, controller, name, replies, 0).and_then(
        |path: Seq<char>| write_step(path, text, replies, 1),
    )
}

/// Writes `text` to the channel's file `name`, which is looked for with the
/// replies at `at`.
pub open spec fn channel_write_step(
    root: Seq<char>,
    controller: Controller,
    channel: Channel,
    name: Seq<char>,
    text: Seq<char>,
    replies: Seq<ReplyView>,
    at: int,
) -> StepView<()> {
    channel_file_step(root, controller, channel, name, replies, at).and_then(
        |path: Seq<char>| write_step(path, text, replies, at + 4),
    )
}

/// Reads the channel's file `name`.
pub open spec fn channel_read_step(
    root: Seq<char>,
    controller: Controller,
    channel: Channel,
    name: Seq<char>,
    replies: Seq<ReplyView>,
) -> StepView<Seq<char>> {
    channel_file_step(root, controller, channel, name, replies, 0).and_then(
        |path: Seq<char>| read_step(path, replies, 4),
    )
}

/// Whether the channel is enabled: the flag in its file `enable`.
pub open spec fn is_enabled_step(
    root: Seq<char>,
    controller: Controller,
    channel: Channel,
    replies: Seq<ReplyView>,
) -> StepView<bool> {
    channel_read_step(root, controller, channel, "enable"@, replies).and_then(
        |text: Seq<char>| StepView::Done(parsed_bool(text)),
    )
}

/// Sets the period: reads the duty cycle, refuses a period that is not
/// above it, and writes the period.
pub open spec fn set_period_step(
    root: Seq<char>,
    controller: Controller,
    channel: Channel,
    period: u64,
    replies: Seq<ReplyView>,
) -> StepView<()> {
    channel_read_step(root, controller, channel, "duty_cycle"@, replies).and_then(
        |text: Seq<char>|
            match parsed_duration(text) {
                Err(error) => StepView::Done(Err(error)),
                Ok(duty_cycle) => if duty_cycle >= period {
                    StepView::Done(Err(PwmErrorView::DutyCycleNotLessThanPeriod))
                } else {
                    channel_write_step(
                        root,
                        controller,
                        channel,
                        "period"@,
                        decimal_text(period as nat),
                        replies,
                        5,
                    )
                },
            },
    )
}

/// Sets the duty cycle: reads the period, refuses a duty cycle that is not
/// below it, and writes the duty cycle.
pub open spec fn set_duty_cycle_step(
    root: Seq<char>,
    controller: Controller,
    channel: Channel,
    duty_cycle: u64,
    replies: Seq<ReplyView>,
) -> StepView<()> {
    channel_read_step(root, controller, channel, "period"@, replies).and_then(
        |text: Seq<char>|
            match parsed_duration(text) {
                Err(error) => StepView::Done(Err(error)),
                Ok(period) => if duty_cycle >= period {
                    StepView::Done(Err(PwmErrorView::DutyCycleNotLessThanPeriod))
                } else {
                    channel_write_step(
                        root,
                        controller,
                        channel,
                        "duty_cycle"@,
                        decimal_text(duty_cycle as nat),
                        replies,
                        5,
                    )
                },
            },
    )
}

/// Sets the polarity: reads whether the channel is enabled, refuses the
/// change if it is, and writes the polarity's name.
pub open spec fn set_polarity_step(
    root: Seq<char>,
    controller: Controller,
    channel: Channel,
    polarity: Polarity,
    replies: Seq<ReplyView>,
) -> StepView<()> {
    is_enabled_step(root, controller, channel, replies).and_then(
        |enabled: bool|
            if enabled {
                StepView::Done(Err(PwmErrorView::IllegalChangeWhileEnabled("polarity"@)))
            } else {
                channel_write_step(
                    root,
                    controller,
                    channel,
                    "polarity"@,
                    polarity.name(),
                    replies,
                    5,
                )
            },
    )
}

/// The operations. Each is given the replies to the accesses that it has
/// asked for so far, and gives its next step: one more access, or its end.
impl Pwm {
    /// One step of writing `text` to the controller's file `fname`.
    fn controller_write(
        &self,
        controller: &Controller,
        fname: &str,
        text: &str,
        replies: &[Reply],
    ) -> (step: Step<()>)
        ensures
            step@ == controller_write_step(self@, *controller, fname@, text@, views(replies@)),
    {
        let path = match self.controller_file(controller, fname, replies, 0) {
            Step::Done(Ok(path)) => path,
            other => return other.pass(),
        };
        resolve::write(path, text.to_owned(), replies, 1)
    }

    /// One step of writing `text` to the channel's file `fname`.
    fn channel_write(
        &self,
        controller: &Controller,
        channel: &Channel,
        fname: &str,
        text: &str,
        replies: &[Reply],
        at: usize,
    ) -> (step: Step<()>)
        ensures
            step@ == channel_write_step(
                self@,
                *controller,
                *channel,
                fname@,
                text@,
                views(replies@),
                at as int,
            ),
    {
        let path = match self.channel_file(controller, channel, fname, replies, at) {
            Step::Done(Ok(path)) => path,
            other => return other.pass(),
        };
        assert(at + 3 < replies.len());
        resolve::write(path, text.to_owned(), replies, at + 4)
    }

    /// One step of reading the channel's file `fname`.
    fn channel_read(
        &self,
        controller: &Controller,
        channel: &Channel,
        fname: &str,
        replies: &[Reply],
    ) -> (step: Step<String>)
        ensures
            step@ == channel_read_step(self@, *controller, *channel, fname@, views(replies@)),
    {
        let path = match self.channel_file(controller, channel, fname, replies, 0) {
            Step::Done(Ok(path)) => path,
            other => return other.pass(),
        };
        resolve::read(path, replies, 4)
    }

    /// Returns the number of channels of the controller.
    pub fn npwm(&self, controller: &Controller, replies: &[Reply]) -> (step: Step<u32>)
        ensures
            step@ == npwm_step(self@, *controller, views(replies@), 0),
    {
        self.npwm_at(controller, replies, 0)
    }

    /// Returns whether the controller's channels are ready for use.
    pub fn is_exported(&self, controller: &Controller, replies: &[Reply]) -> (step: Step<bool>)
        ensures
            step@ == is_exported_step(self@, *controller, views(replies@)),
    {
        // A controller is exported if the directories of its channels are
        // there. A controller without any channel makes no sense, so it is
        // enough to look for the first channel's directory.
        match self.channel_dir(controller, &Channel(0), replies, 0) {
            Step::Done(Ok(_)) => Step::Done(Ok(true)),
            Step::Done(Err(PwmError::NotExported(_))) => Step::Done(Ok(false)),
            Step::Done(Err(error)) => Step::Done(Err(error)),
            Step::Perform(action) => Step::Perform(action),
            Step::Stuck => Step::Stuck,
        }
    }

    /// Exports the controller, which gives access to its channels.
    pub fn export(&self, controller: Controller, replies: &[Reply]) -> (step: Step<()>)
        ensures
            step@ == controller_write_step(self@, controller, "export"@, "1"@, views(replies@)),
    {
        self.controller_write(&controller, "export", "1", replies)
    }

    /// Unexports the controller, which takes away access to its channels.
    pub fn unexport(&self, controller: Controller, replies: &[Reply]) -> (step: Step<()>)
        ensures
            step@ == controller_write_step(self@, controller, "unexport"@, "1"@, views(replies@)),
    {
        self.controller_write(&controller, "unexport", "1", replies)
    }

    /// Returns whether the channel is enabled.
    pub fn is_enabled(&self, controller: &Controller, channel: &Channel, replies: &[Reply]) -> (step:
        Step<bool>)
        ensures
            step@ == is_enabled_step(self@, *controller, *channel, views(replies@)),
    {
        let text = match self.channel_read(controller, channel, "enable", replies) {
            Step::Done(Ok(text)) => text,
            other => return other.pass(),
        };
        Step::Done(parse_bool(text))
    }

    /// Enables the channel.
    pub fn enable(&self, controller: Controller, channel: Channel, replies: &[Reply]) -> (step: Step<
        (),
    >)
        ensures
            step@ == channel_write_step(
                self@,
                controller,
                channel,
                "enable"@,
                "1"@,
                views(replies@),
                0,
            ),
    {
        self.channel_write(&controller, &channel, "enable", "1", replies, 0)
    }

    /// Disables the channel.
    pub fn disable(&self, controller: Controller, channel: Channel, replies: &[Reply]) -> (step:
        Step<()>)
        ensures
            step@ == channel_write_step(
                self@,
                controller,
                channel,
                "enable"@,
                "0"@,
                views(replies@),
                0,
            ),
    {
        self.channel_write(&controller, &channel, "enable", "0", replies, 0)
    }

    /// Sets the period of the signal in nanoseconds: the sum of its active
    /// and its inactive time. The period must stay above the duty cycle.
    pub fn set_period(
        &self,
        controller: Controller,
        channel: Channel,
        period: u64,
        replies: &[Reply],
    ) -> (step: Step<()>)
        ensures
            step@ == set_period_step(self@, controller, channel, period, views(replies@)),
    {
        let text = match self.channel_read(&controller, &channel, "duty_cycle", replies) {
            Step::Done(Ok(text)) => text,
            other => return other.pass(),
        };
        let duty_cycle = match parse_duration(text) {
            Ok(duty_cycle) => duty_cycle,
            Err(error) => return Step::Done(Err(error)),
        };
        if duty_cycle >= period {
            return Step::Done(Err(PwmError::DutyCycleNotLessThanPeriod));
        }
        self.channel_write(
            &controller,
            &channel,
            "period",
            format_duration(period).as_str(),
            replies,
            5,
        )
    }

    /// Sets the active time of the signal in nanoseconds, which must stay
    /// below the period.
    pub fn set_duty_cycle(
        &self,
        controller: Controller,
        channel: Channel,
        duty_cycle: u64,
        replies: &[Reply],
    ) -> (step: Step<()>)
        ensures
            step@ == set_duty_cycle_step(self@, controller, channel, duty_cycle, views(replies@)),
    {
        let text = match self.channel_read(&controller, &channel, "period", replies) {
            Step::Done(Ok(text)) => text,
            other => return other.pass(),
        };
        let period = match parse_duration(text) {
            Ok(period) => period,
            Err(error) => return Step::Done(Err(error)),
        };
        if duty_cycle >= period {
            return Step::Done(Err(PwmError::DutyCycleNotLessThanPeriod));
        }
        self.channel_write(
            &controller,
            &channel,
            "duty_cycle",
            format_duration(duty_cycle).as_str(),
            replies,
            5,
        )
    }

    /// Sets the polarity of the signal. The kernel accepts the change only
    /// where the chip supports it, and only while the channel is disabled.
    pub fn set_polarity(
        &self,
        controller: Controller,
        channel: Channel,
        polarity: Polarity,
        replies: &[Reply],
    ) -> (step: Step<()>)
        ensures
            step@ == set_polarity_step(self@, controller, channel, polarity, views(replies@)),
    {
        // The polarity may only change while the channel is disabled.
        let enabled = match self.is_enabled(&controller, &channel, replies) {
            Step::Done(Ok(enabled)) => enabled,
            other => return other.pass(),
        };
        if enabled {
            return Step::Done(Err(PwmError::IllegalChangeWhileEnabled("polarity")));
        }
        self.channel_write(&controller, &channel, "polarity", polarity.as_str(), replies, 5)
    }
}

} // verus!
