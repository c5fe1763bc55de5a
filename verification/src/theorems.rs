//! What holds of every operation, whatever the filesystem answers.

use vstd::prelude::*;

use crate::codec::{count_of, parsed_duration, Polarity};
use crate::decimal::{decimal_text, DecimalError};
use crate::error::{AccessView, Channel, Controller, PwmErrorView};
use crate::model::{unwritten, Run, Sysfs};
use crate::pwm::{
    channel_write_step, controller_write_step, is_enabled_step, is_exported_step,
    set_duty_cycle_step, set_period_step, set_polarity_step,
};
use crate::resolve::{
    channel_dir_step, channel_file_step, channel_path, controller_dir_step, controller_file_step,
    controller_path, npwm_step,
};
use crate::sysfs::{ActionView, ReplyView, StepView, MAX_ACCESSES};
use crate::text::join;

verus! {

/// `controller_dir`, run on a filesystem, gives the controller's directory
/// if it is there and `ControllerNotFound` if not, and asks for no write.
pub proof fn controller_dir_runs(fs: Sysfs, root: Seq<char>, controller: Controller)
    ensures
        fs.run(|replies: Seq<ReplyView>| controller_dir_step(root, controller, replies, 0))
            == unwritten(fs.controller_dir(root, controller)),
{
    reveal_with_fuel(Sysfs::run_from, 2);
}

/// `controller_file`, run on a filesystem, gives the path of the
/// controller's file if the file is there and `ControllerNotFound` if not,
/// and asks for no write.
pub proof fn controller_file_runs(
    fs: Sysfs,
    root: Seq<char>,
    controller: Controller,
    name: Seq<char>,
)
    ensures
        fs.run(|replies: Seq<ReplyView>| controller_file_step(root, controller, name, replies, 0))
            == unwritten(fs.controller_file(root, controller, name)),
{
    reveal_with_fuel(Sysfs::run_from, 2);
}

/// `channel_dir`, run on a filesystem, gives the channel's directory, or
/// the first of these that holds: `ControllerNotFound`, the failure to
/// read the count, `ChannelNotFound`, `NotExported`. It asks for no write.
pub proof fn channel_dir_runs(fs: Sysfs, root: Seq<char>, controller: Controller, channel: Channel)
    ensures
        fs.run(
            |replies: Seq<ReplyView>| channel_dir_step(root, controller, channel, replies, 0),
        ) == unwritten(fs.channel_dir(root, controller, channel)),
{
    reveal_with_fuel(Sysfs::run_from, 4);
}

/// `channel_file`, run on a filesystem, gives the path of the channel's
/// file: as `channel_dir`, and `NotExported` if the file is not there. It
/// asks for no write.
pub proof fn channel_file_runs(
    fs: Sysfs,
    root: Seq<char>,
    controller: Controller,
    channel: Channel,
    name: Seq<char>,
)
    ensures
        fs.run(
            |replies: Seq<ReplyView>|
                channel_file_step(root, controller, channel, name, replies, 0),
        ) == unwritten(fs.channel_file(root, controller, channel, name)),
{
    reveal_with_fuel(Sysfs::run_from, 5);
}

/// A write to a file of the controller, run on a filesystem, writes the
/// text if the file is there, and nothing if not.
pub proof fn controller_write_runs(
    fs: Sysfs,
    root: Seq<char>,
    controller: Controller,
    name: Seq<char>,
    text: Seq<char>,
)
    ensures
        fs.run(
            |replies: Seq<ReplyView>| controller_write_step(root, controller, name, text, replies),
        ) == fs.controller_written(root, controller, name, text),
{
    reveal_with_fuel(Sysfs::run_from, 3);
}

/// A write to a file of the channel, run on a filesystem, writes the text
/// if the file can be addressed, and nothing if not.
pub proof fn channel_write_runs(
    fs: Sysfs,
    root: Seq<char>,
    controller: Controller,
    channel: Channel,
    name: Seq<char>,
    text: Seq<char>,
)
    ensures
        fs.run(
            |replies: Seq<ReplyView>|
                channel_write_step(root, controller, channel, name, text, replies, 0),
        ) == fs.channel_written(root, controller, channel, name, text),
{
    reveal_with_fuel(Sysfs::run_from, 6);
}

/// `npwm`, run on a filesystem, comes to the controller's count and asks
/// for no write.
pub proof fn npwm_runs(fs: Sysfs, root: Seq<char>, controller: Controller)
    ensures
        fs.run(|replies: Seq<ReplyView>| npwm_step(root, controller, replies, 0)) == unwritten(
            fs.npwm(root, controller),
        ),
{
    reveal_with_fuel(Sysfs::run_from, 3);
}

/// `is_exported`, run on a filesystem, tells whether the directory of the
/// controller's first channel is there, and asks for no write.
pub proof fn is_exported_runs(fs: Sysfs, root: Seq<char>, controller: Controller)
    ensures
        fs.run(|replies: Seq<ReplyView>| is_exported_step(root, controller, replies))
            == unwritten(fs.is_exported(root, controller)),
{
    reveal_with_fuel(Sysfs::run_from, 4);
}

/// `export` and `unexport`, run on a filesystem, write `1` to the
/// controller's file of that name if the file is there, and nothing if not.
pub proof fn export_runs(fs: Sysfs, root: Seq<char>, controller: Controller)
    ensures
        fs.run(
            |replies: Seq<ReplyView>|
                controller_write_step(root, controller, "export"@, "1"@, replies),
        ) == fs.controller_written(root, controller, "export"@, "1"@),
        fs.run(
            |replies: Seq<ReplyView>|
                controller_write_step(root, controller, "unexport"@, "1"@, replies),
        ) == fs.controller_written(root, controller, "unexport"@, "1"@),
{
    controller_write_runs(fs, root, controller, "export"@, "1"@);
    controller_write_runs(fs, root, controller, "unexport"@, "1"@);
}

/// `is_enabled`, run on a filesystem, reads the flag in the channel's file
/// `enable` and asks for no write.
pub proof fn is_enabled_runs(fs: Sysfs, root: Seq<char>, controller: Controller, channel: Channel)
    ensures
        fs.run(|replies: Seq<ReplyView>| is_enabled_step(root, controller, channel, replies))
            == unwritten(fs.is_enabled(root, controller, channel)),
{
    reveal_with_fuel(Sysfs::run_from, 6);
}

/// `enable` and `disable`, run on a filesystem, write `1` and `0` to the
/// channel's file `enable` if the file can be addressed, and nothing if not.
pub proof fn enable_runs(fs: Sysfs, root: Seq<char>, controller: Controller, channel: Channel)
    ensures
        fs.run(
            |replies: Seq<ReplyView>|
                channel_write_step(root, controller, channel, "enable"@, "1"@, replies, 0),
        ) == fs.channel_written(root, controller, channel, "enable"@, "1"@),
        fs.run(
            |replies: Seq<ReplyView>|
                channel_write_step(root, controller, channel, "enable"@, "0"@, replies, 0),
        ) == fs.channel_written(root, controller, channel, "enable"@, "0"@),
{
    channel_write_runs(fs, root, controller, channel, "enable"@, "1"@);
    channel_write_runs(fs, root, controller, channel, "enable"@, "0"@);
}

/// `set_period`, run on a filesystem, writes the period if the duty cycle
/// can be read and is below it, and nothing if not.
pub proof fn set_period_runs(
    fs: Sysfs,
    root: Seq<char>,
    controller: Controller,
    channel: Channel,
    period: u64,
)
    ensures
        fs.run(
            |replies: Seq<ReplyView>| set_period_step(root, controller, channel, period, replies),
        ) == fs.set_period(root, controller, channel, period),
{
    reveal_with_fuel(Sysfs::run_from, 11);
}

/// `set_duty_cycle`, run on a filesystem, writes the duty cycle if the
/// period can be read and is above it, and nothing if not.
pub proof fn set_duty_cycle_runs(
    fs: Sysfs,
    root: Seq<char>,
    controller: Controller,
    channel: Channel,
    duty_cycle: u64,
)
    ensures
        fs.run(
            |replies: Seq<ReplyView>|
                set_duty_cycle_step(root, controller, channel, duty_cycle, replies),
        ) == fs.set_duty_cycle(root, controller, channel, duty_cycle),
{
    reveal_with_fuel(Sysfs::run_from, 11);
}

/// `set_polarity`, run on a filesystem, writes the polarity's name if the
/// channel's flag can be read and says that it is disabled, and nothing if
/// not.
pub proof fn set_polarity_runs(
    fs: Sysfs,
    root: Seq<char>,
    controller: Controller,
    channel: Channel,
    polarity: Polarity,
)
    ensures
        fs.run(
            |replies: Seq<ReplyView>|
                set_polarity_step(root, controller, channel, polarity, replies),
        ) == fs.set_polarity(root, controller, channel, polarity),
{
    reveal_with_fuel(Sysfs::run_from, 11);
}

/// Whether a run ended with `error` without a write.
pub open spec fn failed_unwritten<T>(run: Run<T>, error: PwmErrorView) -> bool {
    run == unwritten(StepView::<T>::Done(Err(error)))
}

/// On a controller that is unknown, every operation on the controller
/// fails with `ControllerNotFound` and asks for no write.
pub proof fn unknown_controller(fs: Sysfs, root: Seq<char>, controller: Controller)
    requires
        fs.lacks(root, controller),
    ensures
        failed_unwritten(
            fs.run(|replies: Seq<ReplyView>| npwm_step(root, controller, replies, 0)),
            PwmErrorView::ControllerNotFound(controller),
        ),
        failed_unwritten(
            fs.run(|replies: Seq<ReplyView>| is_exported_step(root, controller, replies)),
            PwmErrorView::ControllerNotFound(controller),
        ),
        failed_unwritten(
            fs.run(
                |replies: Seq<ReplyView>|
                    controller_write_step(root, controller, "export"@, "1"@, replies),
            ),
            PwmErrorView::ControllerNotFound(controller),
        ),
        failed_unwritten(
            fs.run(
                |replies: Seq<ReplyView>|
                    controller_write_step(root, controller, "unexport"@, "1"@, replies),
            ),
            PwmErrorView::ControllerNotFound(controller),
        ),
{
    npwm_runs(fs, root, controller);
    is_exported_runs(fs, root, controller);
    export_runs(fs, root, controller);
    reveal_strlit("export");
    reveal_strlit("unexport");
}

/// On a controller that is unknown, every operation on one of its channels
/// fails with `ControllerNotFound` and asks for no write.
pub proof fn unknown_controller_of_channel(
    fs: Sysfs,
    root: Seq<char>,
    controller: Controller,
    channel: Channel,
    nanos: u64,
    polarity: Polarity,
)
    requires
        fs.lacks(root, controller),
    ensures
        failed_unwritten(
            fs.run(|replies: Seq<ReplyView>| is_enabled_step(root, controller, channel, replies)),
            PwmErrorView::ControllerNotFound(controller),
        ),
        failed_unwritten(
            fs.run(
                |replies: Seq<ReplyView>|
                    channel_write_step(root, controller, channel, "enable"@, "1"@, replies, 0),
            ),
            PwmErrorView::ControllerNotFound(controller),
        ),
        failed_unwritten(
            fs.run(
                |replies: Seq<ReplyView>|
                    channel_write_step(root, controller, channel, "enable"@, "0"@, replies, 0),
            ),
            PwmErrorView::ControllerNotFound(controller),
        ),
        failed_unwritten(
            fs.run(
                |replies: Seq<ReplyView>|
                    set_period_step(root, controller, channel, nanos, replies),
            ),
            PwmErrorView::ControllerNotFound(controller),
        ),
        failed_unwritten(
            fs.run(
                |replies: Seq<ReplyView>|
                    set_duty_cycle_step(root, controller, channel, nanos, replies),
            ),
            PwmErrorView::ControllerNotFound(controller),
        ),
        failed_unwritten(
            fs.run(
                |replies: Seq<ReplyView>|
                    set_polarity_step(root, controller, channel, polarity, replies),
            ),
            PwmErrorView::ControllerNotFound(controller),
        ),
{
    is_enabled_runs(fs, root, controller, channel);
    enable_runs(fs, root, controller, channel);
    set_period_runs(fs, root, controller, channel, nanos);
    set_duty_cycle_runs(fs, root, controller, channel, nanos);
    set_polarity_runs(fs, root, controller, channel, polarity);
}

/// On a channel whose number is not below the count that the controller
/// reports, every operation fails with `ChannelNotFound` and asks for no
/// write, whether the channel's directory is there or not.
pub proof fn channel_beyond_count(
    fs: Sysfs,
    root: Seq<char>,
    controller: Controller,
    channel: Channel,
    nanos: u64,
    polarity: Polarity,
)
    requires
        fs.npwm(root, controller) matches StepView::Done(Ok(count)) && channel.0 >= count,
    ensures
        failed_unwritten(
            fs.run(|replies: Seq<ReplyView>| is_enabled_step(root, controller, channel, replies)),
            PwmErrorView::ChannelNotFound(controller, channel),
        ),
        failed_unwritten(
            fs.run(
                |replies: Seq<ReplyView>|
                    channel_write_step(root, controller, channel, "enable"@, "1"@, replies, 0),
            ),
            PwmErrorView::ChannelNotFound(controller, channel),
        ),
        failed_unwritten(
            fs.run(
                |replies: Seq<ReplyView>|
                    channel_write_step(root, controller, channel, "enable"@, "0"@, replies, 0),
            ),
            PwmErrorView::ChannelNotFound(controller, channel),
        ),
        failed_unwritten(
            fs.run(
                |replies: Seq<ReplyView>|
                    set_period_step(root, controller, channel, nanos, replies),
            ),
            PwmErrorView::ChannelNotFound(controller, channel),
        ),
        failed_unwritten(
            fs.run(
                |replies: Seq<ReplyView>|
                    set_duty_cycle_step(root, controller, channel, nanos, replies),
            ),
            PwmErrorView::ChannelNotFound(controller, channel),
        ),
        failed_unwritten(
            fs.run(
                |replies: Seq<ReplyView>|
                    set_polarity_step(root, controller, channel, polarity, replies),
            ),
            PwmErrorView::ChannelNotFound(controller, channel),
        ),
{
    is_enabled_runs(fs, root, controller, channel);
    enable_runs(fs, root, controller, channel);
    set_period_runs(fs, root, controller, channel, nanos);
    set_duty_cycle_runs(fs, root, controller, channel, nanos);
    set_polarity_runs(fs, root, controller, channel, polarity);
}

/// `set_duty_cycle` fails with `DutyCycleNotLessThanPeriod` if and only if
/// the channel's period can be read and the duty cycle asked for is not
/// below it, and then it asks for no write.
pub proof fn duty_cycle_stays_below_period(
    fs: Sysfs,
    root: Seq<char>,
    controller: Controller,
    channel: Channel,
    duty_cycle: u64,
)
    ensures
        ({
            let run = fs.run(
                |replies: Seq<ReplyView>|
                    set_duty_cycle_step(root, controller, channel, duty_cycle, replies),
            );
            let refused = {
                &&& fs.channel_text(root, controller, channel, "period"@) matches StepView::Done(
                    Ok(text),
                )
                &&& parsed_duration(text) matches Ok(period)
                &&& duty_cycle >= period
            };
            &&& run.step == StepView::<()>::Done(Err(PwmErrorView::DutyCycleNotLessThanPeriod))
                <==> refused
            &&& refused ==> run.writes.len() == 0
        }),
{
    set_duty_cycle_runs(fs, root, controller, channel, duty_cycle);
}

/// `set_period` fails with `DutyCycleNotLessThanPeriod` if and only if the
/// channel's duty cycle can be read and the period asked for is not above
/// it, and then it asks for no write.
pub proof fn period_stays_above_duty_cycle(
    fs: Sysfs,
    root: Seq<char>,
    controller: Controller,
    channel: Channel,
    period: u64,
)
    ensures
        ({
            let run = fs.run(
                |replies: Seq<ReplyView>|
                    set_period_step(root, controller, channel, period, replies),
            );
            let refused = {
                &&& fs.channel_text(root, controller, channel, "duty_cycle"@) matches StepView::Done(
                    Ok(text),
                )
                &&& parsed_duration(text) matches Ok(duty_cycle)
                &&& period <= duty_cycle
            };
            &&& run.step == StepView::<()>::Done(Err(PwmErrorView::DutyCycleNotLessThanPeriod))
                <==> refused
            &&& refused ==> run.writes.len() == 0
        }),
{
    set_period_runs(fs, root, controller, channel, period);
}

/// `set_polarity` fails with `IllegalChangeWhileEnabled` if and only if the
/// channel's flag can be read and says that the channel is enabled, and
/// then it asks for no write.
pub proof fn polarity_changes_only_while_disabled(
    fs: Sysfs,
    root: Seq<char>,
    controller: Controller,
    channel: Channel,
    polarity: Polarity,
)
    ensures
        ({
            let run = fs.run(
                |replies: Seq<ReplyView>|
                    set_polarity_step(root, controller, channel, polarity, replies),
            );
            let enabled = fs.is_enabled(root, controller, channel) == StepView::<bool>::Done(
                Ok(true),
            );
            &&& run.step == StepView::<()>::Done(
                Err(PwmErrorView::IllegalChangeWhileEnabled("polarity"@)),
            ) <==> enabled
            &&& enabled ==> run.writes.len() == 0
        }),
{
    set_polarity_runs(fs, root, controller, channel, polarity);
}

/// `set_period` asks for a write only where the duty cycle can be read and
/// is below the period asked for, and then for one write only: of the
/// period's digits to the channel's file `period`.
pub proof fn period_is_written_only_above_duty_cycle(
    fs: Sysfs,
    root: Seq<char>,
    controller: Controller,
    channel: Channel,
    period: u64,
)
    ensures
        ({
            let run = fs.run(
                |replies: Seq<ReplyView>|
                    set_period_step(root, controller, channel, period, replies),
            );
            run.writes.len() > 0 ==> {
                &&& fs.channel_text(root, controller, channel, "duty_cycle"@) matches StepView::Done(
                    Ok(text),
                )
                &&& parsed_duration(text) matches Ok(duty_cycle)
                &&& duty_cycle < period
                &&& run.writes == seq![
                    ActionView::Write(
                        join(channel_path(root, controller, channel), "period"@),
                        decimal_text(period as nat),
                    ),
                ]
            }
        }),
{
    set_period_runs(fs, root, controller, channel, period);
}

/// `set_duty_cycle` asks for a write only where the period can be read and
/// is above the duty cycle asked for, and then for one write only: of the
/// duty cycle's digits to the channel's file `duty_cycle`.
pub proof fn duty_cycle_is_written_only_below_period(
    fs: Sysfs,
    root: Seq<char>,
    controller: Controller,
    channel: Channel,
    duty_cycle: u64,
)
    ensures
        ({
            let run = fs.run(
                |replies: Seq<ReplyView>|
                    set_duty_cycle_step(root, controller, channel, duty_cycle, replies),
            );
            run.writes.len() > 0 ==> {
                &&& fs.channel_text(root, controller, channel, "period"@) matches StepView::Done(
                    Ok(text),
                )
                &&& parsed_duration(text) matches Ok(period)
                &&& duty_cycle < period
                &&& run.writes == seq![
                    ActionView::Write(
                        join(channel_path(root, controller, channel), "duty_cycle"@),
                        decimal_text(duty_cycle as nat),
                    ),
                ]
            }
        }),
{
    set_duty_cycle_runs(fs, root, controller, channel, duty_cycle);
}

/// `set_polarity` asks for a write only where the channel's flag can be
/// read and says that the channel is disabled, and then for one write only:
/// of the polarity's name to the channel's file `polarity`.
pub proof fn polarity_is_written_only_while_disabled(
    fs: Sysfs,
    root: Seq<char>,
    controller: Controller,
    channel: Channel,
    polarity: Polarity,
)
    ensures
        ({
            let run = fs.run(
                |replies: Seq<ReplyView>|
                    set_polarity_step(root, controller, channel, polarity, replies),
            );
            run.writes.len() > 0 ==> {
                &&& fs.is_enabled(root, controller, channel) == StepView::<bool>::Done(Ok(false))
                &&& run.writes == seq![
                    ActionView::Write(
                        join(channel_path(root, controller, channel), "polarity"@),
                        polarity.name(),
                    ),
                ]
            }
        }),
{
    set_polarity_runs(fs, root, controller, channel, polarity);
}

/// Whether `error` is one of the ways in which the search for a channel's
/// file fails.
pub open spec fn is_search_failure(
    error: PwmErrorView,
    root: Seq<char>,
    controller: Controller,
    channel: Channel,
) -> bool {
    ||| error == PwmErrorView::ControllerNotFound(controller)
    ||| error == PwmErrorView::ChannelNotFound(controller, channel)
    ||| error == PwmErrorView::NotExported(controller)
    ||| error matches PwmErrorView::Sysfs(AccessView::Read(path), _) && path == join(
        controller_path(root, controller),
        "npwm"@,
    )
}

/// Each operation fails in its own ways only: with one of the failures of
/// the search for the file that it addresses, with the failure of its read
/// or its write, with the text that it read and could not use, or with the
/// refusal of what was asked for.
pub proof fn failures_are_of_their_kind(
    fs: Sysfs,
    root: Seq<char>,
    controller: Controller,
    channel: Channel,
    nanos: u64,
    polarity: Polarity,
)
    ensures
        fs.run(
            |replies: Seq<ReplyView>| npwm_step(root, controller, replies, 0),
        ).step matches StepView::Done(Err(error)) ==> {
            ||| error == PwmErrorView::ControllerNotFound(controller)
            ||| error matches PwmErrorView::Sysfs(AccessView::Read(_), _)
        },
        fs.run(
            |replies: Seq<ReplyView>| is_exported_step(root, controller, replies),
        ).step matches StepView::Done(Err(error)) ==> {
            ||| error == PwmErrorView::ControllerNotFound(controller)
            ||| error == PwmErrorView::ChannelNotFound(controller, Channel(0))
            ||| error matches PwmErrorView::Sysfs(AccessView::Read(_), _)
        },
        fs.run(
            |replies: Seq<ReplyView>|
                controller_write_step(root, controller, "export"@, "1"@, replies),
        ).step matches StepView::Done(Err(error)) ==> {
            ||| error == PwmErrorView::ControllerNotFound(controller)
            ||| error matches PwmErrorView::Sysfs(AccessView::Write(_), _)
        },
        fs.run(
            |replies: Seq<ReplyView>|
                controller_write_step(root, controller, "unexport"@, "1"@, replies),
        ).step matches StepView::Done(Err(error)) ==> {
            ||| error == PwmErrorView::ControllerNotFound(controller)
            ||| error matches PwmErrorView::Sysfs(AccessView::Write(_), _)
        },
        fs.run(
            |replies: Seq<ReplyView>| is_enabled_step(root, controller, channel, replies),
        ).step matches StepView::Done(Err(error)) ==> {
            ||| is_search_failure(error, root, controller, channel)
            ||| error matches PwmErrorView::Sysfs(AccessView::Read(_), _)
            ||| error is NotBoolean
        },
        fs.run(
            |replies: Seq<ReplyView>|
                channel_write_step(root, controller, channel, "enable"@, "1"@, replies, 0),
        ).step matches StepView::Done(Err(error)) ==> {
            ||| is_search_failure(error, root, controller, channel)
            ||| error matches PwmErrorView::Sysfs(AccessView::Write(_), _)
        },
        fs.run(
            |replies: Seq<ReplyView>|
                channel_write_step(root, controller, channel, "enable"@, "0"@, replies, 0),
        ).step matches StepView::Done(Err(error)) ==> {
            ||| is_search_failure(error, root, controller, channel)
            ||| error matches PwmErrorView::Sysfs(AccessView::Write(_), _)
        },
        fs.run(
            |replies: Seq<ReplyView>| set_period_step(root, controller, channel, nanos, replies),
        ).step matches StepView::Done(Err(error)) ==> {
            ||| is_search_failure(error, root, controller, channel)
            ||| error is Sysfs
            ||| error is NotADuration
            ||| error is DutyCycleNotLessThanPeriod
        },
        fs.run(
            |replies: Seq<ReplyView>|
                set_duty_cycle_step(root, controller, channel, nanos, replies),
        ).step matches StepView::Done(Err(error)) ==> {
            ||| is_search_failure(error, root, controller, channel)
            ||| error is Sysfs
            ||| error is NotADuration
            ||| error is DutyCycleNotLessThanPeriod
        },
        fs.run(
            |replies: Seq<ReplyView>|
                set_polarity_step(root, controller, channel, polarity, replies),
        ).step matches StepView::Done(Err(error)) ==> {
            ||| is_search_failure(error, root, controller, channel)
            ||| error is Sysfs
            ||| error is NotBoolean
            ||| error is IllegalChangeWhileEnabled
        },
{
    npwm_runs(fs, root, controller);
    is_exported_runs(fs, root, controller);
    export_runs(fs, root, controller);
    is_enabled_runs(fs, root, controller, channel);
    enable_runs(fs, root, controller, channel);
    set_period_runs(fs, root, controller, channel, nanos);
    set_duty_cycle_runs(fs, root, controller, channel, nanos);
    set_polarity_runs(fs, root, controller, channel, polarity);
}

/// Where the controller's directory is there and its file `npwm` reads as
/// a text that is no number, every operation that needs the count fails
/// with the failure of that read, which carries the reason why the text is
/// no number, and asks for no write.
pub proof fn bad_count_is_a_read_error(
    fs: Sysfs,
    root: Seq<char>,
    controller: Controller,
    channel: Channel,
    nanos: u64,
    polarity: Polarity,
    text: Seq<char>,
    reason: DecimalError,
)
    requires
        (fs.is_dir)(controller_path(root, controller)),
        (fs.read)(join(controller_path(root, controller), "npwm"@)) == Ok::<
            Seq<char>,
            Seq<char>,
        >(text),
        count_of(text) == Err::<u32, DecimalError>(reason),
    ensures
        ({
            let error = PwmErrorView::Sysfs(
                AccessView::Read(join(controller_path(root, controller), "npwm"@)),
                reason.text(),
            );
            &&& failed_unwritten(
                fs.run(|replies: Seq<ReplyView>| npwm_step(root, controller, replies, 0)),
                error,
            )
            &&& failed_unwritten(
                fs.run(|replies: Seq<ReplyView>| is_exported_step(root, controller, replies)),
                error,
            )
            &&& failed_unwritten(
                fs.run(
                    |replies: Seq<ReplyView>| is_enabled_step(root, controller, channel, replies),
                ),
                error,
            )
            &&& failed_unwritten(
                fs.run(
                    |replies: Seq<ReplyView>|
                        channel_write_step(root, controller, channel, "enable"@, "1"@, replies, 0),
                ),
                error,
            )
            &&& failed_unwritten(
                fs.run(
                    |replies: Seq<ReplyView>|
                        channel_write_step(root, controller, channel, "enable"@, "0"@, replies, 0),
                ),
                error,
            )
            &&& failed_unwritten(
                fs.run(
                    |replies: Seq<ReplyView>|
                        set_period_step(root, controller, channel, nanos, replies),
                ),
                error,
            )
            &&& failed_unwritten(
                fs.run(
                    |replies: Seq<ReplyView>|
                        set_duty_cycle_step(root, controller, channel, nanos, replies),
                ),
                error,
            )
            &&& failed_unwritten(
                fs.run(
                    |replies: Seq<ReplyView>|
                        set_polarity_step(root, controller, channel, polarity, replies),
                ),
                error,
            )
        }),
{
    npwm_runs(fs, root, controller);
    is_exported_runs(fs, root, controller);
    is_enabled_runs(fs, root, controller, channel);
    enable_runs(fs, root, controller, channel);
    set_period_runs(fs, root, controller, channel, nanos);
    set_duty_cycle_runs(fs, root, controller, channel, nanos);
    set_polarity_runs(fs, root, controller, channel, polarity);
}

/// On a filesystem every operation comes to its end, with a value or with
/// an error: none is left asking, and none gets stuck.
pub proof fn every_run_is_done(
    fs: Sysfs,
    root: Seq<char>,
    controller: Controller,
    channel: Channel,
    nanos: u64,
    polarity: Polarity,
    name: Seq<char>,
    text: Seq<char>,
)
    ensures
        fs.run(|replies: Seq<ReplyView>| npwm_step(root, controller, replies, 0)).step is Done,
        fs.run(|replies: Seq<ReplyView>| is_exported_step(root, controller, replies)).step is Done,
        fs.run(
            |replies: Seq<ReplyView>| controller_write_step(root, controller, name, text, replies),
        ).step is Done,
        fs.run(
            |replies: Seq<ReplyView>| is_enabled_step(root, controller, channel, replies),
        ).step is Done,
        fs.run(
            |replies: Seq<ReplyView>|
                channel_write_step(root, controller, channel, name, text, replies, 0),
        ).step is Done,
        fs.run(
            |replies: Seq<ReplyView>| set_period_step(root, controller, channel, nanos, replies),
        ).step is Done,
        fs.run(
            |replies: Seq<ReplyView>|
                set_duty_cycle_step(root, controller, channel, nanos, replies),
        ).step is Done,
        fs.run(
            |replies: Seq<ReplyView>|
                set_polarity_step(root, controller, channel, polarity, replies),
        ).step is Done,
{
    npwm_runs(fs, root, controller);
    is_exported_runs(fs, root, controller);
    controller_write_runs(fs, root, controller, name, text);
    is_enabled_runs(fs, root, controller, channel);
    channel_write_runs(fs, root, controller, channel, name, text);
    set_period_runs(fs, root, controller, channel, nanos);
    set_duty_cycle_runs(fs, root, controller, channel, nanos);
    set_polarity_runs(fs, root, controller, channel, polarity);
}

/// Whether each of `replies` is of the kind that answers the access that
/// `op` asked for when it had the replies before it.
pub open spec fn well_answered<T>(
    op: spec_fn(Seq<ReplyView>) -> StepView<T>,
    replies: Seq<ReplyView>,
) -> bool {
    forall|k: int|
        0 <= k < replies.len() ==> (#[trigger] op(replies.take(k)) matches StepView::Perform(
            action,
        ) ==> action.answered_by(replies[k]))
}

/// Whether `op` gets stuck only on replies of which one is not of the kind
/// that answers the access asked for.
pub open spec fn stuck_only_on_a_wrong_reply<T>(
    op: spec_fn(Seq<ReplyView>) -> StepView<T>,
) -> bool {
    forall|replies: Seq<ReplyView>|
        well_answered(op, replies) ==> !(#[trigger] op(replies) is Stuck)
}

/// An operation on a file of the controller gets stuck only on a reply of
/// the wrong kind.
pub proof fn controller_operations_take_any_answer(
    root: Seq<char>,
    controller: Controller,
    name: Seq<char>,
    text: Seq<char>,
)
    ensures
        stuck_only_on_a_wrong_reply(
            |replies: Seq<ReplyView>| npwm_step(root, controller, replies, 0),
        ),
        stuck_only_on_a_wrong_reply(
            |replies: Seq<ReplyView>| is_exported_step(root, controller, replies),
        ),
        stuck_only_on_a_wrong_reply(
            |replies: Seq<ReplyView>| controller_write_step(root, controller, name, text, replies),
        ),
{
    let op1 = |replies: Seq<ReplyView>| npwm_step(root, controller, replies, 0);
    assert forall|replies: Seq<ReplyView>| well_answered(op1, replies) implies !(
    #[trigger] op1(replies) is Stuck) by {
        let a = op1(replies.take(0));
        let b = op1(replies.take(1));
    }
    let op2 = |replies: Seq<ReplyView>| is_exported_step(root, controller, replies);
    assert forall|replies: Seq<ReplyView>| well_answered(op2, replies) implies !(
    #[trigger] op2(replies) is Stuck) by {
        let a = op2(replies.take(0));
        let b = op2(replies.take(1));
        let c = op2(replies.take(2));
    }
    let op3 = |replies: Seq<ReplyView>|
        controller_write_step(root, controller, name, text, replies);
    assert forall|replies: Seq<ReplyView>| well_answered(op3, replies) implies !(
    #[trigger] op3(replies) is Stuck) by {
        let a = op3(replies.take(0));
        let b = op3(replies.take(1));
    }
}

/// An operation on a channel gets stuck only on a reply of the wrong kind.
pub proof fn channel_operations_take_any_answer(
    root: Seq<char>,
    controller: Controller,
    channel: Channel,
    name: Seq<char>,
    text: Seq<char>,
)
    ensures
        stuck_only_on_a_wrong_reply(
            |replies: Seq<ReplyView>| is_enabled_step(root, controller, channel, replies),
        ),
        stuck_only_on_a_wrong_reply(
            |replies: Seq<ReplyView>|
                channel_write_step(root, controller, channel, name, text, replies, 0),
        ),
{
    let reads = |replies: Seq<ReplyView>| is_enabled_step(root, controller, channel, replies);
    assert forall|replies: Seq<ReplyView>| well_answered(reads, replies) implies !(
    #[trigger] reads(replies) is Stuck) by {
        let r0 = reads(replies.take(0));
        let r1 = reads(replies.take(1));
        let r2 = reads(replies.take(2));
        let r3 = reads(replies.take(3));
        let r4 = reads(replies.take(4));
    }
    let writes = |replies: Seq<ReplyView>|
        channel_write_step(root, controller, channel, name, text, replies, 0);
    assert forall|replies: Seq<ReplyView>| well_answered(writes, replies) implies !(
    #[trigger] writes(replies) is Stuck) by {
        let r0 = writes(replies.take(0));
        let r1 = writes(replies.take(1));
        let r2 = writes(replies.take(2));
        let r3 = writes(replies.take(3));
        let r4 = writes(replies.take(4));
    }
}

/// `set_period` gets stuck only on a reply of the wrong kind.
#[verifier::rlimit(80)]
pub proof fn set_period_takes_any_answer(
    root: Seq<char>,
    controller: Controller,
    channel: Channel,
    period: u64,
)
    ensures
        stuck_only_on_a_wrong_reply(
            |replies: Seq<ReplyView>| set_period_step(root, controller, channel, period, replies),
        ),
{
    let op = |replies: Seq<ReplyView>| set_period_step(root, controller, channel, period, replies);
    assert forall|replies: Seq<ReplyView>| well_answered(op, replies) implies !(
    #[trigger] op(replies) is Stuck) by {
        let r0 = op(replies.take(0));
        let r1 = op(replies.take(1));
        let r2 = op(replies.take(2));
        let r3 = op(replies.take(3));
        let r4 = op(replies.take(4));
        let r5 = op(replies.take(5));
        let r6 = op(replies.take(6));
        let r7 = op(replies.take(7));
        let r8 = op(replies.take(8));
        let r9 = op(replies.take(9));
    }
}

/// `set_duty_cycle` gets stuck only on a reply of the wrong kind.
#[verifier::rlimit(80)]
pub proof fn set_duty_cycle_takes_any_answer(
    root: Seq<char>,
    controller: Controller,
    channel: Channel,
    duty_cycle: u64,
)
    ensures
        stuck_only_on_a_wrong_reply(
            |replies: Seq<ReplyView>| set_duty_cycle_step(root, controller, channel, duty_cycle, replies),
        ),
{
    let op = |replies: Seq<ReplyView>| set_duty_cycle_step(root, controller, channel, duty_cycle, replies);
    assert forall|replies: Seq<ReplyView>| well_answered(op, replies) implies !(
    #[trigger] op(replies) is Stuck) by {
        let r0 = op(replies.take(0));
        let r1 = op(replies.take(1));
        let r2 = op(replies.take(2));
        let r3 = op(replies.take(3));
        let r4 = op(replies.take(4));
        let r5 = op(replies.take(5));
        let r6 = op(replies.take(6));
        let r7 = op(replies.take(7));
        let r8 = op(replies.take(8));
        let r9 = op(replies.take(9));
    }
}

/// `set_polarity` gets stuck only on a reply of the wrong kind.
#[verifier::rlimit(80)]
pub proof fn set_polarity_takes_any_answer(
    root: Seq<char>,
    controller: Controller,
    channel: Channel,
    polarity: Polarity,
)
    ensures
        stuck_only_on_a_wrong_reply(
            |replies: Seq<ReplyView>| set_polarity_step(root, controller, channel, polarity, replies),
        ),
{
    let op = |replies: Seq<ReplyView>| set_polarity_step(root, controller, channel, polarity, replies);
    assert forall|replies: Seq<ReplyView>| well_answered(op, replies) implies !(
    #[trigger] op(replies) is Stuck) by {
        let r0 = op(replies.take(0));
        let r1 = op(replies.take(1));
        let r2 = op(replies.take(2));
        let r3 = op(replies.take(3));
        let r4 = op(replies.take(4));
        let r5 = op(replies.take(5));
        let r6 = op(replies.take(6));
        let r7 = op(replies.take(7));
        let r8 = op(replies.take(8));
        let r9 = op(replies.take(9));
    }
}

/// `enable`, `disable`, `export` and `unexport` do not look at the state
/// that they set: on two filesystems that differ only in what files other
/// than `npwm` hold, each of them runs the same, so that it repeats its
/// write where the state is already the one asked for.
pub proof fn switching_repeats_its_write(
    fs: Sysfs,
    other: Sysfs,
    root: Seq<char>,
    controller: Controller,
    channel: Channel,
)
    requires
        other.is_dir == fs.is_dir,
        other.is_file == fs.is_file,
        other.write == fs.write,
        (other.read)(join(controller_path(root, controller), "npwm"@)) == (fs.read)(
            join(controller_path(root, controller), "npwm"@),
        ),
    ensures
        other.run(
            |replies: Seq<ReplyView>|
                channel_write_step(root, controller, channel, "enable"@, "1"@, replies, 0),
        ) == fs.run(
            |replies: Seq<ReplyView>|
                channel_write_step(root, controller, channel, "enable"@, "1"@, replies, 0),
        ),
        other.run(
            |replies: Seq<ReplyView>|
                channel_write_step(root, controller, channel, "enable"@, "0"@, replies, 0),
        ) == fs.run(
            |replies: Seq<ReplyView>|
                channel_write_step(root, controller, channel, "enable"@, "0"@, replies, 0),
        ),
        other.run(
            |replies: Seq<ReplyView>|
                controller_write_step(root, controller, "export"@, "1"@, replies),
        ) == fs.run(
            |replies: Seq<ReplyView>|
                controller_write_step(root, controller, "export"@, "1"@, replies),
        ),
        other.run(
            |replies: Seq<ReplyView>|
                controller_write_step(root, controller, "unexport"@, "1"@, replies),
        ) == fs.run(
            |replies: Seq<ReplyView>|
                controller_write_step(root, controller, "unexport"@, "1"@, replies),
        ),
{
    enable_runs(fs, root, controller, channel);
    enable_runs(other, root, controller, channel);
    export_runs(fs, root, controller);
    export_runs(other, root, controller);
}

/// Whether `op`, once it has asked for a write, asks for nothing more
/// whatever it is given.
pub open spec fn ends_with_write<T>(op: spec_fn(Seq<ReplyView>) -> StepView<T>) -> bool {
    forall|replies: Seq<ReplyView>, reply: ReplyView|
        (#[trigger] op(replies) matches StepView::Perform(ActionView::Write(_, _))) ==> !(
        #[trigger] op(replies.push(reply)) is Perform)
}

/// The write to a file of the channel is asked for after the four replies
/// of the search for the file, and no access is asked for after it.
proof fn lemma_channel_write_is_fifth(
    root: Seq<char>,
    controller: Controller,
    channel: Channel,
    name: Seq<char>,
    text: Seq<char>,
    replies: Seq<ReplyView>,
    at: int,
)
    requires
        0 <= at,
    ensures
        channel_write_step(root, controller, channel, name, text, replies, at) matches StepView::Perform(
            ActionView::Write(_, _),
        ) ==> replies.len() == at + 4,
        replies.len() > at + 4 ==> !(channel_write_step(
            root,
            controller,
            channel,
            name,
            text,
            replies,
            at,
        ) is Perform),
{
}

/// A setter asks for its write after nine replies.
proof fn lemma_setters_write_tenth(
    root: Seq<char>,
    controller: Controller,
    channel: Channel,
    nanos: u64,
    polarity: Polarity,
    replies: Seq<ReplyView>,
)
    ensures
        set_period_step(root, controller, channel, nanos, replies) matches StepView::Perform(
            ActionView::Write(_, _),
        ) ==> replies.len() == 9,
        set_duty_cycle_step(root, controller, channel, nanos, replies) matches StepView::Perform(
            ActionView::Write(_, _),
        ) ==> replies.len() == 9,
        set_polarity_step(root, controller, channel, polarity, replies) matches StepView::Perform(
            ActionView::Write(_, _),
        ) ==> replies.len() == 9,
{
    lemma_channel_write_is_fifth(root, controller, channel, "period"@, decimal_text(nanos as nat), replies, 5);
    lemma_channel_write_is_fifth(root, controller, channel, "duty_cycle"@, decimal_text(nanos as nat), replies, 5);
    lemma_channel_write_is_fifth(root, controller, channel, "polarity"@, polarity.name(), replies, 5);
}

/// A write is the last access that an operation asks for, so that what a
/// write changes is read by no operation that made it.
pub proof fn write_comes_last(
    root: Seq<char>,
    controller: Controller,
    channel: Channel,
    nanos: u64,
    polarity: Polarity,
    name: Seq<char>,
    text: Seq<char>,
)
    ensures
        ends_with_write(
            |replies: Seq<ReplyView>| controller_write_step(root, controller, name, text, replies),
        ),
        ends_with_write(
            |replies: Seq<ReplyView>|
                channel_write_step(root, controller, channel, name, text, replies, 0),
        ),
        ends_with_write(
            |replies: Seq<ReplyView>| set_period_step(root, controller, channel, nanos, replies),
        ),
        ends_with_write(
            |replies: Seq<ReplyView>|
                set_duty_cycle_step(root, controller, channel, nanos, replies),
        ),
        ends_with_write(
            |replies: Seq<ReplyView>|
                set_polarity_step(root, controller, channel, polarity, replies),
        ),
{
    operations_end(root, controller, channel, nanos, polarity, name, text);
    assert forall|replies: Seq<ReplyView>, reply: ReplyView|
        (channel_write_step(
            root,
            controller,
            channel,
            name,
            text,
            replies,
            0,
        ) matches StepView::Perform(ActionView::Write(_, _))) implies !(channel_write_step(
        root,
        controller,
        channel,
        name,
        text,
        #[trigger] replies.push(reply),
        0,
    ) is Perform) by {
        lemma_channel_write_is_fifth(root, controller, channel, name, text, replies, 0);
        lemma_channel_write_is_fifth(
            root,
            controller,
            channel,
            name,
            text,
            replies.push(reply),
            0,
        );
    }
    assert forall|replies: Seq<ReplyView>| #[trigger] replies.len() >= 0 implies ({
        &&& set_period_step(root, controller, channel, nanos, replies) matches StepView::Perform(
            ActionView::Write(_, _),
        ) ==> replies.len() == 9
        &&& set_duty_cycle_step(
            root,
            controller,
            channel,
            nanos,
            replies,
        ) matches StepView::Perform(ActionView::Write(_, _)) ==> replies.len() == 9
        &&& set_polarity_step(
            root,
            controller,
            channel,
            polarity,
            replies,
        ) matches StepView::Perform(ActionView::Write(_, _)) ==> replies.len() == 9
    }) by {
        lemma_setters_write_tenth(root, controller, channel, nanos, polarity, replies);
    }
}

/// Whether `op` asks for no access once it has `MAX_ACCESSES` replies.
pub open spec fn ends_in_time<T>(op: spec_fn(Seq<ReplyView>) -> StepView<T>) -> bool {
    forall|replies: Seq<ReplyView>|
        replies.len() >= MAX_ACCESSES ==> !(#[trigger] op(replies) is Perform)
}

/// No operation asks for more than `MAX_ACCESSES` accesses, whatever the
/// replies are.
pub proof fn operations_end(
    root: Seq<char>,
    controller: Controller,
    channel: Channel,
    nanos: u64,
    polarity: Polarity,
    name: Seq<char>,
    text: Seq<char>,
)
    ensures
        ends_in_time(|replies: Seq<ReplyView>| npwm_step(root, controller, replies, 0)),
        ends_in_time(|replies: Seq<ReplyView>| is_exported_step(root, controller, replies)),
        ends_in_time(
            |replies: Seq<ReplyView>| controller_write_step(root, controller, name, text, replies),
        ),
        ends_in_time(
            |replies: Seq<ReplyView>| is_enabled_step(root, controller, channel, replies),
        ),
        ends_in_time(
            |replies: Seq<ReplyView>|
                channel_write_step(root, controller, channel, name, text, replies, 0),
        ),
        ends_in_time(
            |replies: Seq<ReplyView>| set_period_step(root, controller, channel, nanos, replies),
        ),
        ends_in_time(
            |replies: Seq<ReplyView>|
                set_duty_cycle_step(root, controller, channel, nanos, replies),
        ),
        ends_in_time(
            |replies: Seq<ReplyView>|
                set_polarity_step(root, controller, channel, polarity, replies),
        ),
{
}

} // verus!
