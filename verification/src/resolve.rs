//! From a controller, a channel and a name to a path below the sysfs root,
//! with a distinct error for each thing that can be missing on the way.

use vstd::prelude::*;
use vstd::string::*;

use crate::codec::{count_of, parse_count};
use crate::decimal::{decimal_text, is_digit, lemma_decimal_text, push_decimal};
use crate::error::{Access, AccessView, Channel, Controller, IoFailure, PwmError, PwmErrorView};
use crate::sysfs::{views, Action, ActionView, Reply, ReplyView, Step, StepView};
use crate::text::{join, join_path};

verus! {

/// The directory of `controller` below `root`.
pub open spec fn controller_path(root: Seq<char>, controller: Controller) -> Seq<char> {
    join(root, "pwmchip"@ + decimal_text(controller.0 as nat))
}

/// The file `name` of `controller` below `root`. Whatever `name` is, the
/// path stays below `root`.
pub open spec fn controller_file_path(
    root: Seq<char>,
    controller: Controller,
    name: Seq<char>,
) -> Seq<char> {
    join(root, "pwmchip"@ + decimal_text(controller.0 as nat) + "/"@ + name)
}

/// The directory of `channel` below that of `controller`.
pub open spec fn channel_path(root: Seq<char>, controller: Controller, channel: Channel) -> Seq<
    char,
> {
    join(controller_path(root, controller), "pwm"@ + decimal_text(channel.0 as nat))
}

/// Asks whether `path` is there, as a directory if `dir` is set and as a
/// file if not, and reads the answer from the reply at `at`: the path if it
/// is there, `missing` if it is not.
pub open spec fn probe_step(
    path: Seq<char>,
    dir: bool,
    missing: PwmErrorView,
    replies: Seq<ReplyView>,
    at: int,
) -> StepView<Seq<char>> {
    if at >= replies.len() {
        StepView::Perform(
            if dir {
                ActionView::IsDir(path)
            } else {
                ActionView::IsFile(path)
            },
        )
    } else {
        match replies[at] {
            ReplyView::Found(true) => StepView::Done(Ok(path)),
            ReplyView::Found(false) => StepView::Done(Err(missing)),
            _ => StepView::Stuck,
        }
    }
}

/// Asks for the text of the file at `path` and reads it from the reply at `at`.
pub open spec fn read_step(path: Seq<char>, replies: Seq<ReplyView>, at: int) -> StepView<
    Seq<char>,
> {
    if at >= replies.len() {
        StepView::Perform(ActionView::Read(path))
    } else {
        match replies[at] {
            ReplyView::Contents(text) => StepView::Done(Ok(text)),
            ReplyView::Failed(failure) => StepView::Done(
                Err(PwmErrorView::Sysfs(AccessView::Read(path), failure)),
            ),
            _ => StepView::Stuck,
        }
    }
}

/// Asks for `text` to be written to the file at `path` and reads from the
/// reply at `at` whether it was.
pub open spec fn write_step(
    path: Seq<char>,
    text: Seq<char>,
    replies: Seq<ReplyView>,
    at: int,
) -> StepView<()> {
    if at >= replies.len() {
        StepView::Perform(ActionView::Write(path, text))
    } else {
        match replies[at] {
            ReplyView::Written => StepView::Done(Ok(())),
            ReplyView::Failed(failure) => StepView::Done(
                Err(PwmErrorView::Sysfs(AccessView::Write(path), failure)),
            ),
            _ => StepView::Stuck,
        }
    }
}

/// The controller's directory, which must be there. Takes one reply.
pub open spec fn controller_dir_step(
    root: Seq<char>,
    controller: Controller,
    replies: Seq<ReplyView>,
    at: int,
) -> StepView<Seq<char>> {
    probe_step(
        controller_path(root, controller),
        true,
        PwmErrorView::ControllerNotFound(controller),
        replies,
        at,
    )
}

/// The file `name` of the controller, which must be there. Takes one reply.
pub open spec fn controller_file_step(
    root: Seq<char>,
    controller: Controller,
    name: Seq<char>,
    replies: Seq<ReplyView>,
    at: int,
) -> StepView<Seq<char>> {
    probe_step(
        controller_file_path(root, controller, name),
        false,
        PwmErrorView::ControllerNotFound(controller),
        replies,
        at,
    )
}

/// What comes of the text read at `path` as a channel count: the count,
/// or the failure of the read with the reason why the text is no number.
pub open spec fn count_read(path: Seq<char>, text: Seq<char>) -> Result<u32, PwmErrorView> {
    match count_of(text) {
        Ok(count) => Ok(count),
        Err(reason) => Err(PwmErrorView::Sysfs(AccessView::Read(path), reason.text())),
    }
}

/// The controller's channel count: its directory must be there, and its
/// file `npwm` is read and must hold a number. Takes two replies.
pub open spec fn npwm_step(
    root: Seq<char>,
    controller: Controller,
    replies: Seq<ReplyView>,
    at: int,
) -> StepView<u32> {
    controller_dir_step(root, controller, replies, at).and_then(
        |dir: Seq<char>|
            read_step(join(dir, "npwm"@), replies, at + 1).and_then(
                |text: Seq<char>| StepView::Done(count_read(join(dir, "npwm"@), text)),
            ),
    )
}

/// The channel's directory: the controller must be there, the channel's
/// number below the controller's count, and the directory there. Takes
/// three replies.
pub open spec fn channel_dir_step(
    root: Seq<char>,
    controller: Controller,
    channel: Channel,
    replies: Seq<ReplyView>,
    at: int,
) -> StepView<Seq<char>> {
    npwm_step(root, controller, replies, at).and_then(
        |count: u32|
            if channel.0 >= count {
                StepView::Done(Err(PwmErrorView::ChannelNotFound(controller, channel)))
            } else {
                probe_step(
                    channel_path(root, controller, channel),
                    true,
                    PwmErrorView::NotExported(controller),
                    replies,
                    at + 2,
                )
            },
    )
}

/// The file `name` of the channel: as the channel's directory, and then the
/// file must be there. Takes four replies.
pub open spec fn channel_file_step(
    root: Seq<char>,
    controller: Controller,
    channel: Channel,
    name: Seq<char>,
    replies: Seq<ReplyView>,
    at: int,
) -> StepView<Seq<char>> {
    channel_dir_step(root, controller, channel, replies, at).and_then(
        |dir: Seq<char>|
            probe_step(
                join(dir, name),
                false,
                PwmErrorView::NotExported(controller),
                replies,
                at + 3,
            ),
    )
}

/// The path of a file of the controller starts with the root, whatever the
/// file's name is.
pub proof fn controller_file_stays_below_root(
    root: Seq<char>,
    controller: Controller,
    name: Seq<char>,
)
    ensures
        root.is_prefix_of(controller_file_path(root, controller, name)),
{
    reveal_strlit("pwmchip");
    let below = "pwmchip"@ + decimal_text(controller.0 as nat) + "/"@ + name;
    assert(below.first() == 'p');
    let path = controller_file_path(root, controller, name);
    assert(path.subrange(0, root.len() as int) =~= root);
}

/// A file of the controller whose name does not start with a slash has its
/// path in the controller's directory.
pub proof fn controller_file_is_in_its_directory(
    root: Seq<char>,
    controller: Controller,
    name: Seq<char>,
)
    requires
        name.len() == 0 || name.first() != '/',
    ensures
        controller_file_path(root, controller, name) == join(
            controller_path(root, controller),
            name,
        ),
{
    reveal_strlit("pwmchip");
    reveal_strlit("/");
    let digits = decimal_text(controller.0 as nat);
    lemma_decimal_text(controller.0 as nat);
    let chip = "pwmchip"@ + digits;
    assert(chip.first() == 'p');
    assert(is_digit(digits.last()));
    assert(chip.last() == digits.last());
    let dir = controller_path(root, controller);
    assert(dir.last() == chip.last());
    assert(("pwmchip"@ + digits + "/"@ + name).first() == 'p');
    assert(controller_file_path(root, controller, name) =~= join(dir, name));
}

/// Exposes the PWM controllers that the kernel presents below one directory.
///
/// The kernel presents PWM controllers and their settings as files, so every
/// operation is a series of file reads and writes. The directory is
/// `/sys/class/pwm` on a running system and can be any other for testing.
#[derive(Debug)]
pub struct Pwm {
    sysfs_root: String,
}

impl View for Pwm {
    type V = Seq<char>;

    /// The path of the root directory.
    closed spec fn view(&self) -> Seq<char> {
        self.sysfs_root@
    }
}

/// One step of asking whether `path` is there.
pub(crate) fn probe(path: String, dir: bool, missing: PwmError, replies: &[Reply], at: usize) -> (step:
    Step<String>)
    ensures
        step@ == probe_step(path@, dir, missing@, views(replies@), at as int),
{
    if at >= replies.len() {
        return Step::Perform(
            if dir {
                Action::IsDir(path)
            } else {
                Action::IsFile(path)
            },
        );
    }
    match &replies[at] {
        Reply::Found(true) => Step::Done(Ok(path)),
        Reply::Found(false) => Step::Done(Err(missing)),
        _ => Step::Stuck,
    }
}

/// One step of reading the file at `path`.
pub(crate) fn read(path: String, replies: &[Reply], at: usize) -> (step: Step<String>)
    ensures
        step@ == read_step(path@, views(replies@), at as int),
{
    if at >= replies.len() {
        return Step::Perform(Action::Read(path));
    }
    match &replies[at] {
        Reply::Contents(text) => Step::Done(Ok(text.clone())),
        Reply::Failed(failure) => Step::Done(
            Err(PwmError::Sysfs(Access::Read(path), IoFailure { message: failure.message.clone() })),
        ),
        _ => Step::Stuck,
    }
}

/// One step of writing `text` to the file at `path`.
pub(crate) fn write(path: String, text: String, replies: &[Reply], at: usize) -> (step: Step<()>)
    ensures
        step@ == write_step(path@, text@, views(replies@), at as int),
{
    if at >= replies.len() {
        return Step::Perform(Action::Write(path, text));
    }
    match &replies[at] {
        Reply::Written => Step::Done(Ok(())),
        Reply::Failed(failure) => Step::Done(
            Err(
                PwmError::Sysfs(Access::Write(path), IoFailure { message: failure.message.clone() }),
            ),
        ),
        _ => Step::Stuck,
    }
}

impl Pwm {
    /// A `Pwm` on the kernel's own directory, `/sys/class/pwm`.
    pub fn new() -> (pwm: Pwm)
        ensures
            pwm@ == "/sys/class/pwm"@,
    {
        Pwm::with_sysfs_root("/sys/class/pwm".to_owned())
    }

    /// A `Pwm` on another directory, for testing.
    pub fn with_sysfs_root(sysfs_root: String) -> (pwm: Pwm)
        ensures
            pwm@ == sysfs_root@,
    {
        Pwm { sysfs_root }
    }

    /// The path of the root directory.
    pub fn sysfs_root(&self) -> (root: &str)
        ensures
            root@ == self@,
    {
        self.sysfs_root.as_str()
    }

    /// The path of the controller's directory.
    pub fn controller_path(&self, controller: &Controller) -> (path: String)
        ensures
            path@ == controller_path(self@, *controller),
    {
        let mut name = "pwmchip".to_owned();
        push_decimal(&mut name, controller.0 as u64);
        join_path(self.sysfs_root.as_str(), name.as_str())
    }

    /// The path of the controller's file `fname`.
    pub fn controller_file_path(&self, controller: &Controller, fname: &str) -> (path: String)
        ensures
            path@ == controller_file_path(self@, *controller, fname@),
    {
        let mut name = "pwmchip".to_owned();
        push_decimal(&mut name, controller.0 as u64);
        name.append("/");
        name.append(fname);
        join_path(self.sysfs_root.as_str(), name.as_str())
    }

    /// The path of the channel's directory.
    pub fn channel_path(&self, controller: &Controller, channel: &Channel) -> (path: String)
        ensures
            path@ == channel_path(self@, *controller, *channel),
    {
        let mut name = "pwm".to_owned();
        push_decimal(&mut name, channel.0 as u64);
        join_path(self.controller_path(controller).as_str(), name.as_str())
    }

    /// The controller's directory, if the reply at `at` says that it is
    /// there; `ControllerNotFound` if it says that it is not.
    pub fn controller_dir(&self, controller: &Controller, replies: &[Reply], at: usize) -> (step:
        Step<String>)
        ensures
            step@ == controller_dir_step(self@, *controller, views(replies@), at as int),
    {
        probe(
            self.controller_path(controller),
            true,
            PwmError::ControllerNotFound(*controller),
            replies,
            at,
        )
    }

    /// The path of the controller's file `fname`, if the reply at `at` says
    /// that it is there; `ControllerNotFound` if it says that it is not.
    pub fn controller_file(
        &self,
        controller: &Controller,
        fname: &str,
        replies: &[Reply],
        at: usize,
    ) -> (step: Step<String>)
        ensures
            step@ == controller_file_step(self@, *controller, fname@, views(replies@), at as int),
    {
        probe(
            self.controller_file_path(controller, fname),
            false,
            PwmError::ControllerNotFound(*controller),
            replies,
            at,
        )
    }

    /// The number of channels of the controller, from the two replies at
    /// `at`. A text that is no number is a failure of the read.
    pub fn npwm_at(&self, controller: &Controller, replies: &[Reply], at: usize) -> (step: Step<
        u32,
    >)
        ensures
            step@ == npwm_step(self@, *controller, views(replies@), at as int),
    {
        let dir = match self.controller_dir(controller, replies, at) {
            Step::Done(Ok(dir)) => dir,
            other => return other.pass(),
        };
        assert(at < replies.len());
        let text = match read(join_path(dir.as_str(), "npwm"), replies, at + 1) {
            Step::Done(Ok(text)) => text,
            other => return other.pass(),
        };
        match parse_count(text.as_str()) {
            Ok(count) => Step::Done(Ok(count)),
            Err(reason) => Step::Done(
                Err(
                    PwmError::Sysfs(
                        Access::Read(join_path(dir.as_str(), "npwm")),
                        IoFailure { message: reason.as_str().to_owned() },
                    ),
                ),
            ),
        }
    }

    /// The channel's directory, from the three replies at `at`:
    /// `ChannelNotFound` if the channel's number is not below the
    /// controller's count, `NotExported` if the directory is not there.
    pub fn channel_dir(
        &self,
        controller: &Controller,
        channel: &Channel,
        replies: &[Reply],
        at: usize,
    ) -> (step: Step<String>)
        ensures
            step@ == channel_dir_step(self@, *controller, *channel, views(replies@), at as int),
    {
        let count = match self.npwm_at(controller, replies, at) {
            Step::Done(Ok(count)) => count,
            other => return other.pass(),
        };
        if channel.0 >= count {
            return Step::Done(Err(PwmError::ChannelNotFound(*controller, *channel)));
        }
        assert(at + 1 < replies.len());
        probe(
            self.channel_path(controller, channel),
            true,
            PwmError::NotExported(*controller),
            replies,
            at + 2,
        )
    }

    /// The path of the channel's file `fname`, from the four replies at
    /// `at`: as `channel_dir`, and `NotExported` if the file is not there.
    pub fn channel_file(
        &self,
        controller: &Controller,
        channel: &Channel,
        fname: &str,
        replies: &[Reply],
        at: usize,
    ) -> (step: Step<String>)
        ensures
            step@ == channel_file_step(
                self@,
                *controller,
                *channel,
                fname@,
                views(replies@),
                at as int,
            ),
    {
        let dir = match self.channel_dir(controller, channel, replies, at) {
            Step::Done(Ok(dir)) => dir,
            other => return other.pass(),
        };
        assert(at + 2 < replies.len());
        probe(
            join_path(dir.as_str(), fname),
            false,
            PwmError::NotExported(*controller),
            replies,
            at + 3,
        )
    }
}

} // verus!
