//! Identifiers of controllers and channels, and everything that can go wrong.

use vstd::prelude::*;
use vstd::string::*;

use crate::decimal::{decimal_text, push_decimal, DecimalError};

verus! {

/// A PWM controller (a PWM chip), identified by a non-negative number.
#[derive(Debug, Clone, Copy, PartialEq, Eq, Structural)]
pub struct Controller(pub u32);

/// A channel of a PWM controller, identified by a non-negative number.
#[derive(Debug, Clone, Copy, PartialEq, Eq, Structural)]
pub struct Channel(pub u32);

/// The filesystem access that failed, with the path it was made at.
#[derive(Debug, PartialEq, Eq)]
pub enum Access {
    Read(String),
    Write(String),
}

/// What the filesystem reported when an access failed.
#[derive(Debug, PartialEq, Eq)]
pub struct IoFailure {
    /// The description of the failure.
    pub message: String,
}

/// Everything that can go wrong.
#[derive(Debug, PartialEq, Eq)]
pub enum PwmError {
    /// The controller's directory, or the file asked for in it, is missing.
    ControllerNotFound(Controller),
    /// The channel's number is not below the controller's channel count.
    ChannelNotFound(Controller, Channel),
    /// The channel's number is valid, but its directory or file is missing.
    NotExported(Controller),
    /// The filesystem refused a read or a write.
    Sysfs(Access, IoFailure),
    /// The duty cycle would not stay below the period.
    DutyCycleNotLessThanPeriod,
    /// The text names no polarity.
    InvalidPolarity,
    /// The named property cannot be changed while the channel is enabled.
    IllegalChangeWhileEnabled(&'static str),
    /// The text read back is no boolean.
    NotBoolean(String),
    /// The text read back is no duration in nanoseconds.
    NotADuration(String, DecimalError),
}

/// An `Access` with its path as a sequence of characters.
pub enum AccessView {
    Read(Seq<char>),
    Write(Seq<char>),
}

/// A `PwmError` with its texts as sequences of characters.
pub enum PwmErrorView {
    ControllerNotFound(Controller),
    ChannelNotFound(Controller, Channel),
    NotExported(Controller),
    Sysfs(AccessView, Seq<char>),
    DutyCycleNotLessThanPeriod,
    InvalidPolarity,
    IllegalChangeWhileEnabled(Seq<char>),
    NotBoolean(Seq<char>),
    NotADuration(Seq<char>, DecimalError),
}

impl View for Access {
    type V = AccessView;

    open spec fn view(&self) -> AccessView {
        match self {
            Access::Read(path) => AccessView::Read(path@),
            Access::Write(path) => AccessView::Write(path@),
        }
    }
}

impl View for IoFailure {
    type V = Seq<char>;

    open spec fn view(&self) -> Seq<char> {
        self.message@
    }
}

impl View for PwmError {
    type V = PwmErrorView;

    open spec fn view(&self) -> PwmErrorView {
        match self {
            PwmError::ControllerNotFound(controller) => PwmErrorView::ControllerNotFound(
                *controller,
            ),
            PwmError::ChannelNotFound(controller, channel) => PwmErrorView::ChannelNotFound(
                *controller,
                *channel,
            ),
            PwmError::NotExported(controller) => PwmErrorView::NotExported(*controller),
            PwmError::Sysfs(access, failure) => PwmErrorView::Sysfs(access@, failure@),
            PwmError::DutyCycleNotLessThanPeriod => PwmErrorView::DutyCycleNotLessThanPeriod,
            PwmError::InvalidPolarity => PwmErrorView::InvalidPolarity,
            PwmError::IllegalChangeWhileEnabled(property) => PwmErrorView::IllegalChangeWhileEnabled(
                property@,
            ),
            PwmError::NotBoolean(text) => PwmErrorView::NotBoolean(text@),
            PwmError::NotADuration(text, reason) => PwmErrorView::NotADuration(text@, *reason),
        }
    }
}

/// A result with its error seen as a `PwmErrorView`.
pub open spec fn outcome<T>(result: Result<T, PwmError>) -> Result<T, PwmErrorView> {
    match result {
        Ok(value) => Ok(value),
        Err(error) => Err(error@),
    }
}

/// The text that `{:?}` gives for a string: the string between double
/// quotes, with escapes for the characters that cannot stand there.
pub uninterp spec fn debug_text(text: Seq<char>) -> Seq<char>;

/// `text` as `{:?}` writes it.
///
/// Calls `<str as core::fmt::Debug>::fmt` through `format!`. The contract
/// claims only that the result is a function of the characters of `text`.
#[verifier::external_body]
fn quoted(text: &str) -> (out: String)
    ensures
        out@ == debug_text(text@),
{
    format!("{:?}", text)
}

impl AccessView {
    /// The path of the access.
    pub open spec fn path(self) -> Seq<char> {
        match self {
            AccessView::Read(path) => path,
            AccessView::Write(path) => path,
        }
    }
}

impl Access {
    /// The path of the access.
    pub fn path(&self) -> (path: &str)
        ensures
            path@ == self@.path(),
    {
        match self {
            Access::Read(path) => path.as_str(),
            Access::Write(path) => path.as_str(),
        }
    }
}

/// `kind` and the number `id` in brackets behind it.
pub open spec fn tagged(kind: Seq<char>, id: u32) -> Seq<char> {
    kind + "("@ + decimal_text(id as nat) + ")"@
}

impl PwmErrorView {
    /// The text of the error that its message shows between quotes: a
    /// path, or what was read in place of a value.
    pub open spec fn quoted_part(self) -> Seq<char> {
        match self {
            PwmErrorView::Sysfs(access, _) => access.path(),
            PwmErrorView::NotBoolean(text) => text,
            PwmErrorView::NotADuration(text, _) => text,
            _ => Seq::empty(),
        }
    }

    /// The message of the error, with `quoted` for its quoted part.
    pub open spec fn message(self, quoted: Seq<char>) -> Seq<char> {
        match self {
            PwmErrorView::ControllerNotFound(controller) => tagged("Controller"@, controller.0)
                + " not found"@,
            PwmErrorView::ChannelNotFound(controller, channel) => tagged(
                "Controller"@,
                controller.0,
            ) + "/"@ + tagged("Channel"@, channel.0) + " not found"@,
            PwmErrorView::NotExported(controller) => tagged("Controller"@, controller.0)
                + " not exported"@,
            PwmErrorView::Sysfs(AccessView::Read(_), failure) => "failed to Read("@ + quoted
                + "): "@ + failure,
            PwmErrorView::Sysfs(AccessView::Write(_), failure) => "failed to Write("@ + quoted
                + "): "@ + failure,
            PwmErrorView::DutyCycleNotLessThanPeriod =>
                "duty cycle value must be less than the period value"@,
            PwmErrorView::InvalidPolarity => "legal polarity values: 'normal', 'inversed'"@,
            PwmErrorView::IllegalChangeWhileEnabled(property) => property
                + " cannot be changed while channel is enabled"@,
            PwmErrorView::NotBoolean(_) => "expected boolean value, got "@ + quoted,
            PwmErrorView::NotADuration(_, reason) => "expected a duration in nanoseconds, got "@
                + quoted + ": "@ + reason.text(),
        }
    }
}

/// Appends `kind` and the number `id` in brackets to `out`.
fn push_tagged(out: &mut String, kind: &str, id: u32)
    ensures
        final(out)@ == old(out)@ + tagged(kind@, id),
{
    out.append(kind);
    out.append("(");
    push_decimal(out, id as u64);
    out.append(")");
    proof {
        assert(final(out)@ =~= old(out)@ + tagged(kind@, id));
    }
}

impl PwmError {
    /// The message of the error, given its quoted part as `{:?}` writes it.
    pub fn message_quoting(&self, quoted: &str) -> (message: String)
        ensures
            message@ == self@.message(quoted@),
    {
        let mut out = String::new();
        match self {
            PwmError::ControllerNotFound(controller) => {
                push_tagged(&mut out, "Controller", controller.0);
                out.append(" not found");
            },
            PwmError::ChannelNotFound(controller, channel) => {
                push_tagged(&mut out, "Controller", controller.0);
                out.append("/");
                push_tagged(&mut out, "Channel", channel.0);
                out.append(" not found");
            },
            PwmError::NotExported(controller) => {
                push_tagged(&mut out, "Controller", controller.0);
                out.append(" not exported");
            },
            PwmError::Sysfs(Access::Read(_), failure) => {
                out.append("failed to Read(");
                out.append(quoted);
                out.append("): ");
                out.append(failure.message.as_str());
            },
            PwmError::Sysfs(Access::Write(_), failure) => {
                out.append("failed to Write(");
                out.append(quoted);
                out.append("): ");
                out.append(failure.message.as_str());
            },
            PwmError::DutyCycleNotLessThanPeriod => {
                out.append("duty cycle value must be less than the period value");
            },
            PwmError::InvalidPolarity => {
                out.append("legal polarity values: 'normal', 'inversed'");
            },
            PwmError::IllegalChangeWhileEnabled(property) => {
                out.append(property);
                out.append(" cannot be changed while channel is enabled");
            },
            PwmError::NotBoolean(_) => {
                out.append("expected boolean value, got ");
                out.append(quoted);
            },
            PwmError::NotADuration(_, reason) => {
                out.append("expected a duration in nanoseconds, got ");
                out.append(quoted);
                out.append(": ");
                out.append(reason.as_str());
            },
        }
        proof {
            assert(out@ =~= self@.message(quoted@));
        }
        out
    }

    /// The message of the error.
    pub fn message(&self) -> (message: String)
        ensures
            message@ == self@.message(debug_text(self@.quoted_part())),
    {
        let quoted = match self {
            PwmError::Sysfs(access, _) => quoted(access.path()),
            PwmError::NotBoolean(text) => quoted(text.as_str()),
            PwmError::NotADuration(text, _) => quoted(text.as_str()),
            _ => quoted(""),
        };
        proof {
            assert(""@ =~= Seq::<char>::empty()) by {
                reveal_strlit("");
            }
        }
        self.message_quoting(quoted.as_str())
    }
}

} // verus!
