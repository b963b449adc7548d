//! What can go wrong, and the words in which it is reported.

use vstd::prelude::*;
use vstd::string::StringExecFns;

verus! {

/// The settings that are validated.
#[derive(Clone, Copy, Debug, PartialEq, Eq, Structural)]
pub enum Field {
    WebhookUrl,
    Channel,
    Username,
    IconEmoji,
}

/// Why a value was turned down.
#[derive(Clone, Copy, Debug, PartialEq, Eq, Structural)]
pub enum Reason {
    /// No value at all.
    Unset,
    /// A value of no characters.
    Empty,
    /// More characters than the field may hold.
    TooLong,
    /// Not in the form that the field asks for.
    InvalidFormat,
}

/// A value that a validator turned down.
#[derive(Clone, Copy, Debug, PartialEq, Eq, Structural)]
pub struct ValidationError {
    pub field: Field,
    pub reason: Reason,
}

impl Field {
    /// The name under which the field is reported.
    pub open spec fn name(self) -> Seq<char> {
        match self {
            Field::WebhookUrl => "webhook_url"@,
            Field::Channel => "channel"@,
            Field::Username => "username"@,
            Field::IconEmoji => "icon_emoji"@,
        }
    }

    /// What closes a report on the field.
    pub open spec fn full_stop(self) -> Seq<char> {
        match self {
            Field::WebhookUrl | Field::IconEmoji => "."@,
            Field::Channel | Field::Username => ""@,
        }
    }
}

impl Reason {
    /// The reason in words, as it follows the field's name.
    pub open spec fn phrase(self) -> Seq<char> {
        match self {
            Reason::Unset => " is not set"@,
            Reason::Empty => " is empty"@,
            Reason::TooLong => " is too long"@,
            Reason::InvalidFormat => " is invalid format"@,
        }
    }
}

impl ValidationError {
    /// An example of the right form, where the report gives one.
    pub open spec fn hint(self) -> Seq<char> {
        if self.field == Field::IconEmoji && self.reason == Reason::InvalidFormat {
            " (e.g. :robot_face:)"@
        } else {
            ""@
        }
    }

    /// The report: the field's name, the reason, the full stop and the hint.
    pub open spec fn text(self) -> Seq<char> {
        self.field.name() + self.reason.phrase() + self.field.full_stop() + self.hint()
    }

    /// The report as a string.
    pub fn message(&self) -> (s: String)
        ensures
            s@ == self.text(),
    {
        let name = match self.field {
            Field::WebhookUrl => "webhook_url",
            Field::Channel => "channel",
            Field::Username => "username",
            Field::IconEmoji => "icon_emoji",
        };
        let phrase = match self.reason {
            Reason::Unset => " is not set",
            Reason::Empty => " is empty",
            Reason::TooLong => " is too long",
            Reason::InvalidFormat => " is invalid format",
        };
        let full_stop = match self.field {
            Field::WebhookUrl | Field::IconEmoji => ".",
            Field::Channel | Field::Username => "",
        };
        let hint = match (self.field, self.reason) {
            (Field::IconEmoji, Reason::InvalidFormat) => " (e.g. :robot_face:)",
            _ => "",
        };
        name.to_owned().concat(phrase).concat(full_stop).concat(hint)
    }
}

/// How an error is reported on the command line.
#[derive(Clone, Copy, Debug, PartialEq, Eq, Structural)]
pub enum ErrorClass {
    /// The arguments or the settings are at fault.
    Argv,
    /// The program was not used as its usage says.
    Usage,
    /// The request did not get through.
    Deserialize,
}

/// Why no message was posted, or no settings were found.
#[derive(Debug)]
pub enum Error {
    /// A setting was turned down.
    Validation(ValidationError),
    /// The home directory is not known; holds the cause.
    HomeUnset(String),
    /// A line could not be read while the settings were asked for; holds the cause.
    LineUnreadable(String),
    /// The message could not be read from standard input; holds the cause.
    StdinUnreadable(String),
    /// The message is empty.
    EmptyMessage,
    /// The endpoint answered with a status that is no success; holds the status.
    PostRejected(String),
    /// The request could not be sent; holds the cause.
    PostFailed(String),
}

impl Error {
    /// The class of the error.
    pub open spec fn class_of(self) -> ErrorClass {
        match self {
            Error::EmptyMessage => ErrorClass::Usage,
            Error::PostFailed(_) => ErrorClass::Deserialize,
            _ => ErrorClass::Argv,
        }
    }

    /// The report on the error.
    pub open spec fn text(self) -> Seq<char> {
        match self {
            Error::Validation(e) => e.text(),
            Error::HomeUnset(cause) => "$HOME does not exist. "@ + cause@,
            Error::LineUnreadable(cause) => "Failed to read stdin. "@ + cause@,
            Error::StdinUnreadable(cause) => "Failed to read from STDIN. Error:"@ + cause@,
            Error::EmptyMessage => "Empty message"@,
            Error::PostRejected(status) => "Failed to post to Slack. StatusCode: "@ + status@,
            Error::PostFailed(cause) => "Failed to post to Slack. Error: "@ + cause@,
        }
    }

    /// The class of the error.
    pub fn class(&self) -> (c: ErrorClass)
        ensures
            c == self.class_of(),
    {
        match self {
            Error::EmptyMessage => ErrorClass::Usage,
            Error::PostFailed(_) => ErrorClass::Deserialize,
            _ => ErrorClass::Argv,
        }
    }

    /// The report as a string.
    pub fn message(&self) -> (s: String)
        ensures
            s@ == self.text(),
    {
        match self {
            Error::Validation(e) => e.message(),
            Error::HomeUnset(cause) => "$HOME does not exist. ".to_owned().concat(cause.as_str()),
            Error::LineUnreadable(cause) => "Failed to read stdin. ".to_owned().concat(
                cause.as_str(),
            ),
            Error::StdinUnreadable(cause) => "Failed to read from STDIN. Error:".to_owned().concat(
                cause.as_str(),
            ),
            Error::EmptyMessage => "Empty message".to_owned(),
            Error::PostRejected(status) => "Failed to post to Slack. StatusCode: ".to_owned().concat(
                status.as_str(),
            ),
            Error::PostFailed(cause) => "Failed to post to Slack. Error: ".to_owned().concat(
                cause.as_str(),
            ),
        }
    }
}

} // verus!
