//! The message that is posted: from whom, to where, and what it says.

use crate::args::Args;
use crate::config::{Configs, ConfigsView};
use crate::error::{Error, Field, Reason, ValidationError};
use crate::text::{trim, trimmed};
use crate::validate::{validate, validate_webhook_url, verdict, webhook_url_verdict};
use vstd::prelude::*;

verus! {

/// The least status with which the endpoint takes a message.
pub const STATUS_SUCCESS_MIN: u16 = 200;

/// The greatest status with which the endpoint takes a message.
pub const STATUS_SUCCESS_MAX: u16 = 299;

/// Where a message goes and under which name.
#[derive(Debug, Clone, PartialEq, Eq)]
pub struct Address {
    pub webhook_url: String,
    pub channel: String,
    pub username: String,
    pub icon_emoji: String,
}

/// What is posted.
#[derive(Debug, Clone, PartialEq, Eq)]
pub struct Payload {
    pub channel: String,
    pub username: String,
    pub icon_emoji: String,
    pub text: String,
}

/// An address as plain values.
pub struct AddressView {
    pub webhook_url: Seq<char>,
    pub channel: Seq<char>,
    pub username: Seq<char>,
    pub icon_emoji: Seq<char>,
}

impl View for Address {
    type V = AddressView;

    open spec fn view(&self) -> AddressView {
        AddressView {
            webhook_url: self.webhook_url@,
            channel: self.channel@,
            username: self.username@,
            icon_emoji: self.icon_emoji@,
        }
    }
}

/// The value that a run uses for a field: what the command line gives, without the white
/// space at its ends; where nothing is left of that, what the settings hold.
pub open spec fn chosen(flag: Seq<char>, configured: Option<Seq<char>>) -> Option<Seq<char>> {
    if trimmed(flag).len() == 0 {
        configured
    } else {
        Some(trimmed(flag))
    }
}

/// The value that a run uses for `field`, if the validator of the field accepts it, and
/// else the validator's complaint.
pub open spec fn choice(field: Field, flag: Seq<char>, configured: Option<Seq<char>>) -> Result<
    Seq<char>,
    ValidationError,
> {
    match verdict(field, chosen(flag, configured)) {
        Ok(()) => Ok(chosen(flag, configured)->0),
        Err(complaint) => Err(complaint),
    }
}

/// The address of a run, if each part of it is accepted, and else the first complaint: on
/// the webhook URL of the settings, then on the channel, the username and the icon.
pub open spec fn addressed(
    channel: Seq<char>,
    username: Seq<char>,
    icon_emoji: Seq<char>,
    conf: ConfigsView,
) -> Result<AddressView, ValidationError> {
    if let Err(complaint) = webhook_url_verdict(conf.webhook_url) {
        Err(complaint)
    } else if let Err(complaint) = choice(Field::Channel, channel, conf.channel) {
        Err(complaint)
    } else if let Err(complaint) = choice(Field::Username, username, conf.username) {
        Err(complaint)
    } else if let Err(complaint) = choice(Field::IconEmoji, icon_emoji, conf.icon_emoji) {
        Err(complaint)
    } else {
        Ok(
            AddressView {
                webhook_url: conf.webhook_url->0,
                channel: choice(Field::Channel, channel, conf.channel)->Ok_0,
                username: choice(Field::Username, username, conf.username)->Ok_0,
                icon_emoji: choice(Field::IconEmoji, icon_emoji, conf.icon_emoji)->Ok_0,
            },
        )
    }
}

/// Picks the value of `field` as [`choice`] says.
fn choose_value(field: Field, flag: &str, configured: &Option<String>) -> (r: Result<String, Error>)
    ensures
        match choice(field, flag@, configured.deep_view()) {
            Ok(value) => r matches Ok(v) && v@ == value,
            Err(complaint) => r matches Err(Error::Validation(e)) && e == complaint,
        },
{
    let given = trim(flag);
    let value = if given.is_empty() {
        match configured {
            Some(kept) => Some(kept.clone()),
            None => None,
        }
    } else {
        Some(given.to_owned())
    };
    match validate(field, &value) {
        Ok(()) => Ok(value.unwrap()),
        Err(complaint) => Err(Error::Validation(complaint)),
    }
}

/// The username of a run: that of the command line or, where it gives none, that of the
/// settings, if the validator accepts it.
pub fn get_username(args: &Args, configs: &Configs) -> (r: Result<String, Error>)
    ensures
        match choice(Field::Username, args.username@, configs@.username) {
            Ok(value) => r matches Ok(v) && v@ == value,
            Err(complaint) => r matches Err(Error::Validation(e)) && e == complaint,
        },
{
    choose_value(Field::Username, args.username.as_str(), &configs.username)
}

/// The icon of a run: that of the command line or, where it gives none, that of the
/// settings, if the validator accepts it.
pub fn get_icon_emoji(args: &Args, configs: &Configs) -> (r: Result<String, Error>)
    ensures
        match choice(Field::IconEmoji, args.icon_emoji@, configs@.icon_emoji) {
            Ok(value) => r matches Ok(v) && v@ == value,
            Err(complaint) => r matches Err(Error::Validation(e)) && e == complaint,
        },
{
    choose_value(Field::IconEmoji, args.icon_emoji.as_str(), &configs.icon_emoji)
}

/// The channel of a run: that of the command line or, where it gives none, that of the
/// settings, if the validator accepts it.
pub fn get_channel(args: &Args, configs: &Configs) -> (r: Result<String, Error>)
    ensures
        match choice(Field::Channel, args.channel@, configs@.channel) {
            Ok(value) => r matches Ok(v) && v@ == value,
            Err(complaint) => r matches Err(Error::Validation(e)) && e == complaint,
        },
{
    choose_value(Field::Channel, args.channel.as_str(), &configs.channel)
}

/// The text of the message. Where the command line asks for standard input, `stdin` is what
/// came of reading it to its end: the text, or why it could not be read. Else the text is
/// the argument `<message>`, which must not be empty, and `stdin` is not looked at.
pub fn get_message(args: &Args, stdin: Result<String, String>) -> (r: Result<String, Error>)
    ensures
        if args.stdin {
            match stdin {
                Ok(text) => r matches Ok(t) && t@ == text@,
                Err(cause) => r matches Err(Error::StdinUnreadable(c)) && c@ == cause@,
            }
        } else if args.message@.len() == 0 {
            r matches Err(Error::EmptyMessage)
        } else {
            r matches Ok(t) && t@ == args.message@
        },
{
    if args.stdin {
        match stdin {
            Ok(text) => Ok(text),
            Err(cause) => Err(Error::StdinUnreadable(cause)),
        }
    } else if args.message.as_str().is_empty() {
        Err(Error::EmptyMessage)
    } else {
        Ok(args.message.clone())
    }
}

/// Where the message of a run goes and under which name, as [`addressed`] says: the webhook
/// URL of the settings, and the channel, the username and the icon of the command line or,
/// where it gives none, of the settings. Each must be accepted by its validator; the error
/// is the first complaint, in that order.
pub fn messaging(args: &Args, conf: &Configs) -> (r: Result<Address, Error>)
    ensures
        match addressed(args.channel@, args.username@, args.icon_emoji@, conf@) {
            Ok(address) => r matches Ok(a) && a@ == address,
            Err(complaint) => r matches Err(Error::Validation(e)) && e == complaint,
        },
{
    match validate_webhook_url(&conf.webhook_url) {
        Ok(()) => {},
        Err(complaint) => {
            return Err(Error::Validation(complaint));
        },
    }
    let webhook_url = conf.webhook_url.as_ref().unwrap().clone();
    let channel = match get_channel(args, conf) {
        Ok(channel) => channel,
        Err(e) => {
            return Err(e);
        },
    };
    let username = match get_username(args, conf) {
        Ok(username) => username,
        Err(e) => {
            return Err(e);
        },
    };
    let icon_emoji = match get_icon_emoji(args, conf) {
        Ok(icon_emoji) => icon_emoji,
        Err(e) => {
            return Err(e);
        },
    };
    Ok(Address { webhook_url, channel, username, icon_emoji })
}

impl Payload {
    /// The payload that carries `text` to `address`.
    pub fn new(address: &Address, text: String) -> (payload: Payload)
        ensures
            payload.channel@ == address.channel@,
            payload.username@ == address.username@,
            payload.icon_emoji@ == address.icon_emoji@,
            payload.text@ == text@,
    {
        Payload {
            channel: address.channel.clone(),
            username: address.username.clone(),
            icon_emoji: address.icon_emoji.clone(),
            text,
        }
    }
}

/// Whether `status` says that the endpoint took the message: any status from
/// [`STATUS_SUCCESS_MIN`] to [`STATUS_SUCCESS_MAX`] does.
pub open spec fn is_success(status: u16) -> bool {
    STATUS_SUCCESS_MIN <= status <= STATUS_SUCCESS_MAX
}

/// Whether the message was taken. `response` is what came of the request: the status of
/// the answer, as a number and as the endpoint worded it, or why the request could not be
/// sent. The message was taken where the status is a success as [`is_success`] says, and
/// in no other case; any other status comes back with its wording, a request that was not
/// sent with its cause.
pub fn post_outcome(response: Result<(u16, String), String>) -> (r: Result<(), Error>)
    ensures
        match response {
            Ok((status, wording)) => if is_success(status) {
                r is Ok
            } else {
                r matches Err(Error::PostRejected(w)) && w@ == wording@
            },
            Err(cause) => r matches Err(Error::PostFailed(c)) && c@ == cause@,
        },
{
    match response {
        Ok((status, wording)) => if STATUS_SUCCESS_MIN <= status && status <= STATUS_SUCCESS_MAX {
            Ok(())
        } else {
            Err(Error::PostRejected(wording))
        },
        Err(cause) => Err(Error::PostFailed(cause)),
    }
}

/// With no stored settings and no webhook URL in the environment there is no address,
/// whatever the command line gives: the webhook URL is not set.
pub proof fn lemma_defaults_have_no_address(
    debug_mode: bool,
    channel: Seq<char>,
    username: Seq<char>,
    icon_emoji: Seq<char>,
)
    ensures
        addressed(channel, username, icon_emoji, ConfigsView::resolved(debug_mode, None, None))
            == Err::<AddressView, ValidationError>(
            ValidationError { field: Field::WebhookUrl, reason: Reason::Unset },
        ),
{
}

/// Settings of which each field has an accepted value, such as the dialogue stores, give an
/// address by themselves: where the command line gives no channel, username or icon, the
/// address is made of the four values of the settings.
pub proof fn lemma_complete_settings_give_address(
    conf: ConfigsView,
    channel: Seq<char>,
    username: Seq<char>,
    icon_emoji: Seq<char>,
)
    requires
        conf.complete(),
        trimmed(channel).len() == 0,
        trimmed(username).len() == 0,
        trimmed(icon_emoji).len() == 0,
    ensures
        addressed(channel, username, icon_emoji, conf) == Ok::<AddressView, ValidationError>(
            AddressView {
                webhook_url: conf.webhook_url->0,
                channel: conf.channel->0,
                username: conf.username->0,
                icon_emoji: conf.icon_emoji->0,
            },
        ),
{
    assert(verdict(Field::WebhookUrl, conf.get(Field::WebhookUrl)) is Ok);
    assert(verdict(Field::Channel, conf.get(Field::Channel)) is Ok);
    assert(verdict(Field::Username, conf.get(Field::Username)) is Ok);
    assert(verdict(Field::IconEmoji, conf.get(Field::IconEmoji)) is Ok);
}

} // verus!
