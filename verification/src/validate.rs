//! The form that each setting must have, and the validators that hold values to it.

use crate::error::{Field, Reason, ValidationError};
use crate::text::to_chars;
use vstd::prelude::*;
use vstd::string::StrSliceExecFns;

verus! {

/// What every webhook URL begins with.
pub const WEBHOOK_URL_PREFIX: &'static str = "https://hooks.slack.com/";

/// The most characters that a channel or a username may have.
pub const MAX_NAME_LEN: usize = 20;

/// Whether `c` is a letter or a digit of ASCII: `[A-Za-z0-9]`.
pub open spec fn is_alphanumeric(c: char) -> bool {
    ('a' <= c && c <= 'z') || ('A' <= c && c <= 'Z') || ('0' <= c && c <= '9')
}

/// Whether `s` holds letters and digits only.
pub open spec fn all_alphanumeric(s: Seq<char>) -> bool {
    forall|i: int| 0 <= i < s.len() ==> is_alphanumeric(#[trigger] s[i])
}

/// Whether `s` is one segment of a path, `[A-Za-z0-9]+/?`: one or more letters and digits,
/// and after them one slash or none.
pub open spec fn is_segment(s: Seq<char>) -> bool {
    ||| s.len() >= 1 && all_alphanumeric(s)
    ||| s.len() >= 2 && s.last() == '/' && all_alphanumeric(s.drop_last())
}

/// Whether `p` is a path, `([A-Za-z0-9]+/?)+`: one segment, or a segment and a path after it.
pub open spec fn is_path(p: Seq<char>) -> bool
    decreases p.len(),
{
    is_segment(p) || exists|k: int| 0 < k < p.len() && is_segment(p.take(k)) && is_path(p.skip(k))
}

/// Whether `u` is a webhook URL, `^https://hooks\.slack\.com/([A-Za-z0-9]+/?)+$`: the prefix
/// and a path after it.
pub open spec fn is_webhook_url(u: Seq<char>) -> bool {
    let prefix = WEBHOOK_URL_PREFIX@;
    u.len() >= prefix.len() && u.take(prefix.len() as int) == prefix && is_path(
        u.skip(prefix.len() as int),
    )
}

/// Whether `c` may stand between the colons of an icon: `[a-z0-9\-_+]`.
pub open spec fn is_icon_char(c: char) -> bool {
    ('a' <= c && c <= 'z') || ('0' <= c && c <= '9') || c == '-' || c == '_' || c == '+'
}

/// Whether `s` is an icon, `^:[a-z0-9\-_+]+:$`: a colon, one or more of the characters of
/// [`is_icon_char`], and a colon.
pub open spec fn is_icon_emoji(s: Seq<char>) -> bool {
    &&& s.len() >= 3
    &&& s.first() == ':'
    &&& s.last() == ':'
    &&& forall|i: int| 0 < i < s.len() - 1 ==> is_icon_char(#[trigger] s[i])
}

/// What the validator of the webhook URL answers.
pub open spec fn webhook_url_verdict(url: Option<Seq<char>>) -> Result<(), ValidationError> {
    match url {
        None => Err(ValidationError { field: Field::WebhookUrl, reason: Reason::Unset }),
        Some(u) => if is_webhook_url(u) {
            Ok(())
        } else {
            Err(ValidationError { field: Field::WebhookUrl, reason: Reason::InvalidFormat })
        },
    }
}

/// What the validators of the channel and of the username answer: any name of 1 to
/// [`MAX_NAME_LEN`] characters is accepted.
pub open spec fn name_verdict(field: Field, name: Option<Seq<char>>) -> Result<
    (),
    ValidationError,
> {
    match name {
        None => Err(ValidationError { field, reason: Reason::Unset }),
        Some(n) => if n.len() == 0 {
            Err(ValidationError { field, reason: Reason::Empty })
        } else if n.len() > MAX_NAME_LEN {
            Err(ValidationError { field, reason: Reason::TooLong })
        } else {
            Ok(())
        },
    }
}

/// What the validator of the icon answers.
pub open spec fn icon_emoji_verdict(icon: Option<Seq<char>>) -> Result<(), ValidationError> {
    match icon {
        None => Err(ValidationError { field: Field::IconEmoji, reason: Reason::Unset }),
        Some(i) => if i.len() == 0 {
            Err(ValidationError { field: Field::IconEmoji, reason: Reason::Empty })
        } else if is_icon_emoji(i) {
            Ok(())
        } else {
            Err(ValidationError { field: Field::IconEmoji, reason: Reason::InvalidFormat })
        },
    }
}

/// What the validator of `field` answers.
pub open spec fn verdict(field: Field, value: Option<Seq<char>>) -> Result<(), ValidationError> {
    match field {
        Field::WebhookUrl => webhook_url_verdict(value),
        Field::Channel => name_verdict(Field::Channel, value),
        Field::Username => name_verdict(Field::Username, value),
        Field::IconEmoji => icon_emoji_verdict(value),
    }
}

/// A path, said of its characters one by one: it begins with a letter or a digit, and each
/// later character is a letter, a digit, or a slash that follows a letter or a digit.
pub open spec fn is_path_charwise(p: Seq<char>) -> bool {
    &&& p.len() >= 1
    &&& is_alphanumeric(p[0])
    &&& forall|i: int| 0 < i < p.len() ==> #[trigger] may_follow(p, i)
}

/// Whether the character at `i` may stand where it does in a path.
pub open spec fn may_follow(p: Seq<char>, i: int) -> bool {
    is_alphanumeric(p[i]) || (p[i] == '/' && is_alphanumeric(p[i - 1]))
}

/// Where the first slash of `p` stands; the length of `p` if it has none.
spec fn first_slash(p: Seq<char>) -> int
    decreases p.len(),
{
    if p.len() == 0 || p[0] == '/' {
        0
    } else {
        1 + first_slash(p.drop_first())
    }
}

/// No slash stands before the first slash, and a slash stands there.
proof fn lemma_first_slash(p: Seq<char>)
    ensures
        0 <= first_slash(p) <= p.len(),
        forall|i: int| 0 <= i < first_slash(p) ==> p[i] != '/',
        first_slash(p) < p.len() ==> p[first_slash(p)] == '/',
    decreases p.len(),
{
    if p.len() == 0 || p[0] == '/' {
    } else {
        let rest = p.drop_first();
        lemma_first_slash(rest);
        assert forall|i: int| 0 <= i < first_slash(p) implies p[i] != '/' by {
            if i > 0 {
                assert(p[i] == rest[i - 1]);
            }
        }
    }
}

/// One segment is a path, said of its characters one by one.
proof fn lemma_segment_charwise(s: Seq<char>)
    requires
        is_segment(s),
    ensures
        is_path_charwise(s),
{
    if !(s.len() >= 1 && all_alphanumeric(s)) {
        let body = s.drop_last();
        assert(is_alphanumeric(body[0]));
        assert forall|i: int| 0 < i < s.len() implies #[trigger] may_follow(s, i) by {
            assert(is_alphanumeric(body[i - 1]));
            if i < s.len() - 1 {
                assert(is_alphanumeric(body[i]));
            }
        }
    }
}

/// The two ways of saying what a path is agree: a string is made of segments exactly when
/// its characters stand as [`is_path_charwise`] says.
pub proof fn lemma_path_charwise(p: Seq<char>)
    ensures
        is_path(p) <==> is_path_charwise(p),
    decreases p.len(),
{
    if is_path(p) {
        if is_segment(p) {
            lemma_segment_charwise(p);
        } else {
            let k = choose|k: int| 0 < k < p.len() && is_segment(p.take(k)) && is_path(p.skip(k));
            let head = p.take(k);
            let tail = p.skip(k);
            lemma_segment_charwise(head);
            lemma_path_charwise(tail);
            assert(p[0] == head[0]);
            assert forall|i: int| 0 < i < p.len() implies #[trigger] may_follow(p, i) by {
                if i < k {
                    assert(may_follow(head, i));
                } else if i == k {
                    assert(p[i] == tail[0]);
                } else {
                    assert(may_follow(tail, i - k));
                }
            }
        }
    }
    if is_path_charwise(p) {
        lemma_first_slash(p);
        let j = first_slash(p);
        if j == p.len() {
            assert forall|i: int| 0 <= i < p.len() implies is_alphanumeric(#[trigger] p[i]) by {
                if i > 0 {
                    assert(may_follow(p, i));
                }
            }
            assert(is_segment(p));
        } else {
            let head = p.take(j + 1);
            assert forall|i: int| 0 <= i < j implies is_alphanumeric(
                #[trigger] head.drop_last()[i],
            ) by {
                if i > 0 {
                    assert(may_follow(p, i));
                }
            }
            assert(is_segment(head));
            if j + 1 == p.len() {
                assert(head == p);
            } else {
                let tail = p.skip(j + 1);
                assert(may_follow(p, j + 1));
                assert forall|i: int| 0 < i < tail.len() implies #[trigger] may_follow(tail, i) by {
                    assert(may_follow(p, i + j + 1));
                }
                lemma_path_charwise(tail);
                assert(0 < j + 1 < p.len() && is_segment(p.take(j + 1)) && is_path(p.skip(j + 1)));
            }
        }
    }
}

/// Decides [`is_alphanumeric`].
pub fn alphanumeric(c: char) -> (b: bool)
    ensures
        b == is_alphanumeric(c),
{
    ('a' <= c && c <= 'z') || ('A' <= c && c <= 'Z') || ('0' <= c && c <= '9')
}

/// Decides [`is_icon_char`].
pub fn icon_char(c: char) -> (b: bool)
    ensures
        b == is_icon_char(c),
{
    ('a' <= c && c <= 'z') || ('0' <= c && c <= '9') || c == '-' || c == '_' || c == '+'
}

/// Decides [`is_webhook_url`].
pub fn webhook_url_form(u: &str) -> (b: bool)
    ensures
        b == is_webhook_url(u@),
{
    let chars = to_chars(u);
    let prefix = to_chars(WEBHOOK_URL_PREFIX);
    let n = prefix.len();
    if chars.len() < n {
        return false;
    }
    let mut i: usize = 0;
    while i < n
        invariant
            i <= n == prefix.len() <= chars.len(),
            chars@ == u@,
            prefix@ == WEBHOOK_URL_PREFIX@,
            chars@.take(i as int) == prefix@.take(i as int),
        decreases n - i,
    {
        if chars[i] != prefix[i] {
            assert(chars@.take(n as int)[i as int] != prefix@[i as int]);
            return false;
        }
        assert(chars@.take(i + 1) == chars@.take(i as int).push(chars@[i as int]));
        assert(prefix@.take(i + 1) == prefix@.take(i as int).push(prefix@[i as int]));
        i += 1;
    }
    assert(prefix@.take(n as int) == prefix@);
    let ghost path = chars@.skip(n as int);
    proof {
        lemma_path_charwise(path);
    }
    if i == chars.len() || !alphanumeric(chars[i]) {
        return false;
    }
    i += 1;
    while i < chars.len()
        invariant
            n < i <= chars.len(),
            chars@ == u@,
            prefix@ == WEBHOOK_URL_PREFIX@,
            n == prefix.len(),
            chars@.take(n as int) == prefix@,
            path == chars@.skip(n as int),
            is_alphanumeric(path[0]),
            is_path(path) <==> is_path_charwise(path),
            forall|k: int| 0 < k < i - n ==> #[trigger] may_follow(path, k),
        decreases chars.len() - i,
    {
        let c = chars[i];
        if !(alphanumeric(c) || (c == '/' && alphanumeric(chars[i - 1]))) {
            assert(!may_follow(path, i - n));
            return false;
        }
        assert(may_follow(path, i - n));
        i += 1;
    }
    true
}

/// Decides [`is_icon_emoji`].
pub fn icon_emoji_form(s: &str) -> (b: bool)
    ensures
        b == is_icon_emoji(s@),
{
    let chars = to_chars(s);
    let n = chars.len();
    if n < 3 || chars[0] != ':' || chars[n - 1] != ':' {
        return false;
    }
    let mut i: usize = 1;
    while i < n - 1
        invariant
            1 <= i <= n - 1,
            n == chars.len(),
            chars@ == s@,
            chars@.first() == ':',
            chars@.last() == ':',
            forall|k: int| 0 < k < i ==> is_icon_char(#[trigger] chars@[k]),
        decreases n - i,
    {
        if !icon_char(chars[i]) {
            return false;
        }
        i += 1;
    }
    true
}

/// Holds the webhook URL to its form: a value is accepted exactly when it is a webhook URL
/// as [`is_webhook_url`] says; no value is `Unset`, any other value `InvalidFormat`.
pub fn validate_webhook_url(url: &Option<String>) -> (r: Result<(), ValidationError>)
    ensures
        r == webhook_url_verdict(url.deep_view()),
        r is Ok <==> (url matches Some(u) && is_webhook_url(u@)),
{
    match url {
        None => Err(ValidationError { field: Field::WebhookUrl, reason: Reason::Unset }),
        Some(u) => if webhook_url_form(u.as_str()) {
            Ok(())
        } else {
            Err(ValidationError { field: Field::WebhookUrl, reason: Reason::InvalidFormat })
        },
    }
}

/// Holds a channel or a username to its length.
fn validate_name(field: Field, name: &Option<String>) -> (r: Result<(), ValidationError>)
    ensures
        r == name_verdict(field, name.deep_view()),
{
    match name {
        None => Err(ValidationError { field, reason: Reason::Unset }),
        Some(n) => {
            let len = n.as_str().unicode_len();
            if len == 0 {
                Err(ValidationError { field, reason: Reason::Empty })
            } else if len > MAX_NAME_LEN {
                Err(ValidationError { field, reason: Reason::TooLong })
            } else {
                Ok(())
            }
        },
    }
}

/// Holds the channel to its length: a value of 1 to [`MAX_NAME_LEN`] characters is accepted,
/// whatever the characters; no value is `Unset`, no character `Empty`, more `TooLong`.
pub fn validate_channel(channel: &Option<String>) -> (r: Result<(), ValidationError>)
    ensures
        r == name_verdict(Field::Channel, channel.deep_view()),
        r is Ok <==> (channel matches Some(c) && 1 <= c@.len() <= MAX_NAME_LEN),
{
    validate_name(Field::Channel, channel)
}

/// Holds the username to its length: a value of 1 to [`MAX_NAME_LEN`] characters is
/// accepted, whatever the characters; no value is `Unset`, no character `Empty`, more
/// `TooLong`.
pub fn validate_username(username: &Option<String>) -> (r: Result<(), ValidationError>)
    ensures
        r == name_verdict(Field::Username, username.deep_view()),
        r is Ok <==> (username matches Some(u) && 1 <= u@.len() <= MAX_NAME_LEN),
{
    validate_name(Field::Username, username)
}

/// Holds the icon to its form: a value is accepted exactly when it is an icon as
/// [`is_icon_emoji`] says; no value is `Unset`, no character `Empty`, any other value
/// `InvalidFormat`.
pub fn validate_icon_emoji(icon_emoji: &Option<String>) -> (r: Result<(), ValidationError>)
    ensures
        r == icon_emoji_verdict(icon_emoji.deep_view()),
        r is Ok <==> (icon_emoji matches Some(i) && is_icon_emoji(i@)),
{
    match icon_emoji {
        None => Err(ValidationError { field: Field::IconEmoji, reason: Reason::Unset }),
        Some(icon) => if icon.as_str().unicode_len() == 0 {
            Err(ValidationError { field: Field::IconEmoji, reason: Reason::Empty })
        } else if icon_emoji_form(icon.as_str()) {
            Ok(())
        } else {
            Err(ValidationError { field: Field::IconEmoji, reason: Reason::InvalidFormat })
        },
    }
}

/// Holds the value of `field` to what the field asks for.
pub fn validate(field: Field, value: &Option<String>) -> (r: Result<(), ValidationError>)
    ensures
        r == verdict(field, value.deep_view()),
{
    match field {
        Field::WebhookUrl => validate_webhook_url(value),
        Field::Channel => validate_channel(value),
        Field::Username => validate_username(value),
        Field::IconEmoji => validate_icon_emoji(value),
    }
}

} // verus!
