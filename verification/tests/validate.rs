use slacks::error::{Field, Reason, ValidationError};
use slacks::validate::{
    validate, validate_channel, validate_icon_emoji, validate_username, validate_webhook_url,
    MAX_NAME_LEN, WEBHOOK_URL_PREFIX,
};

fn some(s: &str) -> Option<String> {
    Some(s.to_string())
}

fn complaint(field: Field, reason: Reason) -> Result<(), ValidationError> {
    Err(ValidationError { field, reason })
}

#[test]
fn webhook_url_none() {
    let res = validate_webhook_url(&None);
    assert_eq!(res.unwrap_err().message(), "webhook_url is not set.");
}

#[test]
fn webhook_url_empty_str() {
    let empty = Some("".into());
    let res = validate_webhook_url(&empty);
    assert_eq!(res.unwrap_err().message(), "webhook_url is invalid format.");
}

#[test]
#[should_panic(expected = "webhook_url is invalid format.")]
fn invalid_url() {
    let invalid_url = Some("https://this.is.an.invalid.url/".into());
    let _res = validate_webhook_url(&invalid_url).map_err(|e| e.message()).unwrap();
}

#[test]
fn valid_url() {
    let valid_url = Some("https://hooks.slack.com/TEST/valid".into());
    let res = validate_webhook_url(&valid_url);
    assert!(res.is_ok());
}

#[test]
fn channel_none() {
    let res = validate_channel(&None);
    assert_eq!(res.unwrap_err().message(), "channel is not set");
}

#[test]
fn channel_empty() {
    let empty = Some("".into());
    let res = validate_channel(&empty);
    assert_eq!(res.unwrap_err().message(), "channel is empty");
}

#[test]
fn channel_over_20chars() {
    let long = Some("#12345678901234567890".into());
    let res = validate_channel(&long);
    assert_eq!(res.unwrap_err().message(), "channel is too long");
}

#[test]
fn valid_public_channel() {
    let valid = Some("#public-channel".into());
    let res = validate_channel(&valid);
    assert!(res.is_ok());
}

#[test]
fn valid_private_channel() {
    let valid = Some("private-channel".into());
    let res = validate_channel(&valid);
    assert!(res.is_ok());
}

#[test]
fn valid_direct_message() {
    let valid = Some("@you".into());
    let res = validate_channel(&valid);
    assert!(res.is_ok());
}

#[test]
fn username_none() {
    let res = validate_username(&None);
    assert_eq!(res.unwrap_err().message(), "username is not set");
}

#[test]
fn username_empty_str() {
    let empty = Some("".into());
    let res = validate_username(&empty);
    assert_eq!(res.unwrap_err().message(), "username is empty");
}

#[test]
fn username_over_20chars() {
    let long = Some("012345678901234567890".into());
    let res = validate_username(&long);
    assert_eq!(res.unwrap_err().message(), "username is too long");
}

#[test]
fn valid() {
    let valid = Some("test-user".into());
    let res = validate_username(&valid);
    assert!(res.is_ok());
}

#[test]
fn icon_emoji_none() {
    let res = validate_icon_emoji(&None);
    assert_eq!(res.unwrap_err().message(), "icon_emoji is not set.");
}

#[test]
fn icon_emoji_without_colons() {
    let invalid = Some("robot_face".into());
    let res = validate_icon_emoji(&invalid);
    assert!(res.unwrap_err().message().contains("icon_emoji is invalid format"));
}

#[test]
fn valid_icon_emoji_ok_hand() {
    let valid = Some(":ok_hand:".into());
    let res = validate_icon_emoji(&valid);
    assert!(res.is_ok());
}

#[test]
fn set_icon_emoji_plus1() {
    let valid = Some(":+1:".into());
    let res = validate_icon_emoji(&valid);
    assert!(res.is_ok());
}

#[test]
fn webhook_url_reasons() {
    assert_eq!(validate_webhook_url(&None), complaint(Field::WebhookUrl, Reason::Unset));
    assert_eq!(validate_webhook_url(&some("")), complaint(Field::WebhookUrl, Reason::InvalidFormat));
    assert_eq!(
        validate_webhook_url(&some("https://this.is.an.invalid.url/")),
        complaint(Field::WebhookUrl, Reason::InvalidFormat)
    );
    assert_eq!(validate_webhook_url(&some("https://hooks.slack.com/TEST/valid")), Ok(()));
}

#[test]
fn webhook_url_paths() {
    let accepted = ["a", "a/", "A9z", "T0/B1/xYz", "T0/B1/xYz/", "0/1/2/3/4"];
    for path in accepted {
        let url = format!("{}{}", WEBHOOK_URL_PREFIX, path);
        assert_eq!(validate_webhook_url(&Some(url.clone())), Ok(()), "{}", url);
    }
    let refused = [
        "", "/", "//", "a//", "a//b", "/a", "a/b//", "a-b", "a b", "a/b?c", "a/b#c", "é", "a\n",
        "a/\n", " a", "a_b", "a.b",
    ];
    for path in refused {
        let url = format!("{}{}", WEBHOOK_URL_PREFIX, path);
        assert_eq!(
            validate_webhook_url(&Some(url.clone())),
            complaint(Field::WebhookUrl, Reason::InvalidFormat),
            "{}",
            url
        );
    }
}

#[test]
fn webhook_url_prefix_is_literal() {
    assert_eq!(WEBHOOK_URL_PREFIX, "https://hooks.slack.com/");
    let refused = [
        "https://hooks.slack.com",
        "http://hooks.slack.com/a",
        "https://hooksXslack.com/a",
        "https://hooks.slackXcom/a",
        "https://hooks.slack.com.evil/a",
        "https://hooks.slack.org/a",
        "HTTPS://HOOKS.SLACK.COM/a",
        " https://hooks.slack.com/a",
        "xhttps://hooks.slack.com/a",
        "https://hooks.slack.com/a ",
    ];
    for url in refused {
        assert_eq!(
            validate_webhook_url(&some(url)),
            complaint(Field::WebhookUrl, Reason::InvalidFormat),
            "{}",
            url
        );
    }
}

#[test]
fn name_lengths() {
    assert_eq!(MAX_NAME_LEN, 20);
    for len in 1..=20 {
        let name = "x".repeat(len);
        assert_eq!(validate_channel(&Some(name.clone())), Ok(()));
        assert_eq!(validate_username(&Some(name)), Ok(()));
    }
    for len in [21, 22, 100] {
        let name = "x".repeat(len);
        assert_eq!(validate_channel(&Some(name.clone())), complaint(Field::Channel, Reason::TooLong));
        assert_eq!(validate_username(&Some(name)), complaint(Field::Username, Reason::TooLong));
    }
    assert_eq!(validate_channel(&some("")), complaint(Field::Channel, Reason::Empty));
    assert_eq!(validate_username(&some("")), complaint(Field::Username, Reason::Empty));
    assert_eq!(validate_channel(&None), complaint(Field::Channel, Reason::Unset));
    assert_eq!(validate_username(&None), complaint(Field::Username, Reason::Unset));
}

#[test]
fn name_length_counts_characters() {
    let twenty = "é".repeat(20);
    assert_eq!(twenty.chars().count(), 20);
    assert_eq!(validate_channel(&Some(twenty.clone())), Ok(()));
    assert_eq!(validate_username(&Some(twenty)), Ok(()));
    let twenty_one = "é".repeat(21);
    assert_eq!(validate_channel(&Some(twenty_one.clone())), complaint(Field::Channel, Reason::TooLong));
    assert_eq!(validate_username(&Some(twenty_one)), complaint(Field::Username, Reason::TooLong));
}

#[test]
fn names_of_any_characters() {
    for name in ["#general", "@you", "two words", " ", "\n", "日本語", "a/b:c"] {
        assert_eq!(validate_channel(&some(name)), Ok(()), "{:?}", name);
        assert_eq!(validate_username(&some(name)), Ok(()), "{:?}", name);
    }
}

#[test]
fn icon_emoji_reasons() {
    assert_eq!(validate_icon_emoji(&None), complaint(Field::IconEmoji, Reason::Unset));
    assert_eq!(validate_icon_emoji(&some("")), complaint(Field::IconEmoji, Reason::Empty));
    assert_eq!(
        validate_icon_emoji(&some("robot_face")),
        complaint(Field::IconEmoji, Reason::InvalidFormat)
    );
    assert_eq!(validate_icon_emoji(&some(":robot_face:")), Ok(()));
}

#[test]
fn icon_emoji_forms() {
    for icon in [":a:", ":+1:", ":-1:", ":ok_hand:", ":slack:", ":a-b_c+d0:", ":_:", ":0:"] {
        assert_eq!(validate_icon_emoji(&some(icon)), Ok(()), "{}", icon);
    }
    for icon in [
        ":", "::", ":::", ":a", "a:", ":A:", ":a b:", ":a:b:", " :a:", ":a: ", ":a:\n", ":é:", ":a.b:",
        "a", ":a::",
    ] {
        assert_eq!(
            validate_icon_emoji(&some(icon)),
            complaint(Field::IconEmoji, Reason::InvalidFormat),
            "{}",
            icon
        );
    }
}

#[test]
fn validate_goes_by_field() {
    let url = some("https://hooks.slack.com/T/B");
    assert_eq!(validate(Field::WebhookUrl, &url), Ok(()));
    assert_eq!(validate(Field::Channel, &url), complaint(Field::Channel, Reason::TooLong));
    assert_eq!(validate(Field::Username, &url), complaint(Field::Username, Reason::TooLong));
    assert_eq!(validate(Field::IconEmoji, &url), complaint(Field::IconEmoji, Reason::InvalidFormat));
    let icon = some(":+1:");
    assert_eq!(validate(Field::WebhookUrl, &icon), complaint(Field::WebhookUrl, Reason::InvalidFormat));
    assert_eq!(validate(Field::Channel, &icon), Ok(()));
    assert_eq!(validate(Field::Username, &icon), Ok(()));
    assert_eq!(validate(Field::IconEmoji, &icon), Ok(()));
}
