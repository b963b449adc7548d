use slacks::config::{configure, Configs};
use slacks::dialogue::{configure_var, consider, prompt, Asked, Configurator, Step};
use slacks::error::{Error, Field, Reason, ValidationError};

fn some(s: &str) -> Option<String> {
    Some(s.to_string())
}

fn lines(script: &[&str]) -> Vec<String> {
    script.iter().map(|line| line.to_string()).collect()
}

fn complaint(field: Field, reason: Reason) -> ValidationError {
    ValidationError { field, reason }
}

fn stored() -> Configs {
    Configs {
        webhook_url: some("https://hooks.slack.com/T0/B0"),
        channel: some("#random"),
        username: some("bot"),
        icon_emoji: some(":robot_face:"),
        debug_mode: false,
    }
}

fn asking(step: Step) -> (Option<ValidationError>, Configurator) {
    match step {
        Step::Ask { complaint, dialogue } => (complaint, dialogue),
        other => panic!("the dialogue is over: {:?}", other),
    }
}

#[test]
fn prompts_show_the_current_value() {
    assert_eq!(prompt(Field::WebhookUrl, &None), "Slack Webhook URL [None]: ");
    assert_eq!(prompt(Field::Channel, &some("#general")), "Default Channel [#general]: ");
    assert_eq!(prompt(Field::Username, &some("slacks")), "Default Username [slacks]: ");
    assert_eq!(prompt(Field::IconEmoji, &some(":slack:")), "Default Icon Emoji [:slack:]: ");
    assert_eq!(prompt(Field::IconEmoji, &some("")), "Default Icon Emoji []: ");
}

#[test]
fn a_line_stands_for_itself_without_its_white_space() {
    assert_eq!(consider(Field::Channel, &some("#general"), "#random\n"), Ok("#random".to_string()));
    assert_eq!(consider(Field::Channel, &None, "  #random \r\n"), Ok("#random".to_string()));
    assert_eq!(consider(Field::Username, &some("slacks"), "two words\n"), Ok("two words".to_string()));
}

#[test]
fn an_empty_line_stands_for_the_current_value() {
    assert_eq!(consider(Field::Channel, &some("#general"), "\n"), Ok("#general".to_string()));
    assert_eq!(consider(Field::Channel, &some("#general"), ""), Ok("#general".to_string()));
    assert_eq!(consider(Field::Channel, &some("#general"), "  \t\n"), Ok("#general".to_string()));
    assert_eq!(consider(Field::Channel, &some(" kept as it is "), "\n"), Ok(" kept as it is ".to_string()));
}

#[test]
fn an_empty_line_with_no_current_value_is_an_empty_value() {
    assert_eq!(
        consider(Field::WebhookUrl, &None, "\n"),
        Err(complaint(Field::WebhookUrl, Reason::InvalidFormat))
    );
    assert_eq!(consider(Field::Channel, &None, "\n"), Err(complaint(Field::Channel, Reason::Empty)));
    assert_eq!(consider(Field::Username, &None, ""), Err(complaint(Field::Username, Reason::Empty)));
    assert_eq!(consider(Field::IconEmoji, &None, " "), Err(complaint(Field::IconEmoji, Reason::Empty)));
}

#[test]
fn a_current_value_is_validated_like_any_other() {
    assert_eq!(
        consider(Field::IconEmoji, &some("robot_face"), "\n"),
        Err(complaint(Field::IconEmoji, Reason::InvalidFormat))
    );
    assert_eq!(
        consider(Field::Channel, &some("#12345678901234567890"), "\n"),
        Err(complaint(Field::Channel, Reason::TooLong))
    );
}

#[test]
fn the_third_line_is_accepted_after_two_are_turned_down() {
    let script = lines(&["\n", "#12345678901234567890\n", "#random\n", "#unread\n"]);
    let asked = configure_var(&None, Field::Channel, &script);
    assert_eq!(asked, Asked { accepted: some("#random"), prompts: 3 });
}

#[test]
fn the_first_line_is_accepted_where_it_is_valid() {
    let script = lines(&["\n", "ignored\n"]);
    let asked = configure_var(&some("slacks"), Field::Username, &script);
    assert_eq!(asked, Asked { accepted: some("slacks"), prompts: 1 });
}

#[test]
fn a_script_that_runs_out_gives_no_value() {
    let script = lines(&["robot_face\n", ":Robot:\n", "\n"]);
    let asked = configure_var(&None, Field::IconEmoji, &script);
    assert_eq!(asked, Asked { accepted: None, prompts: 3 });
    let asked = configure_var(&some(":slack:"), Field::IconEmoji, &Vec::new());
    assert_eq!(asked, Asked { accepted: None, prompts: 0 });
}

#[test]
fn the_dialogue_begins_with_the_webhook_url() {
    let dialogue = Configurator::start(None);
    assert_eq!(dialogue.field(), Field::WebhookUrl);
    assert_eq!(dialogue.prompt(), "Slack Webhook URL [None]: ");
    let dialogue = Configurator::start(Some(stored()));
    assert_eq!(dialogue.field(), Field::WebhookUrl);
    assert_eq!(dialogue.prompt(), "Slack Webhook URL [https://hooks.slack.com/T0/B0]: ");
}

#[test]
fn the_dialogue_asks_for_each_field_in_turn() {
    let dialogue = Configurator::start(None);
    let (said, dialogue) = asking(dialogue.answer(Ok("https://hooks.slack.com/T1/B1\n".to_string())));
    assert_eq!(said, None);
    assert_eq!(dialogue.field(), Field::Channel);
    assert_eq!(dialogue.prompt(), "Default Channel [#general]: ");
    let (said, dialogue) = asking(dialogue.answer(Ok("\n".to_string())));
    assert_eq!(said, None);
    assert_eq!(dialogue.field(), Field::Username);
    assert_eq!(dialogue.prompt(), "Default Username [slacks]: ");
    let (said, dialogue) = asking(dialogue.answer(Ok("me\n".to_string())));
    assert_eq!(said, None);
    assert_eq!(dialogue.field(), Field::IconEmoji);
    assert_eq!(dialogue.prompt(), "Default Icon Emoji [:slack:]: ");
    match dialogue.answer(Ok(":+1:\n".to_string())) {
        Step::Save(record) => assert_eq!(
            record,
            Configs {
                webhook_url: some("https://hooks.slack.com/T1/B1"),
                channel: some("#general"),
                username: some("me"),
                icon_emoji: some(":+1:"),
                debug_mode: false,
            }
        ),
        other => panic!("the record is not handed over: {:?}", other),
    }
}

#[test]
fn the_dialogue_asks_again_with_the_complaint() {
    let dialogue = Configurator::start(None);
    let (said, dialogue) = asking(dialogue.answer(Ok("\n".to_string())));
    assert_eq!(said, Some(complaint(Field::WebhookUrl, Reason::InvalidFormat)));
    assert_eq!(dialogue.field(), Field::WebhookUrl);
    assert_eq!(dialogue.prompt(), "Slack Webhook URL [None]: ");
    let (said, dialogue) = asking(dialogue.answer(Ok("https://example.com/\n".to_string())));
    assert_eq!(said, Some(complaint(Field::WebhookUrl, Reason::InvalidFormat)));
    assert_eq!(dialogue.field(), Field::WebhookUrl);
    let (said, dialogue) = asking(dialogue.answer(Ok("https://hooks.slack.com/T/B\n".to_string())));
    assert_eq!(said, None);
    assert_eq!(dialogue.field(), Field::Channel);
}

#[test]
fn the_dialogue_gives_up_where_no_line_can_be_read() {
    let dialogue = Configurator::start(Some(stored()));
    match dialogue.answer(Err("broken pipe".to_string())) {
        Step::Abort(error) => {
            assert!(matches!(&error, Error::LineUnreadable(cause) if cause == "broken pipe"));
            assert_eq!(error.message(), "Failed to read stdin. broken pipe");
        },
        other => panic!("the dialogue goes on: {:?}", other),
    }
}

#[test]
fn a_script_of_empty_lines_keeps_what_is_stored() {
    let script = lines(&["\n", "\n", "\n", "\n"]);
    assert_eq!(configure(Some(stored()), &script), Some(stored()));
}

#[test]
fn the_record_has_debug_mode_off() {
    let mut on = stored();
    on.debug_mode = true;
    let script = lines(&["\n", "\n", "\n", "\n"]);
    assert_eq!(configure(Some(on), &script), Some(stored()));
}

#[test]
fn only_the_accepted_value_is_kept() {
    let script = lines(&[
        "https://hooks.slack.com/T2/B2\n",
        "\n",
        "#12345678901234567890\n",
        "#third\n",
        "me\n",
        ":ok_hand:\n",
    ]);
    let blank = Configs {
        webhook_url: None,
        channel: None,
        username: None,
        icon_emoji: None,
        debug_mode: false,
    };
    assert_eq!(
        configure(Some(blank), &script),
        Some(Configs {
            webhook_url: some("https://hooks.slack.com/T2/B2"),
            channel: some("#third"),
            username: some("me"),
            icon_emoji: some(":ok_hand:"),
            debug_mode: false,
        })
    );
}

#[test]
fn a_script_that_runs_out_gives_no_record() {
    assert_eq!(configure(None, &Vec::new()), None);
    assert_eq!(configure(None, &lines(&["\n", "\n", "\n", "\n"])), None);
    assert_eq!(configure(Some(stored()), &lines(&["\n", "\n", "\n"])), None);
}

#[test]
fn lines_after_the_last_field_are_not_read() {
    let script = lines(&["\n", "\n", "\n", "\n", "https://hooks.slack.com/other\n", "#other\n"]);
    assert_eq!(configure(Some(stored()), &script), Some(stored()));
}

#[test]
fn a_first_run_stores_what_was_entered() {
    let script = lines(&["https://hooks.slack.com/T3/B3\n", "\n", "\n", "\n"]);
    assert_eq!(
        configure(None, &script),
        Some(Configs {
            webhook_url: some("https://hooks.slack.com/T3/B3"),
            channel: some("#general"),
            username: some("slacks"),
            icon_emoji: some(":slack:"),
            debug_mode: false,
        })
    );
}
