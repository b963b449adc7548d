//! The dialogue that asks for the settings, one field after the other, until each has a
//! value that its validator accepts.

use crate::config::{Configs, ConfigsView, stored_view};
use crate::error::{Error, Field, ValidationError};
use crate::text::{trim, trimmed};
use crate::validate::{validate, verdict};
use vstd::prelude::*;
use vstd::string::StringExecFns;

verus! {

impl Field {
    /// The place of the field in the order in which the fields are asked for.
    pub open spec fn position(self) -> int {
        match self {
            Field::WebhookUrl => 0,
            Field::Channel => 1,
            Field::Username => 2,
            Field::IconEmoji => 3,
        }
    }

    /// The field that is asked for after this one, if there is one.
    pub open spec fn following(self) -> Option<Field> {
        match self {
            Field::WebhookUrl => Some(Field::Channel),
            Field::Channel => Some(Field::Username),
            Field::Username => Some(Field::IconEmoji),
            Field::IconEmoji => None,
        }
    }

    /// What the prompt calls the field.
    pub open spec fn description(self) -> Seq<char> {
        match self {
            Field::WebhookUrl => "Slack Webhook URL"@,
            Field::Channel => "Default Channel"@,
            Field::Username => "Default Username"@,
            Field::IconEmoji => "Default Icon Emoji"@,
        }
    }

    /// The field that is asked for after this one, if there is one.
    pub fn next(self) -> (next: Option<Field>)
        ensures
            next == self.following(),
    {
        match self {
            Field::WebhookUrl => Some(Field::Channel),
            Field::Channel => Some(Field::Username),
            Field::Username => Some(Field::IconEmoji),
            Field::IconEmoji => None,
        }
    }
}

/// The prompt for `field`: its description and, in square brackets, the value that an empty
/// line stands for, or `None` where there is no such value.
pub open spec fn prompt_text(field: Field, current: Option<Seq<char>>) -> Seq<char> {
    let shown = match current {
        Some(value) => value,
        None => "None"@,
    };
    field.description() + " ["@ + shown + "]: "@
}

/// The value that a line of input stands for: the line without the white space at its ends
/// or, where nothing is left of it and there is a current value, the current value.
pub open spec fn candidate(current: Option<Seq<char>>, line: Seq<char>) -> Seq<char> {
    let entered = trimmed(line);
    if entered.len() == 0 && current is Some {
        current->0
    } else {
        entered
    }
}

/// What comes of a line of input for `field`: the value that it stands for, if the
/// validator of the field accepts that value, and else the validator's complaint.
pub open spec fn considered(field: Field, current: Option<Seq<char>>, line: Seq<char>) -> Result<
    Seq<char>,
    ValidationError,
> {
    let value = candidate(current, line);
    match verdict(field, Some(value)) {
        Ok(()) => Ok(value),
        Err(complaint) => Err(complaint),
    }
}

/// The prompt for `field`, as [`prompt_text`] says.
pub fn prompt(field: Field, current: &Option<String>) -> (text: String)
    ensures
        text@ == prompt_text(field, current.deep_view()),
{
    let description = match field {
        Field::WebhookUrl => "Slack Webhook URL",
        Field::Channel => "Default Channel",
        Field::Username => "Default Username",
        Field::IconEmoji => "Default Icon Emoji",
    };
    let shown = match current {
        Some(value) => value.as_str(),
        None => "None",
    };
    description.to_owned().concat(" [").concat(shown).concat("]: ")
}

/// Considers one line of input for `field`, as [`considered`] says.
pub fn consider(field: Field, current: &Option<String>, line: &str) -> (r: Result<
    String,
    ValidationError,
>)
    ensures
        match considered(field, current.deep_view(), line@) {
            Ok(value) => r matches Ok(v) && v@ == value,
            Err(complaint) => r == Err::<String, ValidationError>(complaint),
        },
{
    let entered = trim(line);
    let value = match current {
        Some(kept) if entered.is_empty() => kept.clone(),
        _ => entered.to_owned(),
    };
    let value = Some(value);
    match validate(field, &value) {
        Ok(()) => Ok(value.unwrap()),
        Err(complaint) => Err(complaint),
    }
}

/// What came of asking for one field with the lines of a script.
#[derive(Debug, PartialEq, Eq)]
pub struct Asked {
    /// The value that was accepted, if one was.
    pub accepted: Option<String>,
    /// How many times the prompt was shown, which is how many lines were read.
    pub prompts: usize,
}

/// Asks for `field` with the lines of a script in place of the terminal: the prompt is
/// shown and a line is read until a line stands for a value that the validator accepts.
/// `var` is the current value, which an empty line stands for. The value that comes back is
/// that of the first line that is accepted, and `prompts` counts the lines up to that one;
/// where no line of the script is accepted, all were read and no value comes back.
pub fn configure_var(var: &Option<String>, field: Field, lines: &Vec<String>) -> (asked: Asked)
    ensures
        asked.prompts <= lines.len(),
        forall|i: int|
            0 <= i < asked.prompts - 1 ==> (#[trigger] considered(
                field,
                var.deep_view(),
                lines@[i]@,
            )) is Err,
        match asked.accepted {
            Some(value) => asked.prompts >= 1 && considered(
                field,
                var.deep_view(),
                lines@[asked.prompts - 1]@,
            ) == Ok::<Seq<char>, ValidationError>(value@),
            None => asked.prompts == lines.len() && forall|i: int|
                0 <= i < lines.len() ==> (#[trigger] considered(
                    field,
                    var.deep_view(),
                    lines@[i]@,
                )) is Err,
        },
{
    let mut prompts: usize = 0;
    while prompts < lines.len()
        invariant
            prompts <= lines.len(),
            forall|i: int|
                0 <= i < prompts ==> (#[trigger] considered(
                    field,
                    var.deep_view(),
                    lines@[i]@,
                )) is Err,
        decreases lines.len() - prompts,
    {
        let outcome = consider(field, var, lines[prompts].as_str());
        prompts += 1;
        match outcome {
            Ok(value) => {
                return Asked { accepted: Some(value), prompts };
            },
            Err(_) => {},
        }
    }
    Asked { accepted: None, prompts }
}

/// The dialogue as plain values.
pub struct DialogueView {
    /// The values that an empty line stands for, field by field.
    pub current: ConfigsView,
    /// The values that were accepted so far.
    pub accepted: ConfigsView,
    /// The field that is asked for; none when every field has its value.
    pub asking: Option<Field>,
}

impl DialogueView {
    /// The dialogue before the first prompt: the current values are the defaults with the
    /// stored settings laid over them, nothing is accepted, and the webhook URL is asked for.
    pub open spec fn start(stored: Option<ConfigsView>) -> DialogueView {
        DialogueView {
            current: ConfigsView::resolved(false, stored, None),
            accepted: ConfigsView::blank(),
            asking: Some(Field::WebhookUrl),
        }
    }

    /// Whether `field` was asked for, and its value accepted, before this point.
    pub open spec fn done_with(self, field: Field) -> bool {
        match self.asking {
            Some(asking) => field.position() < asking.position(),
            None => true,
        }
    }

    /// What holds of a dialogue at every point: the fields come in their order, each field
    /// that was asked for has a value that its validator accepts, the others have none yet,
    /// and `debug_mode` is off in what was accepted.
    pub open spec fn wf(self) -> bool {
        &&& !self.accepted.debug_mode
        &&& forall|field: Field|
            if self.done_with(field) {
                #[trigger] verdict(field, self.accepted.get(field)) is Ok
            } else {
                self.accepted.get(field) is None
            }
    }

    /// The prompt that is shown at this point.
    pub open spec fn prompt(self) -> Seq<char>
        recommends
            self.asking is Some,
    {
        prompt_text(self.asking->0, self.current.get(self.asking->0))
    }

    /// The complaint that a line of input gives rise to, if it gives rise to one.
    pub open spec fn complaint(self, line: Seq<char>) -> Option<ValidationError> {
        match self.asking {
            Some(field) => match considered(field, self.current.get(field), line) {
                Ok(_) => None,
                Err(complaint) => Some(complaint),
            },
            None => None,
        }
    }

    /// The dialogue after a line of input: where the line stands for a value that the
    /// validator accepts, the field has that value and the next field is asked for; where
    /// it does not, nothing changes, and the same field is asked for again.
    pub open spec fn answered(self, line: Seq<char>) -> DialogueView {
        match self.asking {
            Some(field) => match considered(field, self.current.get(field), line) {
                Ok(value) => DialogueView {
                    current: self.current,
                    accepted: self.accepted.set(field, Some(value)),
                    asking: field.following(),
                },
                Err(_) => self,
            },
            None => self,
        }
    }

    /// The dialogue after the lines of a script, each read in its turn; the lines that are
    /// left when every field has its value are not read.
    pub open spec fn run(self, lines: Seq<Seq<char>>) -> DialogueView
        decreases lines.len(),
    {
        if lines.len() == 0 || self.asking is None {
            self
        } else {
            self.answered(lines.first()).run(lines.drop_first())
        }
    }
}

/// A dialogue that is under way: it asks for one of the fields.
#[derive(Debug)]
pub struct Configurator {
    current: Configs,
    accepted: Configs,
    asking: Field,
}

/// What is to be done after a line of input.
#[derive(Debug)]
pub enum Step {
    /// Show the complaint, if there is one, and the prompt of `dialogue`; read a line and
    /// hand it to `dialogue`.
    Ask { complaint: Option<ValidationError>, dialogue: Configurator },
    /// Every field has its value: store the record.
    Save(Configs),
    /// No line could be read: give up.
    Abort(Error),
}

impl View for Configurator {
    type V = DialogueView;

    closed spec fn view(&self) -> DialogueView {
        DialogueView {
            current: self.current@,
            accepted: self.accepted@,
            asking: Some(self.asking),
        }
    }
}

impl Configurator {
    #[verifier::type_invariant]
    spec fn inv(self) -> bool {
        self@.wf()
    }

    /// Begins the dialogue. `stored` is the record that was read from the settings file, if
    /// one could be read: its values, over the defaults, are what empty lines stand for.
    pub fn start(stored: Option<Configs>) -> (dialogue: Configurator)
        ensures
            dialogue@ == DialogueView::start(stored_view(stored)),
            dialogue@.wf(),
    {
        let mut current = Configs::defaults(false);
        match stored {
            Some(s) => current.load(s),
            None => {},
        }
        let accepted = Configs {
            webhook_url: None,
            channel: None,
            username: None,
            icon_emoji: None,
            debug_mode: false,
        };
        Configurator { current, accepted, asking: Field::WebhookUrl }
    }

    /// The field that is asked for.
    pub fn field(&self) -> (field: Field)
        ensures
            self@.asking == Some(field),
            self@.wf(),
    {
        proof {
            use_type_invariant(self);
        }
        self.asking
    }

    /// The prompt to show.
    pub fn prompt(&self) -> (text: String)
        ensures
            text@ == self@.prompt(),
    {
        prompt(self.asking, self.current.get(self.asking))
    }

    /// Takes what came of reading a line: the line, or why none could be read. A line that
    /// stands for an accepted value gives the field that value and moves on to the next
    /// field, or to storing the record after the last; any other line leaves the dialogue
    /// where it was and comes back with the validator's complaint. The record that is to be
    /// stored holds an accepted value in each field and has `debug_mode` off.
    pub fn answer(self, input: Result<String, String>) -> (step: Step)
        ensures
            match input {
                Ok(line) => match self@.answered(line@).asking {
                    Some(_) => step matches Step::Ask { complaint, dialogue }
                        && dialogue@ == self@.answered(line@)
                        && complaint == self@.complaint(line@),
                    None => step matches Step::Save(record)
                        && record@ == self@.answered(line@).accepted
                        && record@.complete()
                        && !record.debug_mode,
                },
                Err(cause) => step matches Step::Abort(Error::LineUnreadable(c)) && c@ == cause@,
            },
    {
        proof {
            use_type_invariant(&self);
        }
        let ghost before = self@;
        let Configurator { current, mut accepted, asking } = self;
        match input {
            Ok(line) => match consider(asking, current.get(asking), line.as_str()) {
                Ok(value) => {
                    accepted.set(asking, Some(value));
                    proof {
                        lemma_answered_wf(before, line@);
                    }
                    match asking.next() {
                        Some(next) => Step::Ask {
                            complaint: None,
                            dialogue: Configurator { current, accepted, asking: next },
                        },
                        None => Step::Save(accepted),
                    }
                },
                Err(complaint) => Step::Ask {
                    complaint: Some(complaint),
                    dialogue: Configurator { current, accepted, asking },
                },
            },
            Err(cause) => Step::Abort(Error::LineUnreadable(cause)),
        }
    }
}

/// A well-formed dialogue is well-formed after any line of input.
pub proof fn lemma_answered_wf(dialogue: DialogueView, line: Seq<char>)
    requires
        dialogue.wf(),
    ensures
        dialogue.answered(line).wf(),
        dialogue.answered(line).asking is None ==> dialogue.answered(line).accepted.complete(),
{
    let after = dialogue.answered(line);
    if dialogue.asking is Some {
        let asking = dialogue.asking->0;
        if let Ok(value) = considered(asking, dialogue.current.get(asking), line) {
            assert forall|field: Field|
                if after.done_with(field) {
                    #[trigger] verdict(field, after.accepted.get(field)) is Ok
                } else {
                    after.accepted.get(field) is None
                } by {
                if field != asking {
                    assert(after.accepted.get(field) == dialogue.accepted.get(field));
                    assert(dialogue.done_with(field) == after.done_with(field));
                    if dialogue.done_with(field) {
                        assert(verdict(field, dialogue.accepted.get(field)) is Ok);
                    }
                }
            }
        }
    }
    if after.asking is None {
        assert forall|field: Field| #[trigger] verdict(field, after.accepted.get(field)) is Ok by {
            assert(after.done_with(field));
        }
    }
}

/// A dialogue is well-formed when it begins and after any lines of input. So whenever every
/// field has its value, what was accepted holds a value in each field that its validator
/// accepts, and has `debug_mode` off.
pub proof fn lemma_run_wf(stored: Option<ConfigsView>, lines: Seq<Seq<char>>)
    ensures
        DialogueView::start(stored).wf(),
        DialogueView::start(stored).run(lines).wf(),
        !DialogueView::start(stored).run(lines).accepted.debug_mode,
        DialogueView::start(stored).run(lines).asking is None ==> DialogueView::start(stored).run(
            lines,
        ).accepted.complete(),
{
    let begin = DialogueView::start(stored);
    assert forall|field: Field| !begin.done_with(field) && begin.accepted.get(field) is None by {}
    lemma_run_keeps_wf(begin, lines);
}

/// Lines of input keep a well-formed dialogue well-formed.
proof fn lemma_run_keeps_wf(dialogue: DialogueView, lines: Seq<Seq<char>>)
    requires
        dialogue.wf(),
        dialogue.asking is Some,
    ensures
        dialogue.run(lines).wf(),
        dialogue.run(lines).asking is None ==> dialogue.run(lines).accepted.complete(),
    decreases lines.len(),
{
    if lines.len() > 0 {
        let after = dialogue.answered(lines.first());
        lemma_answered_wf(dialogue, lines.first());
        if after.asking is Some {
            lemma_run_keeps_wf(after, lines.drop_first());
        }
    }
}

/// Lines that are all turned down leave the dialogue where it was.
pub proof fn lemma_rejected_lines(dialogue: DialogueView, lines: Seq<Seq<char>>)
    requires
        forall|i: int| 0 <= i < lines.len() ==> dialogue.complaint(#[trigger] lines[i]) is Some,
    ensures
        dialogue.run(lines) == dialogue,
    decreases lines.len(),
{
    if lines.len() > 0 && dialogue.asking is Some {
        assert(dialogue.complaint(lines[0]) is Some);
        let rest = lines.drop_first();
        assert forall|i: int| 0 <= i < rest.len() implies dialogue.complaint(
            #[trigger] rest[i],
        ) is Some by {
            assert(rest[i] == lines[i + 1]);
        }
        lemma_rejected_lines(dialogue, rest);
    }
}

/// A field is asked for until a line is accepted: where every line but the last is turned
/// down and the last is accepted, the dialogue still asks for the same field, with nothing
/// new accepted, after each of the lines before the last, and after the last the field has
/// the value that the last line stands for, and no other, and the next field is asked for.
pub proof fn lemma_asks_until_accepted(dialogue: DialogueView, lines: Seq<Seq<char>>)
    requires
        dialogue.asking is Some,
        lines.len() >= 1,
        forall|i: int| 0 <= i < lines.len() - 1 ==> dialogue.complaint(#[trigger] lines[i]) is Some,
        dialogue.complaint(lines.last()) is None,
    ensures
        forall|n: int| 0 <= n < lines.len() ==> #[trigger] dialogue.run(lines.take(n)) == dialogue,
        dialogue.run(lines) == (DialogueView {
            current: dialogue.current,
            accepted: dialogue.accepted.set(
                dialogue.asking->0,
                Some(candidate(dialogue.current.get(dialogue.asking->0), lines.last())),
            ),
            asking: (dialogue.asking->0).following(),
        }),
    decreases lines.len(),
{
    assert forall|n: int| 0 <= n < lines.len() implies #[trigger] dialogue.run(lines.take(n))
        == dialogue by {
        lemma_rejected_lines(dialogue, lines.take(n));
    }
    let rest = lines.drop_first();
    if lines.len() == 1 {
        assert(lines.first() == lines.last());
        assert(dialogue.answered(lines.first()).run(rest) == dialogue.answered(lines.first()));
    } else {
        assert(dialogue.complaint(lines[0]) is Some);
        assert(rest.last() == lines.last());
        assert forall|i: int| 0 <= i < rest.len() - 1 implies dialogue.complaint(
            #[trigger] rest[i],
        ) is Some by {
            assert(rest[i] == lines[i + 1]);
        }
        lemma_asks_until_accepted(dialogue, rest);
    }
}

/// Holds the whole dialogue with the lines of a script in place of the terminal, and comes
/// back with the record that is to be stored, if the script gets that far. The record is
/// what [`DialogueView::run`] says: each field has the value of the first line, among those
/// read for it, that its validator accepted, and `debug_mode` is off. Where the lines run
/// out before every field has its value, there is no record.
pub fn configure(stored: Option<Configs>, lines: &Vec<String>) -> (record: Option<Configs>)
    ensures
        ({
            let end = DialogueView::start(stored_view(stored)).run(lines.deep_view());
            match record {
                Some(r) => end.asking is None && r@ == end.accepted && r@.complete()
                    && !r.debug_mode,
                None => end.asking is Some,
            }
        }),
{
    let ghost script = lines.deep_view();
    let ghost begin = DialogueView::start(stored_view(stored));
    let mut dialogue = Configurator::start(stored);
    let mut read: usize = 0;
    assert(script.skip(0) == script);
    while read < lines.len()
        invariant
            read <= lines.len(),
            script == lines.deep_view(),
            begin == DialogueView::start(stored_view(stored)),
            begin.run(script) == dialogue@.run(script.skip(read as int)),
        decreases lines.len() - read,
    {
        let ghost before = dialogue@;
        proof {
            use_type_invariant(&dialogue);
        }
        assert(script.skip(read as int).first() == lines@[read as int]@);
        assert(script.skip(read as int).drop_first() == script.skip(read + 1));
        let ghost after = before.answered(lines@[read as int]@);
        assert(before.run(script.skip(read as int)) == after.run(script.skip(read + 1)));
        assert(after.asking is None ==> after.run(script.skip(read + 1)) == after);
        match dialogue.answer(Ok(lines[read].clone())) {
            Step::Ask { complaint: _, dialogue: next } => {
                dialogue = next;
            },
            Step::Save(record) => {
                return Some(record);
            },
            Step::Abort(_) => {
                return None;
            },
        }
        read += 1;
    }
    proof {
        use_type_invariant(&dialogue);
    }
    None
}

} // verus!
