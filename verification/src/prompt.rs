//! The prompts, as functions from a state and a key to the next state and
//! to what the caller does next. The caller reads the keys and writes the
//! spans; nothing here waits for input.
//!
//! A choice prompt compares texts without regard to case. It keeps each
//! choice with its lower case, and takes the lower case of the input with
//! every step that needs it: [`Choice::apply`], [`Choice::resolve_with`] and
//! [`Choice::input_line_with`] are stated over plain values, and
//! [`Choice::press`], [`Choice::resolve`] and [`Choice::input_line`] put
//! the input into lower case and call them.

use crate::input::{
    eq_ignore_ascii_case, lowercase, parse_index, parsed_index, same_ignoring_ascii_case,
    starts_with, trim, trimmed,
};
use crate::span::{colored, colored_on, plain, Span, SpanView};
use crate::style_options::Color;
use crate::text::{decimal, decimal_string};
use vstd::prelude::*;
use vstd::string::*;

verus! {

/// A key as a prompt sees it.
#[derive(Clone, Copy, Debug, PartialEq, Eq, Structural)]
pub enum Key {
    /// A character that was typed.
    Char(char),
    /// A character that was typed with the control key held down.
    Control(char),
    Enter,
    Backspace,
    Tab,
    Up,
    Down,
    /// Any other key.
    Other,
}

/// Whether a key cancels the prompt: control and `c` do.
pub open spec fn is_interrupt(key: Key) -> bool {
    key == Key::Control('c')
}

/// The character that a key adds to the input, if it adds one: the
/// character typed, with or without the control key, but for the key that
/// cancels the prompt.
pub open spec fn typed_char(key: Key) -> Option<char> {
    match key {
        Key::Char(c) => Some(c),
        Key::Control(c) => if c == 'c' {
            None
        } else {
            Some(c)
        },
        _ => None,
    }
}

/// Tells the character that a key adds to the input.
pub fn typed(key: Key) -> (c: Option<char>)
    ensures
        c == typed_char(key),
{
    match key {
        Key::Char(c) => Some(c),
        Key::Control(c) => if c == 'c' {
            None
        } else {
            Some(c)
        },
        _ => None,
    }
}

/// What the caller of a yes/no prompt does after a key.
#[derive(Clone, Copy, Debug, PartialEq, Eq, Structural)]
pub enum ConfirmStep {
    /// Show the character that was typed.
    Echo(char),
    /// Wipe the last character shown.
    Erase,
    /// Nothing to show.
    Ignore,
    /// The answer is given: decide on the input.
    Commit,
    /// The prompt is cancelled: leave raw mode and end.
    Abort,
}

/// The input of a yes/no prompt after a key: a character is added, the
/// backspace key takes the last one off, no other key changes it.
pub open spec fn confirm_input_after(input: Seq<char>, key: Key) -> Seq<char> {
    match typed_char(key) {
        Some(c) => input.push(c),
        None => if key == Key::Backspace && input.len() > 0 {
            input.drop_last()
        } else {
            input
        },
    }
}

/// What a key asks of the caller of a yes/no prompt.
pub open spec fn confirm_step_of(input: Seq<char>, key: Key) -> ConfirmStep {
    match typed_char(key) {
        Some(c) => ConfirmStep::Echo(c),
        None => if is_interrupt(key) {
            ConfirmStep::Abort
        } else if key == Key::Enter {
            ConfirmStep::Commit
        } else if key == Key::Backspace && input.len() > 0 {
            ConfirmStep::Erase
        } else {
            ConfirmStep::Ignore
        },
    }
}

/// The answer to a yes/no prompt: the default where nothing was typed;
/// else whether what was typed is `yes` or `y`, in any case of letters.
/// The input counts as it was typed: a space is a character like any
/// other, so that an input of spaces, or `yes` between spaces, is a no.
pub open spec fn confirm_answer(input: Seq<char>, default: bool) -> bool {
    if input.len() == 0 {
        default
    } else {
        same_ignoring_ascii_case(input, seq!['y', 'e', 's']) || same_ignoring_ascii_case(
            input,
            seq!['y'],
        )
    }
}

/// The question of a yes/no prompt: the question in green, the choice of
/// answers, the default in yellow between brackets, and on a new line the
/// mark after which the answer is typed.
pub open spec fn confirm_prompt(question: Seq<char>, default: bool) -> Seq<SpanView> {
    seq![
        colored(question, Color::Green),
        plain(" (yes/no) ["@),
        colored(
            if default {
                "yes"@
            } else {
                "no"@
            },
            Color::Yellow,
        ),
        plain("]:\r\n > "@),
    ]
}

/// Makes the question of a yes/no prompt.
pub fn confirm_question(question: &str, default: bool) -> (spans: Vec<Span>)
    ensures
        spans.deep_view() == confirm_prompt(question@, default),
{
    let answer = if default {
        "yes"
    } else {
        "no"
    };
    let mut spans: Vec<Span> = Vec::new();
    spans.push(Span::colored(String::from_str(question), Color::Green));
    spans.push(Span::plain(String::from_str(" (yes/no) [")));
    spans.push(Span::colored(String::from_str(answer), Color::Yellow));
    spans.push(Span::plain(String::from_str("]:\r\n > ")));
    assert(spans.deep_view() =~= confirm_prompt(question@, default));
    spans
}

/// Takes one key of a yes/no prompt: changes the input and tells the
/// caller what to do.
pub fn confirm_key(input: &mut String, key: Key) -> (step: ConfirmStep)
    ensures
        final(input)@ == confirm_input_after(old(input)@, key),
        step == confirm_step_of(old(input)@, key),
{
    match key {
        Key::Char(c) => {
            input.push(c);
            ConfirmStep::Echo(c)
        },
        Key::Control(c) => {
            if c == 'c' {
                ConfirmStep::Abort
            } else {
                input.push(c);
                ConfirmStep::Echo(c)
            }
        },
        Key::Backspace => {
            match input.pop() {
                Some(_) => ConfirmStep::Erase,
                None => ConfirmStep::Ignore,
            }
        },
        Key::Enter => ConfirmStep::Commit,
        _ => ConfirmStep::Ignore,
    }
}

/// Decides a yes/no prompt on the input as it was typed.
pub fn confirm_decide(input: &str, default: bool) -> (answer: bool)
    ensures
        answer == confirm_answer(input@, default),
{
    if input.is_empty() {
        default
    } else {
        proof {
            reveal_strlit("yes");
            reveal_strlit("y");
            assert("yes"@ =~= seq!['y', 'e', 's']);
            assert("y"@ =~= seq!['y']);
        }
        eq_ignore_ascii_case(input, "yes") || eq_ignore_ascii_case(input, "y")
    }
}

/// The question of a free prompt: the question in dark green, the default
/// if there is one in dark green between brackets, a colon, and on a new
/// line the mark after which the answer is typed.
pub open spec fn ask_prompt(question: Seq<char>, default: Option<Seq<char>>) -> Seq<SpanView> {
    seq![colored(question, Color::DarkGreen)] + (match default {
        Some(text) => seq![plain(" ["@), colored(text, Color::DarkGreen), plain("]"@)],
        None => Seq::empty(),
    }) + seq![plain(":\n> "@)]
}

/// The answer to a free prompt: the line that was typed without the white
/// space around it, or the default (nothing, if there is none) where
/// nothing else was typed.
pub open spec fn ask_answer_of(input: Seq<char>, default: Option<Seq<char>>) -> Seq<char> {
    if trimmed(input).len() == 0 {
        match default {
            Some(text) => text,
            None => Seq::empty(),
        }
    } else {
        trimmed(input)
    }
}

/// Makes the question of a free prompt.
pub fn ask_question(question: &str, default_text: Option<&str>) -> (spans: Vec<Span>)
    ensures
        spans.deep_view() == ask_prompt(
            question@,
            match default_text {
                Some(text) => Some(text@),
                None => None,
            },
        ),
{
    let mut spans: Vec<Span> = Vec::new();
    spans.push(Span::colored(String::from_str(question), Color::DarkGreen));
    match default_text {
        Some(text) => {
            spans.push(Span::plain(String::from_str(" [")));
            spans.push(Span::colored(String::from_str(text), Color::DarkGreen));
            spans.push(Span::plain(String::from_str("]")));
        },
        None => {},
    }
    spans.push(Span::plain(String::from_str(":\n> ")));
    assert(spans.deep_view() =~= ask_prompt(
        question@,
        match default_text {
            Some(text) => Some(text@),
            None => None,
        },
    ));
    spans
}

/// Reads the answer to a free prompt off the line that was typed.
pub fn ask_answer(input: &str, default: Option<&str>) -> (answer: String)
    ensures
        answer@ == ask_answer_of(
            input@,
            match default {
                Some(text) => Some(text@),
                None => None,
            },
        ),
{
    let typed = trim(input);
    if typed.as_str().is_empty() {
        match default {
            Some(text) => String::from_str(text),
            None => String::new(),
        }
    } else {
        typed
    }
}

/// The first index below `count` at which `holds`, if there is one.
pub open spec fn first_where(holds: spec_fn(int) -> bool, count: nat) -> Option<nat>
    decreases count,
{
    if count == 0 {
        None
    } else {
        match first_where(holds, (count - 1) as nat) {
            Some(index) => Some(index),
            None => if holds(count - 1) {
                Some((count - 1) as nat)
            } else {
                None
            },
        }
    }
}

/// `first_where` finds an index at which the condition holds and before
/// which it does not.
pub proof fn first_where_is(holds: spec_fn(int) -> bool, count: nat, index: int)
    requires
        0 <= index < count,
        holds(index),
        forall|k: int| 0 <= k < index ==> !#[trigger] holds(k),
    ensures
        first_where(holds, count) == Some(index as nat),
    decreases count,
{
    if index < count - 1 {
        first_where_is(holds, (count - 1) as nat, index);
    } else {
        first_where_is_none(holds, (count - 1) as nat);
    }
}

/// `first_where` finds nothing where the condition holds nowhere.
pub proof fn first_where_is_none(holds: spec_fn(int) -> bool, count: nat)
    requires
        forall|k: int| 0 <= k < count ==> !#[trigger] holds(k),
    ensures
        first_where(holds, count) is None,
    decreases count,
{
    if count > 0 {
        first_where_is_none(holds, (count - 1) as nat);
    }
}

/// What `first_where` finds is below `count`, the condition holds there,
/// and it holds nowhere before.
pub proof fn first_where_found(holds: spec_fn(int) -> bool, count: nat)
    ensures
        match first_where(holds, count) {
            Some(index) => index < count && holds(index as int) && forall|k: int|
                0 <= k < index ==> !#[trigger] holds(k),
            None => forall|k: int| 0 <= k < count ==> !#[trigger] holds(k),
        },
    decreases count,
{
    if count > 0 {
        first_where_found(holds, (count - 1) as nat);
    }
}

/// A choice: its text, and its text in lower case.
#[derive(Clone, Debug, PartialEq, Eq)]
pub struct Entry {
    pub text: String,
    pub lowered: String,
}

/// An `Entry` with its texts as sequences of characters.
pub struct EntryView {
    pub text: Seq<char>,
    pub lowered: Seq<char>,
}

impl View for Entry {
    type V = EntryView;

    open spec fn view(&self) -> EntryView {
        EntryView { text: self.text@, lowered: self.lowered@ }
    }
}

impl DeepView for Entry {
    type V = EntryView;

    open spec fn deep_view(&self) -> EntryView {
        self@
    }
}

/// Texts as choices, each with its lower case.
pub open spec fn entries_of(texts: Seq<Seq<char>>) -> Seq<EntryView> {
    Seq::new(texts.len(), |i: int| EntryView { text: texts[i], lowered: lowercase(texts[i]) })
}

/// The state of a choice prompt: the choices, what was typed, and the
/// index of the highlighted choice.
pub struct ChoiceView {
    pub choices: Seq<EntryView>,
    pub input: Seq<char>,
    pub selected: nat,
}

/// What the caller of a choice prompt does after a key.
#[derive(Clone, Copy, Debug, PartialEq, Eq, Structural)]
pub enum ChoiceStep {
    /// Draw the input line again.
    Redraw,
    /// The choice is made: resolve it.
    Commit,
    /// The prompt is cancelled: leave raw mode and end.
    Abort,
}

impl ChoiceView {
    /// A state is sound when the highlighted index is that of a choice, or
    /// zero where there is none.
    pub open spec fn sound(self) -> bool {
        self.selected < self.choices.len() || (self.choices.len() == 0 && self.selected == 0)
    }

    /// Whether the choice at an index is `text` exactly.
    pub open spec fn is_at(self, text: Seq<char>) -> spec_fn(int) -> bool {
        |i: int| self.choices[i].text == text
    }

    /// Whether the choice at an index starts, in lower case, with
    /// `lowered`.
    pub open spec fn starts_at(self, lowered: Seq<char>) -> spec_fn(int) -> bool {
        |i: int| lowered.is_prefix_of(self.choices[i].lowered)
    }

    /// Whether the choice at an index is, in lower case, `lowered`.
    pub open spec fn reads_at(self, lowered: Seq<char>) -> spec_fn(int) -> bool {
        |i: int| self.choices[i].lowered == lowered
    }

    /// The first choice that is `text` exactly.
    pub open spec fn position(self, text: Seq<char>) -> Option<nat> {
        first_where(self.is_at(text), self.choices.len())
    }

    /// The first choice that starts, in lower case, with `lowered`.
    pub open spec fn first_starting(self, lowered: Seq<char>) -> Option<nat> {
        first_where(self.starts_at(lowered), self.choices.len())
    }

    /// The first choice that is, in lower case, `lowered`.
    pub open spec fn first_reading(self, lowered: Seq<char>) -> Option<nat> {
        first_where(self.reads_at(lowered), self.choices.len())
    }

    /// The highlighted index after `input` was typed, `lowered` being its
    /// lower case: the first choice that starts with it, whatever the case;
    /// where none does, the index that the input names; where it names
    /// none, the index as it was.
    pub open spec fn selected_after_typing(self, input: Seq<char>, lowered: Seq<char>) -> nat {
        match self.first_starting(lowered) {
            Some(index) => index,
            None => match parsed_index(input, self.choices.len()) {
                Some(index) => index,
                None => self.selected,
            },
        }
    }

    /// The state after a character was typed, `lowered` being the lower
    /// case of the input with that character: the character is added to
    /// the input, and the highlight moves as the input says.
    pub open spec fn after_typing(self, c: char, lowered: Seq<char>) -> ChoiceView {
        ChoiceView {
            input: self.input.push(c),
            selected: self.selected_after_typing(self.input.push(c), lowered),
            ..self
        }
    }

    /// The state after a key, `lowered` being the lower case of the input
    /// as the key leaves it. Tab takes the highlighted choice as the
    /// input. The arrows move the highlight up or down, around the ends,
    /// and clear the input. A character is added to the input and may move
    /// the highlight. The backspace key takes the last character off.
    pub open spec fn applied(self, key: Key, lowered: Seq<char>) -> ChoiceView {
        match key {
            Key::Tab => if self.choices.len() > 0 {
                ChoiceView { input: self.choices[self.selected as int].text, ..self }
            } else {
                self
            },
            Key::Up => ChoiceView {
                input: Seq::empty(),
                selected: if self.choices.len() == 0 {
                    0
                } else if self.selected == 0 {
                    (self.choices.len() - 1) as nat
                } else {
                    (self.selected - 1) as nat
                },
                ..self
            },
            Key::Down => ChoiceView {
                input: Seq::empty(),
                selected: if self.choices.len() == 0 || self.selected + 1 == self.choices.len() {
                    0
                } else {
                    self.selected + 1
                },
                ..self
            },
            Key::Backspace => if self.input.len() > 0 {
                ChoiceView { input: self.input.drop_last(), ..self }
            } else {
                self
            },
            _ => match typed_char(key) {
                Some(c) => self.after_typing(c, lowered),
                None => self,
            },
        }
    }

    /// The choice that is made on commit, `lowered` being the lower case
    /// of the input: the one whose index the input names; else the first
    /// one that is the input, whatever the case; else the highlighted one
    /// where nothing was typed; else none.
    pub open spec fn resolved_with(self, lowered: Seq<char>) -> Option<nat> {
        match parsed_index(self.input, self.choices.len()) {
            Some(index) => Some(index),
            None => match self.first_reading(lowered) {
                Some(index) => Some(index),
                None => if self.input.len() == 0 && self.choices.len() > 0 {
                    Some(self.selected)
                } else {
                    None
                },
            },
        }
    }

    /// What the input line shows, `lowered` being the lower case of the
    /// input: the highlighted choice where nothing was typed; else the
    /// input, followed in white on grey by the rest of the highlighted
    /// choice where that starts with the input, whatever the case.
    pub open spec fn input_line_with(self, lowered: Seq<char>) -> Seq<SpanView> {
        if self.choices.len() == 0 {
            seq![plain(self.input)]
        } else if self.input.len() == 0 {
            seq![plain(self.choices[self.selected as int].text)]
        } else if lowered.is_prefix_of(self.choices[self.selected as int].lowered) {
            seq![
                plain(self.input),
                colored_on(
                    rest_of(self.choices[self.selected as int].text, self.input.len()),
                    Color::White,
                    Color::Grey,
                ),
            ]
        } else {
            seq![plain(self.input)]
        }
    }

    /// The state after a key.
    pub open spec fn after_key(self, key: Key) -> ChoiceView {
        match typed_char(key) {
            Some(c) => self.applied(key, lowercase(self.input.push(c))),
            None => self.applied(key, Seq::empty()),
        }
    }

    /// The choice that is made on commit.
    pub open spec fn resolved(self) -> Option<nat> {
        self.resolved_with(lowercase(self.input))
    }

    /// What the input line shows.
    pub open spec fn input_line(self) -> Seq<SpanView> {
        self.input_line_with(lowercase(self.input))
    }
}

/// What a key asks of the caller of a choice prompt.
pub open spec fn choice_step_of(key: Key) -> ChoiceStep {
    if key == Key::Enter {
        ChoiceStep::Commit
    } else if is_interrupt(key) {
        ChoiceStep::Abort
    } else {
        ChoiceStep::Redraw
    }
}

/// What is left of `text` after its first `taken` characters.
pub open spec fn rest_of(text: Seq<char>, taken: nat) -> Seq<char> {
    if taken <= text.len() {
        text.skip(taken as int)
    } else {
        Seq::empty()
    }
}

/// The state in which a choice prompt starts: nothing typed, and the
/// highlight on the first choice that is the default (or that is empty,
/// without a default), on the first choice where there is none such.
pub open spec fn choice_start(choices: Seq<EntryView>, default: Option<Seq<char>>) -> ChoiceView {
    let start = ChoiceView { choices, input: Seq::empty(), selected: 0 };
    let wanted = match default {
        Some(text) => text,
        None => Seq::empty(),
    };
    match start.position(wanted) {
        Some(index) => ChoiceView { selected: index, ..start },
        None => start,
    }
}

/// The first `count` choices as they are listed: each on a line of its
/// own, after its index in green between brackets.
pub open spec fn numbered(choices: Seq<EntryView>, count: nat) -> Seq<SpanView>
    decreases count,
{
    if count == 0 {
        Seq::empty()
    } else {
        numbered(choices, (count - 1) as nat) + seq![
            plain("  ["@),
            colored(decimal((count - 1) as nat), Color::Green),
            plain("] "@ + choices[count - 1].text + seq!['\n']),
        ]
    }
}

/// What a choice prompt shows when it starts: the question in green, the
/// default if there is one in green between brackets, a colon, the
/// numbered choices, and the mark after which the answer is typed.
pub open spec fn choice_heading(
    choices: Seq<EntryView>,
    question: Seq<char>,
    default: Option<Seq<char>>,
) -> Seq<SpanView> {
    seq![colored(question, Color::Green)] + (match default {
        Some(text) => seq![plain(" ["@), colored(text, Color::Green), plain("]"@)],
        None => Seq::empty(),
    }) + seq![plain(":\n"@)] + numbered(choices, choices.len()) + seq![plain("> "@)]
}

/// What stands after the mark when the prompt starts: the highlighted
/// choice where the prompt has a default and a choice, else nothing.
pub open spec fn choice_opening(state: ChoiceView, default_given: bool) -> Seq<SpanView> {
    if default_given && state.choices.len() > 0 {
        seq![plain(state.choices[state.selected as int].text)]
    } else {
        Seq::empty()
    }
}

/// The choices as a list in which the selected one stands out: black on
/// white after `> `, the others plain after two spaces; each span is a
/// line.
pub open spec fn choice_list(choices: Seq<Seq<char>>, selected: nat) -> Seq<SpanView> {
    Seq::new(
        choices.len(),
        |i: int|
            if i == selected {
                colored_on(seq!['>', ' '] + choices[i], Color::Black, Color::White)
            } else {
                plain(seq![' ', ' '] + choices[i])
            },
    )
}

/// What is said of an input that names no choice.
pub open spec fn invalid_selection(input: Seq<char>) -> Seq<char> {
    "Invalid selection: \""@ + input + "\". Please enter a valid index or choice."@
}

/// How a choice prompt ends, or that it has not ended.
pub enum OutcomeView {
    Selected(Seq<char>),
    Invalid(Seq<char>),
    Aborted,
    Pending,
}

/// What becomes of a prompt in `state` on `keys`: the keys are taken in
/// turn up to the first that commits or cancels. On commit the resolved
/// choice is selected, or the input is found invalid. Without such a key
/// the prompt is still pending.
pub open spec fn outcome_of(state: ChoiceView, keys: Seq<Key>) -> OutcomeView
    decreases keys.len(),
{
    if keys.len() == 0 {
        OutcomeView::Pending
    } else {
        match choice_step_of(keys[0]) {
            ChoiceStep::Commit => match state.resolved() {
                Some(index) => OutcomeView::Selected(state.choices[index as int].text),
                None => OutcomeView::Invalid(state.input),
            },
            ChoiceStep::Abort => OutcomeView::Aborted,
            ChoiceStep::Redraw => outcome_of(state.after_key(keys[0]), keys.drop_first()),
        }
    }
}

/// Every key leaves a sound state sound, and the choices as they are.
pub proof fn keys_keep_state_sound(state: ChoiceView, key: Key, lowered: Seq<char>)
    requires
        state.sound(),
    ensures
        state.applied(key, lowered).sound(),
        state.applied(key, lowered).choices == state.choices,
        state.after_key(key).sound(),
        state.after_key(key).choices == state.choices,
{
    first_where_found(state.starts_at(lowered), state.choices.len());
    match typed_char(key) {
        Some(c) => {
            first_where_found(
                state.starts_at(lowercase(state.input.push(c))),
                state.choices.len(),
            );
        },
        None => {},
    }
}

/// A prompt starts in a sound state.
pub proof fn start_is_sound(choices: Seq<EntryView>, default: Option<Seq<char>>)
    ensures
        choice_start(choices, default).sound(),
        choice_start(choices, default).choices == choices,
        choice_start(choices, default).input.len() == 0,
{
    let start = ChoiceView { choices, input: Seq::empty(), selected: 0 };
    let wanted = match default {
        Some(text) => text,
        None => Seq::empty(),
    };
    first_where_found(start.is_at(wanted), choices.len());
}

/// What is resolved on commit is the index of a choice.
pub proof fn resolved_is_a_choice(state: ChoiceView, lowered: Seq<char>)
    requires
        state.sound(),
    ensures
        state.resolved_with(lowered) is Some ==> state.resolved_with(lowered)->0
            < state.choices.len(),
        state.resolved() is Some ==> state.resolved()->0 < state.choices.len(),
{
    first_where_found(state.reads_at(lowered), state.choices.len());
    first_where_found(state.reads_at(lowercase(state.input)), state.choices.len());
}

/// How a choice prompt ended, or that it has not ended.
#[derive(Clone, Debug, PartialEq, Eq)]
pub enum ChoiceOutcome {
    /// The text of the choice that was made.
    Selected(String),
    /// The input that named no choice: the prompt starts again.
    Invalid(String),
    /// The prompt was cancelled.
    Aborted,
    /// The keys ran out before one committed or cancelled.
    Pending,
}

impl View for ChoiceOutcome {
    type V = OutcomeView;

    open spec fn view(&self) -> OutcomeView {
        match self {
            ChoiceOutcome::Selected(text) => OutcomeView::Selected(text@),
            ChoiceOutcome::Invalid(input) => OutcomeView::Invalid(input@),
            ChoiceOutcome::Aborted => OutcomeView::Aborted,
            ChoiceOutcome::Pending => OutcomeView::Pending,
        }
    }
}

/// Makes the list of choices in which the selected one stands out.
pub fn print_choices(choices: &[&str], selected: usize) -> (spans: Vec<Span>)
    ensures
        spans.deep_view() == choice_list(choices.deep_view(), selected as nat),
{
    let ghost texts = choices.deep_view();
    let mut spans: Vec<Span> = Vec::new();
    let mut i: usize = 0;
    while i < choices.len()
        invariant
            i <= choices.len(),
            texts == choices.deep_view(),
            spans.len() == i,
            forall|k: int| 0 <= k < i ==> spans[k]@ == choice_list(texts, selected as nat)[k],
        decreases choices.len() - i,
    {
        assert(texts[i as int] == choices[i as int]@);
        let mut text = String::new();
        if i == selected {
            text.push('>');
            text.push(' ');
            text.append(choices[i]);
            assert(text@ =~= seq!['>', ' '] + texts[i as int]);
            spans.push(Span::colored_on(text, Color::Black, Color::White));
        } else {
            text.push(' ');
            text.push(' ');
            text.append(choices[i]);
            assert(text@ =~= seq![' ', ' '] + texts[i as int]);
            spans.push(Span::plain(text));
        }
        i = i + 1;
    }
    assert(spans.deep_view() =~= choice_list(texts, selected as nat));
    spans
}

/// Says that `input` names no choice.
pub fn invalid_selection_message(input: &str) -> (message: String)
    ensures
        message@ == invalid_selection(input@),
{
    let mut message = String::from_str("Invalid selection: \"");
    message.append(input);
    message.append("\". Please enter a valid index or choice.");
    message
}

/// A choice prompt while it runs.
pub struct Choice {
    choices: Vec<Entry>,
    input: String,
    selected: usize,
}

impl View for Choice {
    type V = ChoiceView;

    closed spec fn view(&self) -> ChoiceView {
        ChoiceView {
            choices: self.choices.deep_view(),
            input: self.input@,
            selected: self.selected as nat,
        }
    }
}

impl Choice {
    #[verifier::type_invariant]
    spec fn well_formed(&self) -> bool {
        self@.sound()
    }

    /// Starts a prompt over choices that come with their lower case, the
    /// highlight on `default` if it is one of them.
    pub fn from_entries(choices: Vec<Entry>, default: Option<&str>) -> (state: Choice)
        ensures
            state@ == choice_start(choices.deep_view(), default.deep_view()),
    {
        let ghost entries = choices.deep_view();
        let wanted = match default {
            Some(text) => text,
            None => "",
        };
        proof {
            reveal_strlit("");
            assert(wanted@ =~= match default.deep_view() {
                Some(text) => text,
                None => Seq::empty(),
            });
        }
        let ghost start = ChoiceView { choices: entries, input: Seq::empty(), selected: 0 };
        let wanted_text = String::from_str(wanted);
        let mut found: Option<usize> = None;
        let mut i: usize = 0;
        while i < choices.len() && found.is_none()
            invariant
                i <= choices.len(),
                entries == choices.deep_view(),
                wanted_text@ == wanted@,
                match found {
                    Some(index) => index < choices.len() && entries[index as int].text == wanted@
                        && forall|k: int| 0 <= k < index ==> entries[k].text != wanted@,
                    None => forall|k: int| 0 <= k < i ==> entries[k].text != wanted@,
                },
            decreases choices.len() - i + if found is None { 1nat } else { 0nat },
        {
            assert(entries[i as int] == choices[i as int]@);
            if choices[i].text == wanted_text {
                found = Some(i);
            } else {
                i = i + 1;
            }
        }
        let selected: usize = match found {
            Some(index) => index,
            None => 0,
        };
        proof {
            match found {
                Some(index) => {
                    first_where_is(start.is_at(wanted@), entries.len(), index as int);
                },
                None => {
                    first_where_is_none(start.is_at(wanted@), entries.len());
                },
            }
            start_is_sound(entries, default.deep_view());
        }
        Choice { choices, input: String::new(), selected }
    }

    /// Starts a prompt over `choices`, the highlight on `default` if it is
    /// one of them.
    pub fn new(choices: &[&str], default: Option<&str>) -> (state: Choice)
        ensures
            state@ == choice_start(entries_of(choices.deep_view()), default.deep_view()),
    {
        let ghost texts = choices.deep_view();
        let mut entries: Vec<Entry> = Vec::new();
        let mut i: usize = 0;
        while i < choices.len()
            invariant
                i <= choices.len(),
                texts == choices.deep_view(),
                entries.len() == i,
                forall|k: int| 0 <= k < i ==> entries[k]@ == entries_of(texts)[k],
            decreases choices.len() - i,
        {
            assert(texts[i as int] == choices[i as int]@);
            entries.push(
                Entry { text: String::from_str(choices[i]), lowered: choices[i].to_lowercase() },
            );
            i = i + 1;
        }
        assert(entries.deep_view() =~= entries_of(texts));
        Choice::from_entries(entries, default)
    }

    /// What was typed so far.
    pub fn input(&self) -> (input: &String)
        ensures
            input@ == self@.input,
    {
        &self.input
    }

    /// The index of the highlighted choice.
    pub fn selected(&self) -> (selected: usize)
        ensures
            selected == self@.selected,
            self@.sound(),
    {
        proof {
            use_type_invariant(self);
        }
        self.selected
    }

    /// The text of the choice at `index`.
    pub fn choice(&self, index: usize) -> (text: &String)
        requires
            index < self@.choices.len(),
        ensures
            text@ == self@.choices[index as int].text,
    {
        &self.choices[index].text
    }

    /// The first choice that starts, in lower case, with `lowered`.
    fn find_starting(&self, lowered: &str) -> (found: Option<usize>)
        ensures
            found.is_some() == self@.first_starting(lowered@).is_some(),
            found is Some ==> found->0 == self@.first_starting(lowered@)->0 && found->0
                < self.choices.len(),
    {
        let mut i: usize = 0;
        while i < self.choices.len()
            invariant
                i <= self.choices.len(),
                forall|k: int| 0 <= k < i ==> !#[trigger] self@.starts_at(lowered@)(k),
            decreases self.choices.len() - i,
        {
            if starts_with(self.choices[i].lowered.as_str(), lowered) {
                proof {
                    first_where_is(self@.starts_at(lowered@), self@.choices.len(), i as int);
                }
                return Some(i);
            }
            i = i + 1;
        }
        proof {
            first_where_is_none(self@.starts_at(lowered@), self@.choices.len());
        }
        None
    }

    /// The first choice that is, in lower case, `lowered`.
    fn find_reading(&self, lowered: &str) -> (found: Option<usize>)
        ensures
            found.is_some() == self@.first_reading(lowered@).is_some(),
            found is Some ==> found->0 == self@.first_reading(lowered@)->0 && found->0
                < self.choices.len(),
    {
        let wanted = String::from_str(lowered);
        let mut i: usize = 0;
        while i < self.choices.len()
            invariant
                i <= self.choices.len(),
                wanted@ == lowered@,
                forall|k: int| 0 <= k < i ==> !#[trigger] self@.reads_at(lowered@)(k),
            decreases self.choices.len() - i,
        {
            if self.choices[i].lowered == wanted {
                proof {
                    first_where_is(self@.reads_at(lowered@), self@.choices.len(), i as int);
                }
                return Some(i);
            }
            i = i + 1;
        }
        proof {
            first_where_is_none(self@.reads_at(lowered@), self@.choices.len());
        }
        None
    }

    /// Adds a character to the input and moves the highlight as the input
    /// says, `lowered` being the lower case of the input with the
    /// character.
    fn type_char(&mut self, c: char, lowered: &str)
        ensures
            final(self)@ == old(self)@.after_typing(c, lowered@),
    {
        proof {
            use_type_invariant(&*self);
            first_where_found(self@.starts_at(lowered@), self@.choices.len());
        }
        let mut input = self.input.clone();
        input.push(c);
        let selected = match self.find_starting(lowered) {
            Some(index) => index,
            None => match parse_index(input.as_str(), self.choices.len()) {
                Some(index) => index,
                None => self.selected,
            },
        };
        self.input = input;
        self.selected = selected;
    }

    /// Takes one key, `lowered` being the lower case of the input as the
    /// key leaves it: changes the state and tells the caller what to do.
    pub fn apply(&mut self, key: Key, lowered: &str) -> (step: ChoiceStep)
        ensures
            final(self)@ == old(self)@.applied(key, lowered@),
            step == choice_step_of(key),
    {
        proof {
            use_type_invariant(&*self);
        }
        let count = self.choices.len();
        match key {
            Key::Enter => ChoiceStep::Commit,
            Key::Tab => {
                if count > 0 {
                    self.input = self.choices[self.selected].text.clone();
                }
                ChoiceStep::Redraw
            },
            Key::Up => {
                if count > 0 {
                    self.selected = if self.selected == 0 {
                        count - 1
                    } else {
                        self.selected - 1
                    };
                }
                self.input = String::new();
                ChoiceStep::Redraw
            },
            Key::Down => {
                if count > 0 {
                    self.selected = if self.selected + 1 == count {
                        0
                    } else {
                        self.selected + 1
                    };
                }
                self.input = String::new();
                ChoiceStep::Redraw
            },
            Key::Char(c) => {
                self.type_char(c, lowered);
                ChoiceStep::Redraw
            },
            Key::Control(c) => {
                if c == 'c' {
                    ChoiceStep::Abort
                } else {
                    self.type_char(c, lowered);
                    ChoiceStep::Redraw
                }
            },
            Key::Backspace => {
                let mut input = self.input.clone();
                input.pop();
                self.input = input;
                ChoiceStep::Redraw
            },
            Key::Other => ChoiceStep::Redraw,
        }
    }

    /// Takes one key: changes the state and tells the caller what to do.
    pub fn press(&mut self, key: Key) -> (step: ChoiceStep)
        ensures
            final(self)@ == old(self)@.after_key(key),
            step == choice_step_of(key),
    {
        match typed(key) {
            Some(c) => {
                let mut input = self.input.clone();
                input.push(c);
                let lowered = input.as_str().to_lowercase();
                self.apply(key, lowered.as_str())
            },
            None => {
                proof {
                    reveal_strlit("");
                    assert(""@ =~= Seq::<char>::empty());
                }
                self.apply(key, "")
            },
        }
    }

    /// The index of the choice that is made on commit, `lowered` being the
    /// lower case of the input, if what was typed names a choice.
    pub fn resolve_with(&self, lowered: &str) -> (index: Option<usize>)
        ensures
            match index {
                Some(i) => self@.resolved_with(lowered@) == Some(i as nat) && i
                    < self@.choices.len(),
                None => self@.resolved_with(lowered@) is None,
            },
    {
        proof {
            use_type_invariant(self);
        }
        match parse_index(self.input.as_str(), self.choices.len()) {
            Some(index) => Some(index),
            None => match self.find_reading(lowered) {
                Some(index) => Some(index),
                None => if self.input.as_str().is_empty() && self.choices.len() > 0 {
                    Some(self.selected)
                } else {
                    None
                },
            },
        }
    }

    /// The index of the choice that is made on commit, if what was typed
    /// names one.
    pub fn resolve(&self) -> (index: Option<usize>)
        ensures
            match index {
                Some(i) => self@.resolved() == Some(i as nat) && i < self@.choices.len(),
                None => self@.resolved() is None,
            },
    {
        let lowered = self.input.as_str().to_lowercase();
        self.resolve_with(lowered.as_str())
    }

    /// What the input line shows now, `lowered` being the lower case of
    /// the input.
    pub fn input_line_with(&self, lowered: &str) -> (spans: Vec<Span>)
        ensures
            spans.deep_view() == self@.input_line_with(lowered@),
    {
        proof {
            use_type_invariant(self);
        }
        let mut spans: Vec<Span> = Vec::new();
        if self.choices.len() == 0 {
            spans.push(Span::plain(self.input.clone()));
        } else if self.input.as_str().is_empty() {
            spans.push(Span::plain(self.choices[self.selected].text.clone()));
        } else {
            let suggestion = &self.choices[self.selected];
            spans.push(Span::plain(self.input.clone()));
            if starts_with(suggestion.lowered.as_str(), lowered) {
                let taken = self.input.as_str().unicode_len();
                let length = suggestion.text.as_str().unicode_len();
                let rest = if taken <= length {
                    String::from_str(suggestion.text.as_str().substring_char(taken, length))
                } else {
                    String::new()
                };
                assert(rest@ =~= rest_of(suggestion@.text, taken as nat));
                spans.push(Span::colored_on(rest, Color::White, Color::Grey));
            }
        }
        assert(spans.deep_view() =~= self@.input_line_with(lowered@));
        spans
    }

    /// What the input line shows now.
    pub fn input_line(&self) -> (spans: Vec<Span>)
        ensures
            spans.deep_view() == self@.input_line(),
    {
        let lowered = self.input.as_str().to_lowercase();
        self.input_line_with(lowered.as_str())
    }

    /// What the prompt shows when it starts.
    pub fn heading(&self, question: &str, default: Option<&str>) -> (spans: Vec<Span>)
        ensures
            spans.deep_view() == choice_heading(self@.choices, question@, default.deep_view()),
    {
        let ghost entries = self@.choices;
        let mut spans: Vec<Span> = Vec::new();
        spans.push(Span::colored(String::from_str(question), Color::Green));
        match default {
            Some(text) => {
                spans.push(Span::plain(String::from_str(" [")));
                spans.push(Span::colored(String::from_str(text), Color::Green));
                spans.push(Span::plain(String::from_str("]")));
            },
            None => {},
        }
        spans.push(Span::plain(String::from_str(":\n")));
        let ghost head = spans.deep_view();
        assert(head =~= seq![colored(question@, Color::Green)] + (match default.deep_view() {
            Some(text) => seq![plain(" ["@), colored(text, Color::Green), plain("]"@)],
            None => Seq::empty(),
        }) + seq![plain(":\n"@)]);
        let mut i: usize = 0;
        assert(spans.deep_view() =~= head + numbered(entries, 0));
        while i < self.choices.len()
            invariant
                i <= self.choices.len(),
                entries == self@.choices,
                spans.deep_view() == head + numbered(entries, i as nat),
            decreases self.choices.len() - i,
        {
            let ghost before = spans.deep_view();
            spans.push(Span::plain(String::from_str("  [")));
            spans.push(Span::colored(decimal_string(i), Color::Green));
            let mut text = String::from_str("] ");
            text.append(self.choices[i].text.as_str());
            text.push('\n');
            assert(text@ =~= "] "@ + entries[i as int].text + seq!['\n']);
            spans.push(Span::plain(text));
            assert(spans.deep_view() =~= before + seq![
                plain("  ["@),
                colored(decimal(i as nat), Color::Green),
                plain("] "@ + entries[i as int].text + seq!['\n']),
            ]);
            i = i + 1;
        }
        spans.push(Span::plain(String::from_str("> ")));
        assert(spans.deep_view() =~= choice_heading(entries, question@, default.deep_view()));
        spans
    }

    /// What stands after the mark when the prompt starts.
    pub fn opening(&self, default_given: bool) -> (spans: Vec<Span>)
        ensures
            spans.deep_view() == choice_opening(self@, default_given),
    {
        proof {
            use_type_invariant(self);
        }
        let mut spans: Vec<Span> = Vec::new();
        if default_given && self.choices.len() > 0 {
            spans.push(Span::plain(self.choices[self.selected].text.clone()));
        }
        assert(spans.deep_view() =~= choice_opening(self@, default_given));
        spans
    }

    /// Takes `keys` in turn up to the first that commits or cancels, and
    /// says how the prompt ended.
    pub fn run(&mut self, keys: &[Key]) -> (outcome: ChoiceOutcome)
        ensures
            outcome@ == outcome_of(old(self)@, keys@),
    {
        let mut i: usize = 0;
        assert(keys@.skip(0) =~= keys@);
        while i < keys.len()
            invariant
                i <= keys.len(),
                outcome_of(old(self)@, keys@) == outcome_of(self@, keys@.skip(i as int)),
            decreases keys.len() - i,
        {
            let ghost rest = keys@.skip(i as int);
            assert(rest[0] == keys[i as int]);
            assert(rest.drop_first() =~= keys@.skip(i + 1));
            let ghost before = self@;
            match self.press(keys[i]) {
                ChoiceStep::Commit => {
                    assert(self@ == before);
                    return match self.resolve() {
                        Some(index) => ChoiceOutcome::Selected(self.choices[index].text.clone()),
                        None => ChoiceOutcome::Invalid(self.input.clone()),
                    };
                },
                ChoiceStep::Abort => {
                    return ChoiceOutcome::Aborted;
                },
                ChoiceStep::Redraw => {},
            }
            i = i + 1;
        }
        ChoiceOutcome::Pending
    }
}

} // verus!
