use rustic_print::line::{Line, LineEnding, LineKind};
use rustic_print::messages::Messages;
use rustic_print::printer::{make_plain_lines, AskStep};
use rustic_print::RusticPrint;

fn plain(text: &str) -> Line {
    Line {
        kind: LineKind::Body,
        text: text.to_string(),
        style: None,
        reset: false,
        ending: LineEnding::Newline,
    }
}

#[test]
fn listing_puts_a_star_before_each_item() {
    let printer = RusticPrint::new();
    let lines = printer.listing(vec!["Item 1".to_string(), "Item 2".to_string()]);
    assert_eq!(lines, vec![plain("* Item 1"), plain("* Item 2")]);
    assert_eq!(printer.listing(Vec::new()), Vec::<Line>::new());
    assert_eq!(printer.listing(vec![String::new()]), vec![plain("* ")]);
}

#[test]
fn text_is_indented_by_one_space() {
    let printer = RusticPrint::new();
    assert_eq!(
        printer.text("This is plain text.", Some(80)),
        vec![plain(" This is plain text.")]
    );
}

#[test]
fn text_is_wrapped_one_column_short_of_the_terminal() {
    let printer = RusticPrint::new();
    let lines = printer.text("aaaa bbbb cccc", Some(11));
    assert_eq!(lines, vec![plain(" aaaa bbbb"), plain(" cccc")]);
    let lines = printer.text("aaaa bbbb cccc", Some(10));
    assert_eq!(lines, vec![plain(" aaaa"), plain(" bbbb"), plain(" cccc")]);
    let long = "word ".repeat(40);
    for line in printer.text(&long, None) {
        assert!(line.text.len() <= 119);
        assert!(line.text.starts_with(' '));
    }
    assert_eq!(printer.text(&long, None).len(), 2);
}

#[test]
fn text_on_a_terminal_without_columns_does_not_fail() {
    let printer = RusticPrint::new();
    let lines = printer.text("ab", Some(0));
    let letters: String = lines
        .iter()
        .flat_map(|line| line.text.chars())
        .filter(|c| *c != ' ')
        .collect();
    assert_eq!(letters, "ab");
}

#[test]
fn ask_accepts_an_answer_that_the_validator_passes() {
    let printer = RusticPrint::new();
    assert_eq!(
        printer.ask("Alice".to_string(), Ok(()), Some(80)),
        AskStep::Accepted("Alice".to_string())
    );
    assert_eq!(
        printer.ask(String::new(), Ok(()), None),
        AskStep::Accepted(String::new())
    );
}

#[test]
fn ask_renders_the_validators_message_as_an_error() {
    let printer = RusticPrint::new();
    let message = "Username must be at least 3 characters long.";
    let step = printer.ask("ab".to_string(), Err(message.to_string()), Some(80));
    let expected = printer.error(Messages::from(message), Some(80));
    assert_eq!(step, AskStep::Rejected(expected.clone()));
    assert!(expected[2].text.starts_with(" [ERROR] Username must be"));
}

#[test]
fn texts_become_plain_lines() {
    assert_eq!(
        make_plain_lines(vec![" a".to_string(), " b".to_string()]),
        vec![plain(" a"), plain(" b")]
    );
    assert_eq!(make_plain_lines(Vec::new()), Vec::<Line>::new());
}
