use rustic_print::block::{
    assemble, at_least_one_line, initial_indent_of, make_body_line, make_padding_line, prefix_of, render_block,
    subsequent_indent_of, tag, wrap_width, MAX_WRAP_WIDTH,
};
use rustic_print::block_options::BlockOptions;
use rustic_print::line::{Line, LineEnding, LineKind};
use rustic_print::messages::Messages;
use rustic_print::style_options::{Color, StyleOptions};
use rustic_print::wrapping::{fill, measure, measure_all, pad_to_width, Measured};
use rustic_print::RusticPrint;

fn kinds(lines: &[Line]) -> Vec<LineKind> {
    lines.iter().map(|line| line.kind).collect()
}

fn count(lines: &[Line], kind: LineKind) -> usize {
    lines.iter().filter(|line| line.kind == kind).count()
}

fn measured(text: &str, columns: usize) -> Measured {
    Measured {
        text: text.to_string(),
        columns,
    }
}

fn green() -> Option<StyleOptions> {
    Some(StyleOptions {
        foreground: Some(Color::Black),
        background: Some(Color::DarkGreen),
    })
}

fn labelled(label: &str, prefix: &str, padding: bool) -> BlockOptions {
    BlockOptions {
        block_type: Some(label.to_string()),
        style: Some(StyleOptions {
            foreground: Some(Color::Black),
            background: Some(Color::DarkGreen),
        }),
        prefix: prefix.to_string(),
        padding,
    }
}

#[test]
fn success_shows_the_label_before_the_message() {
    let printer = RusticPrint::new();
    let lines = printer.success(Messages::from("x"), Some(40));
    assert_eq!(
        kinds(&lines),
        vec![
            LineKind::Blank,
            LineKind::Padding,
            LineKind::Body,
            LineKind::Padding,
            LineKind::Blank
        ]
    );
    assert!(lines[2].text.contains("[OK] x"));
    assert_eq!(lines[2].text, format!(" [OK] x{}", " ".repeat(33)));
    assert_eq!(lines[2].text.len(), 40);
    assert_eq!(
        lines[2].style,
        Some(StyleOptions {
            foreground: Some(Color::Black),
            background: Some(Color::DarkGreen)
        })
    );
    assert!(lines[2].reset);
    assert_eq!(lines[2].ending, LineEnding::Newline);
    assert_eq!(lines[1].text, " ".repeat(40));
    assert_eq!(lines[1].ending, LineEnding::CarriageReturnNewline);
}

#[test]
fn wrap_width_is_capped() {
    assert_eq!(MAX_WRAP_WIDTH, 120);
    assert_eq!(wrap_width(Some(200), false), 120);
    assert_eq!(wrap_width(Some(120), false), 120);
    assert_eq!(wrap_width(Some(80), false), 80);
    assert_eq!(wrap_width(None, false), 120);
    assert_eq!(wrap_width(Some(0), false), 0);
}

#[test]
fn wrap_width_leaves_the_last_column_free_on_request() {
    assert_eq!(wrap_width(Some(80), true), 79);
    assert_eq!(wrap_width(Some(200), true), 119);
    assert_eq!(wrap_width(None, true), 119);
    assert_eq!(wrap_width(Some(1), true), 0);
    assert_eq!(wrap_width(Some(0), true), 0);
}

#[test]
fn label_is_shown_in_upper_case() {
    let options = BlockOptions {
        block_type: Some("ok".to_string()),
        ..Default::default()
    };
    let lines = render_block(&Messages::from("done"), &options, 20);
    assert_eq!(lines.len(), 3);
    assert_eq!(lines[1].text, format!(" [OK] done{}", " ".repeat(10)));
    assert_eq!(initial_indent_of(&options), " [OK] ");
}

#[test]
fn empty_prefix_becomes_one_space() {
    let options = BlockOptions::default();
    assert_eq!(prefix_of(&options), " ");
    let kept = BlockOptions {
        prefix: " // ".to_string(),
        ..Default::default()
    };
    assert_eq!(prefix_of(&kept), " // ");
}

#[test]
fn empty_label_shows_no_brackets() {
    let options = BlockOptions {
        block_type: Some(String::new()),
        prefix: " > ".to_string(),
        ..Default::default()
    };
    assert_eq!(initial_indent_of(&options), " > ");
    assert_eq!(subsequent_indent_of(&options), " > ");
}

#[test]
fn continuation_lines_align_under_the_message() {
    let options = labelled("note", " ! ", false);
    assert_eq!(initial_indent_of(&options), " ! [NOTE] ");
    assert_eq!(subsequent_indent_of(&options), " !        ");
    let lines = render_block(
        &Messages::from("alpha beta gamma delta epsilon"),
        &options,
        24,
    );
    let body: Vec<&str> = lines
        .iter()
        .filter(|line| line.kind == LineKind::Body)
        .map(|line| line.text.as_str())
        .collect();
    assert!(body.len() > 1);
    assert!(body[0].starts_with(" ! [NOTE] alpha"));
    for line in &body[1..] {
        assert!(line.starts_with(" !        "));
        assert!(!line.contains("[NOTE]"));
    }
    for line in &body {
        assert_eq!(textwrap::core::display_width(line), 24);
    }
    let words: Vec<&str> = body
        .iter()
        .flat_map(|line| line.split_whitespace())
        .filter(|word| *word != "!" && *word != "[NOTE]")
        .collect();
    assert_eq!(words, vec!["alpha", "beta", "gamma", "delta", "epsilon"]);
}

#[test]
fn long_text_is_wrapped_at_the_width() {
    let options = BlockOptions::default();
    let lines = render_block(&Messages::from("one two three four five six"), &options, 10);
    let body: Vec<String> = lines
        .iter()
        .filter(|line| line.kind == LineKind::Body)
        .map(|line| line.text.clone())
        .collect();
    assert_eq!(
        body,
        vec![
            " one two  ".to_string(),
            " three    ".to_string(),
            " four five".to_string(),
            " six      ".to_string(),
        ]
    );
}

#[test]
fn every_body_line_takes_the_whole_width() {
    let message = "The quick brown fox jumps over the lazy dog, again and again and again.";
    for width in [12usize, 20, 33, 80, 120] {
        let lines = render_block(&Messages::from(message), &labelled("ok", " ", true), width);
        for line in lines.iter().filter(|line| line.kind == LineKind::Body) {
            assert_eq!(textwrap::core::display_width(&line.text), width);
            assert!(line.reset);
            assert_eq!(line.ending, LineEnding::Newline);
        }
        for line in lines.iter().filter(|line| line.kind == LineKind::Padding) {
            assert_eq!(textwrap::core::display_width(&line.text), width);
        }
    }
}

#[test]
fn wide_characters_count_two_columns() {
    assert_eq!(pad_to_width("你好", 6), "你好  ");
    assert_eq!(pad_to_width("ab", 6), "ab    ");
    assert_eq!(pad_to_width("é", 3), "é  ");
}

#[test]
fn padding_saturates_when_the_text_is_too_wide() {
    assert_eq!(pad_to_width("abcdef", 3), "abcdef");
    assert_eq!(pad_to_width("abc", 3), "abc");
    assert_eq!(pad_to_width("", 0), "");
    assert_eq!(pad_to_width("", 2), "  ");
}

#[test]
fn prefix_wider_than_the_width_is_kept_whole() {
    let options = BlockOptions {
        prefix: " >>>>> ".to_string(),
        padding: true,
        ..Default::default()
    };
    let line = make_padding_line(&measure(prefix_of(&options)), None, 3, LineKind::Padding);
    assert_eq!(line.text, " >>>>> ");
    let lines = render_block(&Messages::from("hi"), &options, 3);
    assert_eq!(lines.first().map(|line| line.kind), Some(LineKind::Blank));
    assert_eq!(lines.last().map(|line| line.kind), Some(LineKind::Blank));
    assert_eq!(count(&lines, LineKind::Padding), 2);
}

#[test]
fn padding_line_is_styled_and_ends_with_carriage_return() {
    let line = make_padding_line(&measured(" ", 1), green(), 5, LineKind::Separator);
    assert_eq!(line.kind, LineKind::Separator);
    assert_eq!(line.text, "     ");
    assert_eq!(line.style, green());
    assert!(line.reset);
    assert_eq!(line.ending, LineEnding::CarriageReturnNewline);
}

#[test]
fn unstyled_padding_line_resets_nothing() {
    let line = make_padding_line(&measured(" // ", 4), None, 8, LineKind::Padding);
    assert_eq!(line.text, " //     ");
    assert_eq!(line.style, None);
    assert!(!line.reset);
}

#[test]
fn body_line_resets_colours_even_without_style() {
    let line = make_body_line(&measured(" text", 5), None, 8);
    assert_eq!(line.kind, LineKind::Body);
    assert_eq!(line.text, " text   ");
    assert_eq!(line.style, None);
    assert!(line.reset);
    assert_eq!(line.ending, LineEnding::Newline);
    let styled = make_body_line(&measured(" text", 5), green(), 5);
    assert_eq!(styled.text, " text");
    assert_eq!(styled.style, green());
}

#[test]
fn fill_goes_by_the_measure_it_is_given() {
    assert_eq!(fill(&measured("ab", 2), 5), "ab   ");
    assert_eq!(fill(&measured("ab", 4), 5), "ab ");
    assert_eq!(fill(&measured("ab", 5), 5), "ab");
    assert_eq!(fill(&measured("ab", 9), 5), "ab");
    assert_eq!(fill(&measured("", 0), 3), "   ");
    assert_eq!(fill(&measured("", 0), 0), "");
}

#[test]
fn measuring_counts_columns() {
    assert_eq!(measure("abc".to_string()), measured("abc", 3));
    assert_eq!(measure("你好".to_string()), measured("你好", 4));
    assert_eq!(measure(String::new()), measured("", 0));
    assert_eq!(
        measure_all(&vec!["a".to_string(), "é!".to_string()]),
        vec![measured("a", 1), measured("é!", 2)]
    );
    assert_eq!(measure_all(&Vec::new()), Vec::<Measured>::new());
}

#[test]
fn label_is_put_in_brackets_after_the_prefix() {
    assert_eq!(tag(" ", Some("OK")), " [OK] ");
    assert_eq!(tag(" ! ", Some("NOTE")), " ! [NOTE] ");
    assert_eq!(tag(" // ", None), " // ");
    assert_eq!(tag("", Some("")), "[] ");
}

#[test]
fn block_is_assembled_from_measured_paragraphs() {
    let paragraphs = vec![
        vec![measured(" [OK] one", 9), measured("      two", 9)],
        vec![measured("      three", 11)],
    ];
    let lines = assemble(&paragraphs, &measured(" ", 1), green(), true, 12);
    let texts: Vec<&str> = lines.iter().map(|line| line.text.as_str()).collect();
    assert_eq!(
        texts,
        vec![
            "",
            "            ",
            " [OK] one   ",
            "      two   ",
            "            ",
            "      three ",
            "            ",
            "",
        ]
    );
    assert_eq!(
        kinds(&lines),
        vec![
            LineKind::Blank,
            LineKind::Padding,
            LineKind::Body,
            LineKind::Body,
            LineKind::Separator,
            LineKind::Body,
            LineKind::Padding,
            LineKind::Blank,
        ]
    );
    for line in &lines[1..7] {
        assert_eq!(line.style, green());
        assert!(line.reset);
    }
    for line in [&lines[1], &lines[4], &lines[6]] {
        assert_eq!(line.ending, LineEnding::CarriageReturnNewline);
    }
    for line in [&lines[0], &lines[2], &lines[3], &lines[5], &lines[7]] {
        assert_eq!(line.ending, LineEnding::Newline);
    }
}

#[test]
fn assembling_without_padding_or_paragraphs_leaves_the_blank_lines() {
    let lines = assemble(&Vec::new(), &measured(" ", 1), None, false, 10);
    assert_eq!(lines, vec![Line::blank(), Line::blank()]);
    let lines = assemble(&vec![Vec::new()], &measured(" ", 1), None, false, 10);
    assert_eq!(lines, vec![Line::blank(), Line::blank()]);
    let lines = assemble(
        &vec![Vec::new(), vec![measured("x", 1)]],
        &measured(">", 1),
        None,
        false,
        3,
    );
    let texts: Vec<&str> = lines.iter().map(|line| line.text.as_str()).collect();
    assert_eq!(texts, vec!["", ">  ", "x  ", ""]);
}

#[test]
fn paragraphs_are_separated_by_one_line_each() {
    let messages = Messages::from(vec!["first", "second", "third"]);
    let padded = render_block(&messages, &labelled("info", " ", true), 30);
    assert_eq!(count(&padded, LineKind::Separator), 2);
    assert_eq!(count(&padded, LineKind::Padding), 2);
    assert_eq!(count(&padded, LineKind::Blank), 2);
    assert_eq!(count(&padded, LineKind::Body), 3);
    assert_eq!(
        kinds(&padded),
        vec![
            LineKind::Blank,
            LineKind::Padding,
            LineKind::Body,
            LineKind::Separator,
            LineKind::Body,
            LineKind::Separator,
            LineKind::Body,
            LineKind::Padding,
            LineKind::Blank,
        ]
    );
    let bare = render_block(&messages, &labelled("info", " ", false), 30);
    assert_eq!(count(&bare, LineKind::Separator), 2);
    assert_eq!(count(&bare, LineKind::Padding), 0);
}

#[test]
fn only_the_first_paragraph_shows_the_label() {
    let messages = Messages::from(vec!["first", "second"]);
    let lines = render_block(&messages, &labelled("info", " ", false), 30);
    let body: Vec<&str> = lines
        .iter()
        .filter(|line| line.kind == LineKind::Body)
        .map(|line| line.text.as_str())
        .collect();
    assert_eq!(
        body,
        vec![
            format!(" [INFO] first{}", " ".repeat(17)).as_str(),
            format!("        second{}", " ".repeat(16)).as_str(),
        ]
    );
}

#[test]
fn single_message_has_no_separator() {
    let lines = render_block(&Messages::from("only"), &labelled("ok", " ", true), 30);
    assert_eq!(count(&lines, LineKind::Separator), 0);
}

#[test]
fn message_without_paragraphs_has_no_body() {
    let messages = Messages::Multiple(Vec::new());
    let lines = render_block(&messages, &labelled("ok", " ", true), 30);
    assert_eq!(
        kinds(&lines),
        vec![
            LineKind::Blank,
            LineKind::Padding,
            LineKind::Padding,
            LineKind::Blank
        ]
    );
}

#[test]
fn empty_message_still_has_a_full_line() {
    let lines = render_block(&Messages::from(""), &labelled("ok", " ", true), 12);
    let body: Vec<&Line> = lines
        .iter()
        .filter(|line| line.kind == LineKind::Body)
        .collect();
    assert_eq!(body.len(), 1);
    assert_eq!(textwrap::core::display_width(&body[0].text), 12);
}

#[test]
fn blank_lines_open_and_close_the_block() {
    let lines = render_block(&Messages::from("x"), &BlockOptions::default(), 10);
    assert_eq!(lines.len(), 3);
    assert_eq!(lines[0], Line::blank());
    assert_eq!(lines[2], Line::blank());
    assert_eq!(lines[0].text, "");
    assert_eq!(lines[0].style, None);
    assert!(!lines[0].reset);
    assert_eq!(lines[0].ending, LineEnding::Newline);
}

#[test]
fn rendering_twice_gives_the_same_lines() {
    let messages = Messages::from(vec!["alpha beta gamma", "delta"]);
    let options = labelled("warning", " ! ", true);
    let first = render_block(&messages, &options, 17);
    let second = render_block(&messages, &options, 17);
    assert_eq!(first, second);
}

#[test]
fn block_uses_the_width_of_the_terminal() {
    let printer = RusticPrint::new();
    let lines = printer.block(Messages::from("x"), BlockOptions::default(), Some(300));
    assert_eq!(lines[1].text.len(), 120);
    let lines = printer.block(Messages::from("x"), BlockOptions::default(), None);
    assert_eq!(lines[1].text.len(), 120);
    let lines = printer.block(Messages::from("x"), BlockOptions::default(), Some(50));
    assert_eq!(lines[1].text.len(), 50);
    let narrow = RusticPrint {
        reserve_last_column: true,
    };
    let lines = narrow.block(Messages::from("x"), BlockOptions::default(), Some(50));
    assert_eq!(lines[1].text.len(), 49);
}

#[test]
fn label_wider_than_the_width_overflows_its_line() {
    let options = labelled("warning", " ", false);
    let lines = render_block(&Messages::from("x"), &options, 5);
    let body: Vec<&Line> = lines
        .iter()
        .filter(|line| line.kind == LineKind::Body)
        .collect();
    assert!(body[0].text.starts_with(" [WARNING]"));
    assert!(textwrap::core::display_width(&body[0].text) > 5);
    let letters: String = body
        .iter()
        .skip(1)
        .flat_map(|line| line.text.chars())
        .filter(|c| *c != ' ')
        .collect();
    assert!(body.len() == 1 || letters == "x");
}

#[test]
fn label_that_fills_the_width_pushes_the_text_past_it() {
    let options = labelled("ok", " ", false);
    let lines = render_block(&Messages::from("hello"), &options, 6);
    let body: Vec<&str> = lines
        .iter()
        .filter(|line| line.kind == LineKind::Body)
        .map(|line| line.text.as_str())
        .collect();
    assert_eq!(body[0], " [OK] h");
    assert_eq!(textwrap::core::display_width(body[0]), 7);
    assert!(body.len() > 1);
    let letters: String = body
        .iter()
        .map(|line| line.trim_start_matches(" [OK] "))
        .flat_map(|line| line.chars())
        .filter(|c| *c != ' ')
        .collect();
    assert_eq!(letters, "hello");
}

#[test]
fn paragraph_without_lines_gets_its_indent() {
    assert_eq!(at_least_one_line(Vec::new(), " [OK] "), vec![" [OK] ".to_string()]);
    assert_eq!(
        at_least_one_line(vec![" a".to_string(), " b".to_string()], " "),
        vec![" a".to_string(), " b".to_string()]
    );
    assert_eq!(
        at_least_one_line(vec![String::new()], " "),
        vec![String::new()]
    );
}
