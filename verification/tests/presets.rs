use rustic_print::block::render_block;
use rustic_print::block_options::BlockOptions;
use rustic_print::line::{Line, LineKind};
use rustic_print::messages::Messages;
use rustic_print::style_options::{Color, StyleOptions};
use rustic_print::RusticPrint;

fn options(
    label: Option<&str>,
    foreground: Option<Color>,
    background: Option<Color>,
    prefix: &str,
    padding: bool,
) -> BlockOptions {
    BlockOptions {
        block_type: label.map(|name| name.to_string()),
        style: if foreground.is_some() || background.is_some() {
            Some(StyleOptions {
                foreground,
                background,
            })
        } else {
            None
        },
        prefix: prefix.to_string(),
        padding,
    }
}

fn expected(options: &BlockOptions) -> Vec<Line> {
    render_block(&Messages::from("Some message to show."), options, 60)
}

fn message() -> Messages {
    Messages::from("Some message to show.")
}

#[test]
fn new_printer_uses_every_column() {
    assert!(!RusticPrint::new().reserve_last_column);
}

#[test]
fn success_is_black_on_green_under_ok() {
    let lines = RusticPrint::new().success(message(), Some(60));
    let preset = options(Some("OK"), Some(Color::Black), Some(Color::DarkGreen), " ", true);
    assert_eq!(lines, expected(&preset));
    assert!(lines[2].text.starts_with(" [OK] Some message"));
}

#[test]
fn caution_is_grey_on_red_behind_a_mark() {
    let lines = RusticPrint::new().caution(message(), Some(60));
    let preset = options(
        Some("CAUTION"),
        Some(Color::Grey),
        Some(Color::DarkRed),
        " ! ",
        true,
    );
    assert_eq!(lines, expected(&preset));
    assert!(lines[2].text.starts_with(" ! [CAUTION] Some message"));
    assert!(lines[1].text.starts_with(" ! "));
}

#[test]
fn error_is_grey_on_red_under_error() {
    let lines = RusticPrint::new().error(message(), Some(60));
    let preset = options(Some("ERROR"), Some(Color::Grey), Some(Color::DarkRed), " ", true);
    assert_eq!(lines, expected(&preset));
    assert!(lines[2].text.starts_with(" [ERROR] Some message"));
}

#[test]
fn comment_is_plain_behind_slashes() {
    let lines = RusticPrint::new().comment(message(), Some(60));
    let preset = options(None, None, None, " // ", false);
    assert_eq!(lines, expected(&preset));
    assert_eq!(lines.len(), 3);
    assert_eq!(lines[1].kind, LineKind::Body);
    assert_eq!(lines[1].style, None);
    assert!(lines[1].text.starts_with(" // Some message"));
}

#[test]
fn warning_is_black_on_yellow_under_warning() {
    let lines = RusticPrint::new().warning(message(), Some(60));
    let preset = options(
        Some("WARNING"),
        Some(Color::Black),
        Some(Color::DarkYellow),
        " ",
        true,
    );
    assert_eq!(lines, expected(&preset));
    assert!(lines[2].text.starts_with(" [WARNING] Some message"));
}

#[test]
fn info_is_green_text_under_info() {
    let lines = RusticPrint::new().info(message(), Some(60));
    let preset = options(Some("INFO"), Some(Color::Green), None, " ", true);
    assert_eq!(lines, expected(&preset));
    assert_eq!(
        lines[2].style,
        Some(StyleOptions {
            foreground: Some(Color::Green),
            background: None
        })
    );
    assert_eq!(lines.len(), 5);
}

#[test]
fn note_is_yellow_text_without_padding() {
    let lines = RusticPrint::new().note(message(), Some(60));
    let preset = options(Some("NOTE"), Some(Color::DarkYellow), None, " ! ", false);
    assert_eq!(lines, expected(&preset));
    assert_eq!(lines.len(), 3);
    assert!(lines[1].text.starts_with(" ! [NOTE] Some message"));
}

#[test]
fn default_options_are_bare() {
    let options = BlockOptions::default();
    assert_eq!(options.block_type, None);
    assert_eq!(options.style, None);
    assert_eq!(options.prefix, "");
    assert!(!options.padding);
    let style = StyleOptions::default();
    assert_eq!(style.foreground, None);
    assert_eq!(style.background, None);
}
