use rustic_print::console_color::ConsoleColor;

fn all() -> Vec<ConsoleColor> {
    vec![
        ConsoleColor::Black,
        ConsoleColor::Red,
        ConsoleColor::Green,
        ConsoleColor::Yellow,
        ConsoleColor::Blue,
        ConsoleColor::Magenta,
        ConsoleColor::Cyan,
        ConsoleColor::White,
        ConsoleColor::BrightBlack,
        ConsoleColor::BrightRed,
        ConsoleColor::BrightGreen,
        ConsoleColor::BrightYellow,
        ConsoleColor::BrightBlue,
        ConsoleColor::BrightMagenta,
        ConsoleColor::BrightCyan,
        ConsoleColor::BrightWhite,
    ]
}

#[test]
fn foreground_codes_run_from_30_and_from_90() {
    let codes: Vec<&str> = all().iter().map(|color| color.to_fg_ansi_code()).collect();
    assert_eq!(
        codes,
        vec![
            "\x1b[30m", "\x1b[31m", "\x1b[32m", "\x1b[33m", "\x1b[34m", "\x1b[35m", "\x1b[36m",
            "\x1b[37m", "\x1b[90m", "\x1b[91m", "\x1b[92m", "\x1b[93m", "\x1b[94m", "\x1b[95m",
            "\x1b[96m", "\x1b[97m",
        ]
    );
}

#[test]
fn background_codes_run_from_40_and_from_100() {
    let codes: Vec<&str> = all().iter().map(|color| color.to_bg_ansi_code()).collect();
    assert_eq!(
        codes,
        vec![
            "\x1b[40m", "\x1b[41m", "\x1b[42m", "\x1b[43m", "\x1b[44m", "\x1b[45m", "\x1b[46m",
            "\x1b[47m", "\x1b[100m", "\x1b[101m", "\x1b[102m", "\x1b[103m", "\x1b[104m",
            "\x1b[105m", "\x1b[106m", "\x1b[107m",
        ]
    );
}

#[test]
fn background_code_is_ten_more_than_foreground() {
    for color in all() {
        let foreground = color.to_fg_ansi_code();
        let background = color.to_bg_ansi_code();
        let number = |code: &str| code[2..code.len() - 1].parse::<u32>().unwrap();
        assert_eq!(number(background), number(foreground) + 10);
    }
}
