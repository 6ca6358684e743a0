//! The classic sixteen-colour palette and its escape sequences.

use crate::text::decimal;
use vstd::prelude::*;

verus! {

/// The sixteen colours of the classic terminal palette.
#[derive(Clone, Copy, Debug, PartialEq, Eq, Structural)]
pub enum ConsoleColor {
    Black,
    Red,
    Green,
    Yellow,
    Blue,
    Magenta,
    Cyan,
    White,
    BrightBlack,
    BrightRed,
    BrightGreen,
    BrightYellow,
    BrightBlue,
    BrightMagenta,
    BrightCyan,
    BrightWhite,
}

/// The escape sequence that selects graphic rendition `number`: the escape
/// character, `[`, the number in decimal, and `m`.
pub open spec fn select_graphic_rendition(number: nat) -> Seq<char> {
    seq!['\x1b', '['] + decimal(number) + seq!['m']
}

impl ConsoleColor {
    /// The place of the colour among the eight hues, black first and white
    /// last.
    pub open spec fn hue(&self) -> nat {
        match self {
            ConsoleColor::Black | ConsoleColor::BrightBlack => 0,
            ConsoleColor::Red | ConsoleColor::BrightRed => 1,
            ConsoleColor::Green | ConsoleColor::BrightGreen => 2,
            ConsoleColor::Yellow | ConsoleColor::BrightYellow => 3,
            ConsoleColor::Blue | ConsoleColor::BrightBlue => 4,
            ConsoleColor::Magenta | ConsoleColor::BrightMagenta => 5,
            ConsoleColor::Cyan | ConsoleColor::BrightCyan => 6,
            ConsoleColor::White | ConsoleColor::BrightWhite => 7,
        }
    }

    /// Whether the colour is one of the eight bright ones.
    pub open spec fn is_bright(&self) -> bool {
        match self {
            ConsoleColor::BrightBlack
            | ConsoleColor::BrightRed
            | ConsoleColor::BrightGreen
            | ConsoleColor::BrightYellow
            | ConsoleColor::BrightBlue
            | ConsoleColor::BrightMagenta
            | ConsoleColor::BrightCyan
            | ConsoleColor::BrightWhite => true,
            _ => false,
        }
    }

    /// The number that selects the colour for text: 30 to 37, and 90 to 97
    /// for the bright colours.
    pub open spec fn foreground_number(&self) -> nat {
        if self.is_bright() {
            90 + self.hue()
        } else {
            30 + self.hue()
        }
    }

    /// The number that selects the colour for the background: ten more
    /// than for text.
    pub open spec fn background_number(&self) -> nat {
        self.foreground_number() + 10
    }

    /// The escape sequence that sets the colour of the text.
    pub fn to_fg_ansi_code(&self) -> (code: &'static str)
        ensures
            code@ == select_graphic_rendition(self.foreground_number()),
    {
        proof {
            reveal_with_fuel(decimal, 3);
        }
        let code = match self {
            ConsoleColor::Black => {
                proof {
                    reveal_strlit("\x1b[30m");
                }
                "\x1b[30m"
            },
            ConsoleColor::Red => {
                proof {
                    reveal_strlit("\x1b[31m");
                }
                "\x1b[31m"
            },
            ConsoleColor::Green => {
                proof {
                    reveal_strlit("\x1b[32m");
                }
                "\x1b[32m"
            },
            ConsoleColor::Yellow => {
                proof {
                    reveal_strlit("\x1b[33m");
                }
                "\x1b[33m"
            },
            ConsoleColor::Blue => {
                proof {
                    reveal_strlit("\x1b[34m");
                }
                "\x1b[34m"
            },
            ConsoleColor::Magenta => {
                proof {
                    reveal_strlit("\x1b[35m");
                }
                "\x1b[35m"
            },
            ConsoleColor::Cyan => {
                proof {
                    reveal_strlit("\x1b[36m");
                }
                "\x1b[36m"
            },
            ConsoleColor::White => {
                proof {
                    reveal_strlit("\x1b[37m");
                }
                "\x1b[37m"
            },
            ConsoleColor::BrightBlack => {
                proof {
                    reveal_strlit("\x1b[90m");
                }
                "\x1b[90m"
            },
            ConsoleColor::BrightRed => {
                proof {
                    reveal_strlit("\x1b[91m");
                }
                "\x1b[91m"
            },
            ConsoleColor::BrightGreen => {
                proof {
                    reveal_strlit("\x1b[92m");
                }
                "\x1b[92m"
            },
            ConsoleColor::BrightYellow => {
                proof {
                    reveal_strlit("\x1b[93m");
                }
                "\x1b[93m"
            },
            ConsoleColor::BrightBlue => {
                proof {
                    reveal_strlit("\x1b[94m");
                }
                "\x1b[94m"
            },
            ConsoleColor::BrightMagenta => {
                proof {
                    reveal_strlit("\x1b[95m");
                }
                "\x1b[95m"
            },
            ConsoleColor::BrightCyan => {
                proof {
                    reveal_strlit("\x1b[96m");
                }
                "\x1b[96m"
            },
            ConsoleColor::BrightWhite => {
                proof {
                    reveal_strlit("\x1b[97m");
                }
                "\x1b[97m"
            },
        };
        assert(code@ =~= select_graphic_rendition(self.foreground_number()));
        code
    }

    /// The escape sequence that sets the colour of the background.
    pub fn to_bg_ansi_code(&self) -> (code: &'static str)
        ensures
            code@ == select_graphic_rendition(self.background_number()),
    {
        proof {
            reveal_with_fuel(decimal, 4);
        }
        let code = match self {
            ConsoleColor::Black => {
                proof {
                    reveal_strlit("\x1b[40m");
                }
                "\x1b[40m"
            },
            ConsoleColor::Red => {
                proof {
                    reveal_strlit("\x1b[41m");
                }
                "\x1b[41m"
            },
            ConsoleColor::Green => {
                proof {
                    reveal_strlit("\x1b[42m");
                }
                "\x1b[42m"
            },
            ConsoleColor::Yellow => {
                proof {
                    reveal_strlit("\x1b[43m");
                }
                "\x1b[43m"
            },
            ConsoleColor::Blue => {
                proof {
                    reveal_strlit("\x1b[44m");
                }
                "\x1b[44m"
            },
            ConsoleColor::Magenta => {
                proof {
                    reveal_strlit("\x1b[45m");
                }
                "\x1b[45m"
            },
            ConsoleColor::Cyan => {
                proof {
                    reveal_strlit("\x1b[46m");
                }
                "\x1b[46m"
            },
            ConsoleColor::White => {
                proof {
                    reveal_strlit("\x1b[47m");
                }
                "\x1b[47m"
            },
            ConsoleColor::BrightBlack => {
                proof {
                    reveal_strlit("\x1b[100m");
                }
                "\x1b[100m"
            },
            ConsoleColor::BrightRed => {
                proof {
                    reveal_strlit("\x1b[101m");
                }
                "\x1b[101m"
            },
            ConsoleColor::BrightGreen => {
                proof {
                    reveal_strlit("\x1b[102m");
                }
                "\x1b[102m"
            },
            ConsoleColor::BrightYellow => {
                proof {
                    reveal_strlit("\x1b[103m");
                }
                "\x1b[103m"
            },
            ConsoleColor::BrightBlue => {
                proof {
                    reveal_strlit("\x1b[104m");
                }
                "\x1b[104m"
            },
            ConsoleColor::BrightMagenta => {
                proof {
                    reveal_strlit("\x1b[105m");
                }
                "\x1b[105m"
            },
            ConsoleColor::BrightCyan => {
                proof {
                    reveal_strlit("\x1b[106m");
                }
                "\x1b[106m"
            },
            ConsoleColor::BrightWhite => {
                proof {
                    reveal_strlit("\x1b[107m");
                }
                "\x1b[107m"
            },
        };
        assert(code@ =~= select_graphic_rendition(self.background_number()));
        code
    }
}

} // verus!
