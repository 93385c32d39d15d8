//! Colors of log markers and their ANSI escape sequences.

use vstd::prelude::*;

use crate::text::str_eq;

verus! {

/// The color of a log marker.
#[derive(Clone, Copy, PartialEq, Eq, Structural, Debug)]
pub enum LogMarkerColor {
    Black,
    Red,
    Green,
    Yellow,
    Blue,
    Magenta,
    Cyan,
    White,
    BrightBlack,
    BrightRed,
    BrightGreen,
    BrightYellow,
    BrightBlue,
    BrightMagenta,
    BrightCyan,
    BrightWhite,
}

pub const RESET: &'static str = "\x1B[0m";
pub const BLACK: &'static str = "\x1B[0;30m";
pub const RED: &'static str = "\x1B[0;31m";
pub const GREEN: &'static str = "\x1B[0;32m";
pub const YELLOW: &'static str = "\x1B[0;33m";
pub const BLUE: &'static str = "\x1B[0;34m";
pub const MAGENTA: &'static str = "\x1B[0;35m";
pub const CYAN: &'static str = "\x1B[0;36m";
pub const WHITE: &'static str = "\x1B[0;37m";
pub const BRIGHT_BLACK: &'static str = "\x1B[0;90m";
pub const BRIGHT_RED: &'static str = "\x1B[0;91m";
pub const BRIGHT_GREEN: &'static str = "\x1B[0;92m";
pub const BRIGHT_YELLOW: &'static str = "\x1B[0;93m";
pub const BRIGHT_BLUE: &'static str = "\x1B[0;94m";
pub const BRIGHT_MAGENTA: &'static str = "\x1B[0;95m";
pub const BRIGHT_CYAN: &'static str = "\x1B[0;96m";
pub const BRIGHT_WHITE: &'static str = "\x1B[0;97m";

/// The ANSI escape sequence that starts text in `color`.
pub open spec fn ansi_color(color: LogMarkerColor) -> Seq<char> {
    match color {
        LogMarkerColor::Black => BLACK@,
        LogMarkerColor::Red => RED@,
        LogMarkerColor::Green => GREEN@,
        LogMarkerColor::Yellow => YELLOW@,
        LogMarkerColor::Blue => BLUE@,
        LogMarkerColor::Magenta => MAGENTA@,
        LogMarkerColor::Cyan => CYAN@,
        LogMarkerColor::White => WHITE@,
        LogMarkerColor::BrightBlack => BRIGHT_BLACK@,
        LogMarkerColor::BrightRed => BRIGHT_RED@,
        LogMarkerColor::BrightGreen => BRIGHT_GREEN@,
        LogMarkerColor::BrightYellow => BRIGHT_YELLOW@,
        LogMarkerColor::BrightBlue => BRIGHT_BLUE@,
        LogMarkerColor::BrightMagenta => BRIGHT_MAGENTA@,
        LogMarkerColor::BrightCyan => BRIGHT_CYAN@,
        LogMarkerColor::BrightWhite => BRIGHT_WHITE@,
    }
}

/// Each color has its own ANSI escape sequence (black `ESC[0;30m`, red `ESC[0;31m`, ...,
/// yellow `ESC[0;33m`, ..., bright white `ESC[0;97m`), and no two colors share one.
pub proof fn lemma_color_table()
    ensures
        ansi_color(LogMarkerColor::Black) == "\x1B[0;30m"@,
        ansi_color(LogMarkerColor::Red) == "\x1B[0;31m"@,
        ansi_color(LogMarkerColor::Green) == "\x1B[0;32m"@,
        ansi_color(LogMarkerColor::Yellow) == "\x1B[0;33m"@,
        ansi_color(LogMarkerColor::Blue) == "\x1B[0;34m"@,
        ansi_color(LogMarkerColor::Magenta) == "\x1B[0;35m"@,
        ansi_color(LogMarkerColor::Cyan) == "\x1B[0;36m"@,
        ansi_color(LogMarkerColor::White) == "\x1B[0;37m"@,
        ansi_color(LogMarkerColor::BrightBlack) == "\x1B[0;90m"@,
        ansi_color(LogMarkerColor::BrightRed) == "\x1B[0;91m"@,
        ansi_color(LogMarkerColor::BrightGreen) == "\x1B[0;92m"@,
        ansi_color(LogMarkerColor::BrightYellow) == "\x1B[0;93m"@,
        ansi_color(LogMarkerColor::BrightBlue) == "\x1B[0;94m"@,
        ansi_color(LogMarkerColor::BrightMagenta) == "\x1B[0;95m"@,
        ansi_color(LogMarkerColor::BrightCyan) == "\x1B[0;96m"@,
        ansi_color(LogMarkerColor::BrightWhite) == "\x1B[0;97m"@,
        forall|a: LogMarkerColor, b: LogMarkerColor| #[trigger] ansi_color(a) == #[trigger] ansi_color(b) ==> a == b,
{
    reveal_strlit("\x1B[0;30m");
    reveal_strlit("\x1B[0;31m");
    reveal_strlit("\x1B[0;32m");
    reveal_strlit("\x1B[0;33m");
    reveal_strlit("\x1B[0;34m");
    reveal_strlit("\x1B[0;35m");
    reveal_strlit("\x1B[0;36m");
    reveal_strlit("\x1B[0;37m");
    reveal_strlit("\x1B[0;90m");
    reveal_strlit("\x1B[0;91m");
    reveal_strlit("\x1B[0;92m");
    reveal_strlit("\x1B[0;93m");
    reveal_strlit("\x1B[0;94m");
    reveal_strlit("\x1B[0;95m");
    reveal_strlit("\x1B[0;96m");
    reveal_strlit("\x1B[0;97m");
    assert("\x1B[0;31m"@ != "\x1B[0;30m"@) by { assert("\x1B[0;31m"@[5] != "\x1B[0;30m"@[5]); }
    assert("\x1B[0;32m"@ != "\x1B[0;30m"@) by { assert("\x1B[0;32m"@[5] != "\x1B[0;30m"@[5]); }
    assert("\x1B[0;32m"@ != "\x1B[0;31m"@) by { assert("\x1B[0;32m"@[5] != "\x1B[0;31m"@[5]); }
    assert("\x1B[0;33m"@ != "\x1B[0;30m"@) by { assert("\x1B[0;33m"@[5] != "\x1B[0;30m"@[5]); }
    assert("\x1B[0;33m"@ != "\x1B[0;31m"@) by { assert("\x1B[0;33m"@[5] != "\x1B[0;31m"@[5]); }
    assert("\x1B[0;33m"@ != "\x1B[0;32m"@) by { assert("\x1B[0;33m"@[5] != "\x1B[0;32m"@[5]); }
    assert("\x1B[0;34m"@ != "\x1B[0;30m"@) by { assert("\x1B[0;34m"@[5] != "\x1B[0;30m"@[5]); }
    assert("\x1B[0;34m"@ != "\x1B[0;31m"@) by { assert("\x1B[0;34m"@[5] != "\x1B[0;31m"@[5]); }
    assert("\x1B[0;34m"@ != "\x1B[0;32m"@) by { assert("\x1B[0;34m"@[5] != "\x1B[0;32m"@[5]); }
    assert("\x1B[0;34m"@ != "\x1B[0;33m"@) by { assert("\x1B[0;34m"@[5] != "\x1B[0;33m"@[5]); }
    assert("\x1B[0;35m"@ != "\x1B[0;30m"@) by { assert("\x1B[0;35m"@[5] != "\x1B[0;30m"@[5]); }
    assert("\x1B[0;35m"@ != "\x1B[0;31m"@) by { assert("\x1B[0;35m"@[5] != "\x1B[0;31m"@[5]); }
    assert("\x1B[0;35m"@ != "\x1B[0;32m"@) by { assert("\x1B[0;35m"@[5] != "\x1B[0;32m"@[5]); }
    assert("\x1B[0;35m"@ != "\x1B[0;33m"@) by { assert("\x1B[0;35m"@[5] != "\x1B[0;33m"@[5]); }
    assert("\x1B[0;35m"@ != "\x1B[0;34m"@) by { assert("\x1B[0;35m"@[5] != "\x1B[0;34m"@[5]); }
    assert("\x1B[0;36m"@ != "\x1B[0;30m"@) by { assert("\x1B[0;36m"@[5] != "\x1B[0;30m"@[5]); }
    assert("\x1B[0;36m"@ != "\x1B[0;31m"@) by { assert("\x1B[0;36m"@[5] != "\x1B[0;31m"@[5]); }
    assert("\x1B[0;36m"@ != "\x1B[0;32m"@) by { assert("\x1B[0;36m"@[5] != "\x1B[0;32m"@[5]); }
    assert("\x1B[0;36m"@ != "\x1B[0;33m"@) by { assert("\x1B[0;36m"@[5] != "\x1B[0;33m"@[5]); }
    assert("\x1B[0;36m"@ != "\x1B[0;34m"@) by { assert("\x1B[0;36m"@[5] != "\x1B[0;34m"@[5]); }
    assert("\x1B[0;36m"@ != "\x1B[0;35m"@) by { assert("\x1B[0;36m"@[5] != "\x1B[0;35m"@[5]); }
    assert("\x1B[0;37m"@ != "\x1B[0;30m"@) by { assert("\x1B[0;37m"@[5] != "\x1B[0;30m"@[5]); }
    assert("\x1B[0;37m"@ != "\x1B[0;31m"@) by { assert("\x1B[0;37m"@[5] != "\x1B[0;31m"@[5]); }
    assert("\x1B[0;37m"@ != "\x1B[0;32m"@) by { assert("\x1B[0;37m"@[5] != "\x1B[0;32m"@[5]); }
    assert("\x1B[0;37m"@ != "\x1B[0;33m"@) by { assert("\x1B[0;37m"@[5] != "\x1B[0;33m"@[5]); }
    assert("\x1B[0;37m"@ != "\x1B[0;34m"@) by { assert("\x1B[0;37m"@[5] != "\x1B[0;34m"@[5]); }
    assert("\x1B[0;37m"@ != "\x1B[0;35m"@) by { assert("\x1B[0;37m"@[5] != "\x1B[0;35m"@[5]); }
    assert("\x1B[0;37m"@ != "\x1B[0;36m"@) by { assert("\x1B[0;37m"@[5] != "\x1B[0;36m"@[5]); }
    assert("\x1B[0;90m"@ != "\x1B[0;30m"@) by { assert("\x1B[0;90m"@[4] != "\x1B[0;30m"@[4]); }
    assert("\x1B[0;90m"@ != "\x1B[0;31m"@) by { assert("\x1B[0;90m"@[4] != "\x1B[0;31m"@[4]); }
    assert("\x1B[0;90m"@ != "\x1B[0;32m"@) by { assert("\x1B[0;90m"@[4] != "\x1B[0;32m"@[4]); }
    assert("\x1B[0;90m"@ != "\x1B[0;33m"@) by { assert("\x1B[0;90m"@[4] != "\x1B[0;33m"@[4]); }
    assert("\x1B[0;90m"@ != "\x1B[0;34m"@) by { assert("\x1B[0;90m"@[4] != "\x1B[0;34m"@[4]); }
    assert("\x1B[0;90m"@ != "\x1B[0;35m"@) by { assert("\x1B[0;90m"@[4] != "\x1B[0;35m"@[4]); }
    assert("\x1B[0;90m"@ != "\x1B[0;36m"@) by { assert("\x1B[0;90m"@[4] != "\x1B[0;36m"@[4]); }
    assert("\x1B[0;90m"@ != "\x1B[0;37m"@) by { assert("\x1B[0;90m"@[4] != "\x1B[0;37m"@[4]); }
    assert("\x1B[0;91m"@ != "\x1B[0;30m"@) by { assert("\x1B[0;91m"@[4] != "\x1B[0;30m"@[4]); }
    assert("\x1B[0;91m"@ != "\x1B[0;31m"@) by { assert("\x1B[0;91m"@[4] != "\x1B[0;31m"@[4]); }
    assert("\x1B[0;91m"@ != "\x1B[0;32m"@) by { assert("\x1B[0;91m"@[4] != "\x1B[0;32m"@[4]); }
    assert("\x1B[0;91m"@ != "\x1B[0;33m"@) by { assert("\x1B[0;91m"@[4] != "\x1B[0;33m"@[4]); }
    assert("\x1B[0;91m"@ != "\x1B[0;34m"@) by { assert("\x1B[0;91m"@[4] != "\x1B[0;34m"@[4]); }
    assert("\x1B[0;91m"@ != "\x1B[0;35m"@) by { assert("\x1B[0;91m"@[4] != "\x1B[0;35m"@[4]); }
    assert("\x1B[0;91m"@ != "\x1B[0;36m"@) by { assert("\x1B[0;91m"@[4] != "\x1B[0;36m"@[4]); }
    assert("\x1B[0;91m"@ != "\x1B[0;37m"@) by { assert("\x1B[0;91m"@[4] != "\x1B[0;37m"@[4]); }
    assert("\x1B[0;91m"@ != "\x1B[0;90m"@) by { assert("\x1B[0;91m"@[5] != "\x1B[0;90m"@[5]); }
    assert("\x1B[0;92m"@ != "\x1B[0;30m"@) by { assert("\x1B[0;92m"@[4] != "\x1B[0;30m"@[4]); }
    assert("\x1B[0;92m"@ != "\x1B[0;31m"@) by { assert("\x1B[0;92m"@[4] != "\x1B[0;31m"@[4]); }
    assert("\x1B[0;92m"@ != "\x1B[0;32m"@) by { assert("\x1B[0;92m"@[4] != "\x1B[0;32m"@[4]); }
    assert("\x1B[0;92m"@ != "\x1B[0;33m"@) by { assert("\x1B[0;92m"@[4] != "\x1B[0;33m"@[4]); }
    assert("\x1B[0;92m"@ != "\x1B[0;34m"@) by { assert("\x1B[0;92m"@[4] != "\x1B[0;34m"@[4]); }
    assert("\x1B[0;92m"@ != "\x1B[0;35m"@) by { assert("\x1B[0;92m"@[4] != "\x1B[0;35m"@[4]); }
    assert("\x1B[0;92m"@ != "\x1B[0;36m"@) by { assert("\x1B[0;92m"@[4] != "\x1B[0;36m"@[4]); }
    assert("\x1B[0;92m"@ != "\x1B[0;37m"@) by { assert("\x1B[0;92m"@[4] != "\x1B[0;37m"@[4]); }
    assert("\x1B[0;92m"@ != "\x1B[0;90m"@) by { assert("\x1B[0;92m"@[5] != "\x1B[0;90m"@[5]); }
    assert("\x1B[0;92m"@ != "\x1B[0;91m"@) by { assert("\x1B[0;92m"@[5] != "\x1B[0;91m"@[5]); }
    assert("\x1B[0;93m"@ != "\x1B[0;30m"@) by { assert("\x1B[0;93m"@[4] != "\x1B[0;30m"@[4]); }
    assert("\x1B[0;93m"@ != "\x1B[0;31m"@) by { assert("\x1B[0;93m"@[4] != "\x1B[0;31m"@[4]); }
    assert("\x1B[0;93m"@ != "\x1B[0;32m"@) by { assert("\x1B[0;93m"@[4] != "\x1B[0;32m"@[4]); }
    assert("\x1B[0;93m"@ != "\x1B[0;33m"@) by { assert("\x1B[0;93m"@[4] != "\x1B[0;33m"@[4]); }
    assert("\x1B[0;93m"@ != "\x1B[0;34m"@) by { assert("\x1B[0;93m"@[4] != "\x1B[0;34m"@[4]); }
    assert("\x1B[0;93m"@ != "\x1B[0;35m"@) by { assert("\x1B[0;93m"@[4] != "\x1B[0;35m"@[4]); }
    assert("\x1B[0;93m"@ != "\x1B[0;36m"@) by { assert("\x1B[0;93m"@[4] != "\x1B[0;36m"@[4]); }
    assert("\x1B[0;93m"@ != "\x1B[0;37m"@) by { assert("\x1B[0;93m"@[4] != "\x1B[0;37m"@[4]); }
    assert("\x1B[0;93m"@ != "\x1B[0;90m"@) by { assert("\x1B[0;93m"@[5] != "\x1B[0;90m"@[5]); }
    assert("\x1B[0;93m"@ != "\x1B[0;91m"@) by { assert("\x1B[0;93m"@[5] != "\x1B[0;91m"@[5]); }
    assert("\x1B[0;93m"@ != "\x1B[0;92m"@) by { assert("\x1B[0;93m"@[5] != "\x1B[0;92m"@[5]); }
    assert("\x1B[0;94m"@ != "\x1B[0;30m"@) by { assert("\x1B[0;94m"@[4] != "\x1B[0;30m"@[4]); }
    assert("\x1B[0;94m"@ != "\x1B[0;31m"@) by { assert("\x1B[0;94m"@[4] != "\x1B[0;31m"@[4]); }
    assert("\x1B[0;94m"@ != "\x1B[0;32m"@) by { assert("\x1B[0;94m"@[4] != "\x1B[0;32m"@[4]); }
    assert("\x1B[0;94m"@ != "\x1B[0;33m"@) by { assert("\x1B[0;94m"@[4] != "\x1B[0;33m"@[4]); }
    assert("\x1B[0;94m"@ != "\x1B[0;34m"@) by { assert("\x1B[0;94m"@[4] != "\x1B[0;34m"@[4]); }
    assert("\x1B[0;94m"@ != "\x1B[0;35m"@) by { assert("\x1B[0;94m"@[4] != "\x1B[0;35m"@[4]); }
    assert("\x1B[0;94m"@ != "\x1B[0;36m"@) by { assert("\x1B[0;94m"@[4] != "\x1B[0;36m"@[4]); }
    assert("\x1B[0;94m"@ != "\x1B[0;37m"@) by { assert("\x1B[0;94m"@[4] != "\x1B[0;37m"@[4]); }
    assert("\x1B[0;94m"@ != "\x1B[0;90m"@) by { assert("\x1B[0;94m"@[5] != "\x1B[0;90m"@[5]); }
    assert("\x1B[0;94m"@ != "\x1B[0;91m"@) by { assert("\x1B[0;94m"@[5] != "\x1B[0;91m"@[5]); }
    assert("\x1B[0;94m"@ != "\x1B[0;92m"@) by { assert("\x1B[0;94m"@[5] != "\x1B[0;92m"@[5]); }
    assert("\x1B[0;94m"@ != "\x1B[0;93m"@) by { assert("\x1B[0;94m"@[5] != "\x1B[0;93m"@[5]); }
    assert("\x1B[0;95m"@ != "\x1B[0;30m"@) by { assert("\x1B[0;95m"@[4] != "\x1B[0;30m"@[4]); }
    assert("\x1B[0;95m"@ != "\x1B[0;31m"@) by { assert("\x1B[0;95m"@[4] != "\x1B[0;31m"@[4]); }
    assert("\x1B[0;95m"@ != "\x1B[0;32m"@) by { assert("\x1B[0;95m"@[4] != "\x1B[0;32m"@[4]); }
    assert("\x1B[0;95m"@ != "\x1B[0;33m"@) by { assert("\x1B[0;95m"@[4] != "\x1B[0;33m"@[4]); }
    assert("\x1B[0;95m"@ != "\x1B[0;34m"@) by { assert("\x1B[0;95m"@[4] != "\x1B[0;34m"@[4]); }
    assert("\x1B[0;95m"@ != "\x1B[0;35m"@) by { assert("\x1B[0;95m"@[4] != "\x1B[0;35m"@[4]); }
    assert("\x1B[0;95m"@ != "\x1B[0;36m"@) by { assert("\x1B[0;95m"@[4] != "\x1B[0;36m"@[4]); }
    assert("\x1B[0;95m"@ != "\x1B[0;37m"@) by { assert("\x1B[0;95m"@[4] != "\x1B[0;37m"@[4]); }
    assert("\x1B[0;95m"@ != "\x1B[0;90m"@) by { assert("\x1B[0;95m"@[5] != "\x1B[0;90m"@[5]); }
    assert("\x1B[0;95m"@ != "\x1B[0;91m"@) by { assert("\x1B[0;95m"@[5] != "\x1B[0;91m"@[5]); }
    assert("\x1B[0;95m"@ != "\x1B[0;92m"@) by { assert("\x1B[0;95m"@[5] != "\x1B[0;92m"@[5]); }
    assert("\x1B[0;95m"@ != "\x1B[0;93m"@) by { assert("\x1B[0;95m"@[5] != "\x1B[0;93m"@[5]); }
    assert("\x1B[0;95m"@ != "\x1B[0;94m"@) by { assert("\x1B[0;95m"@[5] != "\x1B[0;94m"@[5]); }
    assert("\x1B[0;96m"@ != "\x1B[0;30m"@) by { assert("\x1B[0;96m"@[4] != "\x1B[0;30m"@[4]); }
    assert("\x1B[0;96m"@ != "\x1B[0;31m"@) by { assert("\x1B[0;96m"@[4] != "\x1B[0;31m"@[4]); }
    assert("\x1B[0;96m"@ != "\x1B[0;32m"@) by { assert("\x1B[0;96m"@[4] != "\x1B[0;32m"@[4]); }
    assert("\x1B[0;96m"@ != "\x1B[0;33m"@) by { assert("\x1B[0;96m"@[4] != "\x1B[0;33m"@[4]); }
    assert("\x1B[0;96m"@ != "\x1B[0;34m"@) by { assert("\x1B[0;96m"@[4] != "\x1B[0;34m"@[4]); }
    assert("\x1B[0;96m"@ != "\x1B[0;35m"@) by { assert("\x1B[0;96m"@[4] != "\x1B[0;35m"@[4]); }
    assert("\x1B[0;96m"@ != "\x1B[0;36m"@) by { assert("\x1B[0;96m"@[4] != "\x1B[0;36m"@[4]); }
    assert("\x1B[0;96m"@ != "\x1B[0;37m"@) by { assert("\x1B[0;96m"@[4] != "\x1B[0;37m"@[4]); }
    assert("\x1B[0;96m"@ != "\x1B[0;90m"@) by { assert("\x1B[0;96m"@[5] != "\x1B[0;90m"@[5]); }
    assert("\x1B[0;96m"@ != "\x1B[0;91m"@) by { assert("\x1B[0;96m"@[5] != "\x1B[0;91m"@[5]); }
    assert("\x1B[0;96m"@ != "\x1B[0;92m"@) by { assert("\x1B[0;96m"@[5] != "\x1B[0;92m"@[5]); }
    assert("\x1B[0;96m"@ != "\x1B[0;93m"@) by { assert("\x1B[0;96m"@[5] != "\x1B[0;93m"@[5]); }
    assert("\x1B[0;96m"@ != "\x1B[0;94m"@) by { assert("\x1B[0;96m"@[5] != "\x1B[0;94m"@[5]); }
    assert("\x1B[0;96m"@ != "\x1B[0;95m"@) by { assert("\x1B[0;96m"@[5] != "\x1B[0;95m"@[5]); }
    assert("\x1B[0;97m"@ != "\x1B[0;30m"@) by { assert("\x1B[0;97m"@[4] != "\x1B[0;30m"@[4]); }
    assert("\x1B[0;97m"@ != "\x1B[0;31m"@) by { assert("\x1B[0;97m"@[4] != "\x1B[0;31m"@[4]); }
    assert("\x1B[0;97m"@ != "\x1B[0;32m"@) by { assert("\x1B[0;97m"@[4] != "\x1B[0;32m"@[4]); }
    assert("\x1B[0;97m"@ != "\x1B[0;33m"@) by { assert("\x1B[0;97m"@[4] != "\x1B[0;33m"@[4]); }
    assert("\x1B[0;97m"@ != "\x1B[0;34m"@) by { assert("\x1B[0;97m"@[4] != "\x1B[0;34m"@[4]); }
    assert("\x1B[0;97m"@ != "\x1B[0;35m"@) by { assert("\x1B[0;97m"@[4] != "\x1B[0;35m"@[4]); }
    assert("\x1B[0;97m"@ != "\x1B[0;36m"@) by { assert("\x1B[0;97m"@[4] != "\x1B[0;36m"@[4]); }
    assert("\x1B[0;97m"@ != "\x1B[0;37m"@) by { assert("\x1B[0;97m"@[4] != "\x1B[0;37m"@[4]); }
    assert("\x1B[0;97m"@ != "\x1B[0;90m"@) by { assert("\x1B[0;97m"@[5] != "\x1B[0;90m"@[5]); }
    assert("\x1B[0;97m"@ != "\x1B[0;91m"@) by { assert("\x1B[0;97m"@[5] != "\x1B[0;91m"@[5]); }
    assert("\x1B[0;97m"@ != "\x1B[0;92m"@) by { assert("\x1B[0;97m"@[5] != "\x1B[0;92m"@[5]); }
    assert("\x1B[0;97m"@ != "\x1B[0;93m"@) by { assert("\x1B[0;97m"@[5] != "\x1B[0;93m"@[5]); }
    assert("\x1B[0;97m"@ != "\x1B[0;94m"@) by { assert("\x1B[0;97m"@[5] != "\x1B[0;94m"@[5]); }
    assert("\x1B[0;97m"@ != "\x1B[0;95m"@) by { assert("\x1B[0;97m"@[5] != "\x1B[0;95m"@[5]); }
    assert("\x1B[0;97m"@ != "\x1B[0;96m"@) by { assert("\x1B[0;97m"@[5] != "\x1B[0;96m"@[5]); }
    assert forall|a: LogMarkerColor, b: LogMarkerColor| #[trigger] ansi_color(a) == #[trigger] ansi_color(b) implies a == b by {
    }
}

/// The ANSI escape sequence that starts text in `color`.
pub fn log_marker_ansi_color(color: LogMarkerColor) -> (s: &'static str)
    ensures
        s@ == ansi_color(color),
        color == LogMarkerColor::Black ==> s@ == "\x1B[0;30m"@,
        color == LogMarkerColor::Red ==> s@ == "\x1B[0;31m"@,
        color == LogMarkerColor::Green ==> s@ == "\x1B[0;32m"@,
        color == LogMarkerColor::Yellow ==> s@ == "\x1B[0;33m"@,
        color == LogMarkerColor::Blue ==> s@ == "\x1B[0;34m"@,
        color == LogMarkerColor::Magenta ==> s@ == "\x1B[0;35m"@,
        color == LogMarkerColor::Cyan ==> s@ == "\x1B[0;36m"@,
        color == LogMarkerColor::White ==> s@ == "\x1B[0;37m"@,
        color == LogMarkerColor::BrightBlack ==> s@ == "\x1B[0;90m"@,
        color == LogMarkerColor::BrightRed ==> s@ == "\x1B[0;91m"@,
        color == LogMarkerColor::BrightGreen ==> s@ == "\x1B[0;92m"@,
        color == LogMarkerColor::BrightYellow ==> s@ == "\x1B[0;93m"@,
        color == LogMarkerColor::BrightBlue ==> s@ == "\x1B[0;94m"@,
        color == LogMarkerColor::BrightMagenta ==> s@ == "\x1B[0;95m"@,
        color == LogMarkerColor::BrightCyan ==> s@ == "\x1B[0;96m"@,
        color == LogMarkerColor::BrightWhite ==> s@ == "\x1B[0;97m"@,
{
    proof {
        lemma_color_table();
    }
    match color {
        LogMarkerColor::Black => BLACK,
        LogMarkerColor::Red => RED,
        LogMarkerColor::Green => GREEN,
        LogMarkerColor::Yellow => YELLOW,
        LogMarkerColor::Blue => BLUE,
        LogMarkerColor::Magenta => MAGENTA,
        LogMarkerColor::Cyan => CYAN,
        LogMarkerColor::White => WHITE,
        LogMarkerColor::BrightBlack => BRIGHT_BLACK,
        LogMarkerColor::BrightRed => BRIGHT_RED,
        LogMarkerColor::BrightGreen => BRIGHT_GREEN,
        LogMarkerColor::BrightYellow => BRIGHT_YELLOW,
        LogMarkerColor::BrightBlue => BRIGHT_BLUE,
        LogMarkerColor::BrightMagenta => BRIGHT_MAGENTA,
        LogMarkerColor::BrightCyan => BRIGHT_CYAN,
        LogMarkerColor::BrightWhite => BRIGHT_WHITE,
    }
}

/// The color that a name stands for: the snake-case name (`"bright_red"`) or the
/// variant's name (`"BrightRed"`) of a color.
pub open spec fn color_named(s: Seq<char>) -> Option<LogMarkerColor> {
    if s == "black"@ || s == "Black"@ {
        Some(LogMarkerColor::Black)
    } else if s == "red"@ || s == "Red"@ {
        Some(LogMarkerColor::Red)
    } else if s == "green"@ || s == "Green"@ {
        Some(LogMarkerColor::Green)
    } else if s == "yellow"@ || s == "Yellow"@ {
        Some(LogMarkerColor::Yellow)
    } else if s == "blue"@ || s == "Blue"@ {
        Some(LogMarkerColor::Blue)
    } else if s == "magenta"@ || s == "Magenta"@ {
        Some(LogMarkerColor::Magenta)
    } else if s == "cyan"@ || s == "Cyan"@ {
        Some(LogMarkerColor::Cyan)
    } else if s == "white"@ || s == "White"@ {
        Some(LogMarkerColor::White)
    } else if s == "bright_black"@ || s == "BrightBlack"@ {
        Some(LogMarkerColor::BrightBlack)
    } else if s == "bright_red"@ || s == "BrightRed"@ {
        Some(LogMarkerColor::BrightRed)
    } else if s == "bright_green"@ || s == "BrightGreen"@ {
        Some(LogMarkerColor::BrightGreen)
    } else if s == "bright_yellow"@ || s == "BrightYellow"@ {
        Some(LogMarkerColor::BrightYellow)
    } else if s == "bright_blue"@ || s == "BrightBlue"@ {
        Some(LogMarkerColor::BrightBlue)
    } else if s == "bright_magenta"@ || s == "BrightMagenta"@ {
        Some(LogMarkerColor::BrightMagenta)
    } else if s == "bright_cyan"@ || s == "BrightCyan"@ {
        Some(LogMarkerColor::BrightCyan)
    } else if s == "bright_white"@ || s == "BrightWhite"@ {
        Some(LogMarkerColor::BrightWhite)
    } else {
        None
    }
}

/// Each color is named by its snake-case name (`bright_red`) and by its variant's name
/// (`BrightRed`), and by no other name: `purple`, for one, names no color.
pub proof fn lemma_color_names()
    ensures
        color_named("black"@) == Some(LogMarkerColor::Black),
        color_named("Black"@) == Some(LogMarkerColor::Black),
        color_named("red"@) == Some(LogMarkerColor::Red),
        color_named("Red"@) == Some(LogMarkerColor::Red),
        color_named("green"@) == Some(LogMarkerColor::Green),
        color_named("Green"@) == Some(LogMarkerColor::Green),
        color_named("yellow"@) == Some(LogMarkerColor::Yellow),
        color_named("Yellow"@) == Some(LogMarkerColor::Yellow),
        color_named("blue"@) == Some(LogMarkerColor::Blue),
        color_named("Blue"@) == Some(LogMarkerColor::Blue),
        color_named("magenta"@) == Some(LogMarkerColor::Magenta),
        color_named("Magenta"@) == Some(LogMarkerColor::Magenta),
        color_named("cyan"@) == Some(LogMarkerColor::Cyan),
        color_named("Cyan"@) == Some(LogMarkerColor::Cyan),
        color_named("white"@) == Some(LogMarkerColor::White),
        color_named("White"@) == Some(LogMarkerColor::White),
        color_named("bright_black"@) == Some(LogMarkerColor::BrightBlack),
        color_named("BrightBlack"@) == Some(LogMarkerColor::BrightBlack),
        color_named("bright_red"@) == Some(LogMarkerColor::BrightRed),
        color_named("BrightRed"@) == Some(LogMarkerColor::BrightRed),
        color_named("bright_green"@) == Some(LogMarkerColor::BrightGreen),
        color_named("BrightGreen"@) == Some(LogMarkerColor::BrightGreen),
        color_named("bright_yellow"@) == Some(LogMarkerColor::BrightYellow),
        color_named("BrightYellow"@) == Some(LogMarkerColor::BrightYellow),
        color_named("bright_blue"@) == Some(LogMarkerColor::BrightBlue),
        color_named("BrightBlue"@) == Some(LogMarkerColor::BrightBlue),
        color_named("bright_magenta"@) == Some(LogMarkerColor::BrightMagenta),
        color_named("BrightMagenta"@) == Some(LogMarkerColor::BrightMagenta),
        color_named("bright_cyan"@) == Some(LogMarkerColor::BrightCyan),
        color_named("BrightCyan"@) == Some(LogMarkerColor::BrightCyan),
        color_named("bright_white"@) == Some(LogMarkerColor::BrightWhite),
        color_named("BrightWhite"@) == Some(LogMarkerColor::BrightWhite),
        color_named("purple"@) is None,
{
    reveal_strlit("black");
    reveal_strlit("Black");
    reveal_strlit("red");
    reveal_strlit("Red");
    reveal_strlit("green");
    reveal_strlit("Green");
    reveal_strlit("yellow");
    reveal_strlit("Yellow");
    reveal_strlit("blue");
    reveal_strlit("Blue");
    reveal_strlit("magenta");
    reveal_strlit("Magenta");
    reveal_strlit("cyan");
    reveal_strlit("Cyan");
    reveal_strlit("white");
    reveal_strlit("White");
    reveal_strlit("bright_black");
    reveal_strlit("BrightBlack");
    reveal_strlit("bright_red");
    reveal_strlit("BrightRed");
    reveal_strlit("bright_green");
    reveal_strlit("BrightGreen");
    reveal_strlit("bright_yellow");
    reveal_strlit("BrightYellow");
    reveal_strlit("bright_blue");
    reveal_strlit("BrightBlue");
    reveal_strlit("bright_magenta");
    reveal_strlit("BrightMagenta");
    reveal_strlit("bright_cyan");
    reveal_strlit("BrightCyan");
    reveal_strlit("bright_white");
    reveal_strlit("BrightWhite");
    reveal_strlit("purple");
    assert("Black"@ != "black"@) by { assert("Black"@[0] != "black"@[0]); }
    assert("red"@ != "black"@) by { assert("red"@.len() != "black"@.len()); }
    assert("red"@ != "Black"@) by { assert("red"@.len() != "Black"@.len()); }
    assert("Red"@ != "black"@) by { assert("Red"@.len() != "black"@.len()); }
    assert("Red"@ != "Black"@) by { assert("Red"@.len() != "Black"@.len()); }
    assert("Red"@ != "red"@) by { assert("Red"@[0] != "red"@[0]); }
    assert("green"@ != "black"@) by { assert("green"@[0] != "black"@[0]); }
    assert("green"@ != "Black"@) by { assert("green"@[0] != "Black"@[0]); }
    assert("green"@ != "red"@) by { assert("green"@.len() != "red"@.len()); }
    assert("green"@ != "Red"@) by { assert("green"@.len() != "Red"@.len()); }
    assert("Green"@ != "black"@) by { assert("Green"@[0] != "black"@[0]); }
    assert("Green"@ != "Black"@) by { assert("Green"@[0] != "Black"@[0]); }
    assert("Green"@ != "red"@) by { assert("Green"@.len() != "red"@.len()); }
    assert("Green"@ != "Red"@) by { assert("Green"@.len() != "Red"@.len()); }
    assert("Green"@ != "green"@) by { assert("Green"@[0] != "green"@[0]); }
    assert("yellow"@ != "black"@) by { assert("yellow"@.len() != "black"@.len()); }
    assert("yellow"@ != "Black"@) by { assert("yellow"@.len() != "Black"@.len()); }
    assert("yellow"@ != "red"@) by { assert("yellow"@.len() != "red"@.len()); }
    assert("yellow"@ != "Red"@) by { assert("yellow"@.len() != "Red"@.len()); }
    assert("yellow"@ != "green"@) by { assert("yellow"@.len() != "green"@.len()); }
    assert("yellow"@ != "Green"@) by { assert("yellow"@.len() != "Green"@.len()); }
    assert("Yellow"@ != "black"@) by { assert("Yellow"@.len() != "black"@.len()); }
    assert("Yellow"@ != "Black"@) by { assert("Yellow"@.len() != "Black"@.len()); }
    assert("Yellow"@ != "red"@) by { assert("Yellow"@.len() != "red"@.len()); }
    assert("Yellow"@ != "Red"@) by { assert("Yellow"@.len() != "Red"@.len()); }
    assert("Yellow"@ != "green"@) by { assert("Yellow"@.len() != "green"@.len()); }
    assert("Yellow"@ != "Green"@) by { assert("Yellow"@.len() != "Green"@.len()); }
    assert("Yellow"@ != "yellow"@) by { assert("Yellow"@[0] != "yellow"@[0]); }
    assert("blue"@ != "black"@) by { assert("blue"@.len() != "black"@.len()); }
    assert("blue"@ != "Black"@) by { assert("blue"@.len() != "Black"@.len()); }
    assert("blue"@ != "red"@) by { assert("blue"@.len() != "red"@.len()); }
    assert("blue"@ != "Red"@) by { assert("blue"@.len() != "Red"@.len()); }
    assert("blue"@ != "green"@) by { assert("blue"@.len() != "green"@.len()); }
    assert("blue"@ != "Green"@) by { assert("blue"@.len() != "Green"@.len()); }
    assert("blue"@ != "yellow"@) by { assert("blue"@.len() != "yellow"@.len()); }
    assert("blue"@ != "Yellow"@) by { assert("blue"@.len() != "Yellow"@.len()); }
    assert("Blue"@ != "black"@) by { assert("Blue"@.len() != "black"@.len()); }
    assert("Blue"@ != "Black"@) by { assert("Blue"@.len() != "Black"@.len()); }
    assert("Blue"@ != "red"@) by { assert("Blue"@.len() != "red"@.len()); }
    assert("Blue"@ != "Red"@) by { assert("Blue"@.len() != "Red"@.len()); }
    assert("Blue"@ != "green"@) by { assert("Blue"@.len() != "green"@.len()); }
    assert("Blue"@ != "Green"@) by { assert("Blue"@.len() != "Green"@.len()); }
    assert("Blue"@ != "yellow"@) by { assert("Blue"@.len() != "yellow"@.len()); }
    assert("Blue"@ != "Yellow"@) by { assert("Blue"@.len() != "Yellow"@.len()); }
    assert("Blue"@ != "blue"@) by { assert("Blue"@[0] != "blue"@[0]); }
    assert("magenta"@ != "black"@) by { assert("magenta"@.len() != "black"@.len()); }
    assert("magenta"@ != "Black"@) by { assert("magenta"@.len() != "Black"@.len()); }
    assert("magenta"@ != "red"@) by { assert("magenta"@.len() != "red"@.len()); }
    assert("magenta"@ != "Red"@) by { assert("magenta"@.len() != "Red"@.len()); }
    assert("magenta"@ != "green"@) by { assert("magenta"@.len() != "green"@.len()); }
    assert("magenta"@ != "Green"@) by { assert("magenta"@.len() != "Green"@.len()); }
    assert("magenta"@ != "yellow"@) by { assert("magenta"@.len() != "yellow"@.len()); }
    assert("magenta"@ != "Yellow"@) by { assert("magenta"@.len() != "Yellow"@.len()); }
    assert("magenta"@ != "blue"@) by { assert("magenta"@.len() != "blue"@.len()); }
    assert("magenta"@ != "Blue"@) by { assert("magenta"@.len() != "Blue"@.len()); }
    assert("Magenta"@ != "black"@) by { assert("Magenta"@.len() != "black"@.len()); }
    assert("Magenta"@ != "Black"@) by { assert("Magenta"@.len() != "Black"@.len()); }
    assert("Magenta"@ != "red"@) by { assert("Magenta"@.len() != "red"@.len()); }
    assert("Magenta"@ != "Red"@) by { assert("Magenta"@.len() != "Red"@.len()); }
    assert("Magenta"@ != "green"@) by { assert("Magenta"@.len() != "green"@.len()); }
    assert("Magenta"@ != "Green"@) by { assert("Magenta"@.len() != "Green"@.len()); }
    assert("Magenta"@ != "yellow"@) by { assert("Magenta"@.len() != "yellow"@.len()); }
    assert("Magenta"@ != "Yellow"@) by { assert("Magenta"@.len() != "Yellow"@.len()); }
    assert("Magenta"@ != "blue"@) by { assert("Magenta"@.len() != "blue"@.len()); }
    assert("Magenta"@ != "Blue"@) by { assert("Magenta"@.len() != "Blue"@.len()); }
    assert("Magenta"@ != "magenta"@) by { assert("Magenta"@[0] != "magenta"@[0]); }
    assert("cyan"@ != "black"@) by { assert("cyan"@.len() != "black"@.len()); }
    assert("cyan"@ != "Black"@) by { assert("cyan"@.len() != "Black"@.len()); }
    assert("cyan"@ != "red"@) by { assert("cyan"@.len() != "red"@.len()); }
    assert("cyan"@ != "Red"@) by { assert("cyan"@.len() != "Red"@.len()); }
    assert("cyan"@ != "green"@) by { assert("cyan"@.len() != "green"@.len()); }
    assert("cyan"@ != "Green"@) by { assert("cyan"@.len() != "Green"@.len()); }
    assert("cyan"@ != "yellow"@) by { assert("cyan"@.len() != "yellow"@.len()); }
    assert("cyan"@ != "Yellow"@) by { assert("cyan"@.len() != "Yellow"@.len()); }
    assert("cyan"@ != "blue"@) by { assert("cyan"@[0] != "blue"@[0]); }
    assert("cyan"@ != "Blue"@) by { assert("cyan"@[0] != "Blue"@[0]); }
    assert("cyan"@ != "magenta"@) by { assert("cyan"@.len() != "magenta"@.len()); }
    assert("cyan"@ != "Magenta"@) by { assert("cyan"@.len() != "Magenta"@.len()); }
    assert("Cyan"@ != "black"@) by { assert("Cyan"@.len() != "black"@.len()); }
    assert("Cyan"@ != "Black"@) by { assert("Cyan"@.len() != "Black"@.len()); }
    assert("Cyan"@ != "red"@) by { assert("Cyan"@.len() != "red"@.len()); }
    assert("Cyan"@ != "Red"@) by { assert("Cyan"@.len() != "Red"@.len()); }
    assert("Cyan"@ != "green"@) by { assert("Cyan"@.len() != "green"@.len()); }
    assert("Cyan"@ != "Green"@) by { assert("Cyan"@.len() != "Green"@.len()); }
    assert("Cyan"@ != "yellow"@) by { assert("Cyan"@.len() != "yellow"@.len()); }
    assert("Cyan"@ != "Yellow"@) by { assert("Cyan"@.len() != "Yellow"@.len()); }
    assert("Cyan"@ != "blue"@) by { assert("Cyan"@[0] != "blue"@[0]); }
    assert("Cyan"@ != "Blue"@) by { assert("Cyan"@[0] != "Blue"@[0]); }
    assert("Cyan"@ != "magenta"@) by { assert("Cyan"@.len() != "magenta"@.len()); }
    assert("Cyan"@ != "Magenta"@) by { assert("Cyan"@.len() != "Magenta"@.len()); }
    assert("Cyan"@ != "cyan"@) by { assert("Cyan"@[0] != "cyan"@[0]); }
    assert("white"@ != "black"@) by { assert("white"@[0] != "black"@[0]); }
    assert("white"@ != "Black"@) by { assert("white"@[0] != "Black"@[0]); }
    assert("white"@ != "red"@) by { assert("white"@.len() != "red"@.len()); }
    assert("white"@ != "Red"@) by { assert("white"@.len() != "Red"@.len()); }
    assert("white"@ != "green"@) by { assert("white"@[0] != "green"@[0]); }
    assert("white"@ != "Green"@) by { assert("white"@[0] != "Green"@[0]); }
    assert("white"@ != "yellow"@) by { assert("white"@.len() != "yellow"@.len()); }
    assert("white"@ != "Yellow"@) by { assert("white"@.len() != "Yellow"@.len()); }
    assert("white"@ != "blue"@) by { assert("white"@.len() != "blue"@.len()); }
    assert("white"@ != "Blue"@) by { assert("white"@.len() != "Blue"@.len()); }
    assert("white"@ != "magenta"@) by { assert("white"@.len() != "magenta"@.len()); }
    assert("white"@ != "Magenta"@) by { assert("white"@.len() != "Magenta"@.len()); }
    assert("white"@ != "cyan"@) by { assert("white"@.len() != "cyan"@.len()); }
    assert("white"@ != "Cyan"@) by { assert("white"@.len() != "Cyan"@.len()); }
    assert("White"@ != "black"@) by { assert("White"@[0] != "black"@[0]); }
    assert("White"@ != "Black"@) by { assert("White"@[0] != "Black"@[0]); }
    assert("White"@ != "red"@) by { assert("White"@.len() != "red"@.len()); }
    assert("White"@ != "Red"@) by { assert("White"@.len() != "Red"@.len()); }
    assert("White"@ != "green"@) by { assert("White"@[0] != "green"@[0]); }
    assert("White"@ != "Green"@) by { assert("White"@[0] != "Green"@[0]); }
    assert("White"@ != "yellow"@) by { assert("White"@.len() != "yellow"@.len()); }
    assert("White"@ != "Yellow"@) by { assert("White"@.len() != "Yellow"@.len()); }
    assert("White"@ != "blue"@) by { assert("White"@.len() != "blue"@.len()); }
    assert("White"@ != "Blue"@) by { assert("White"@.len() != "Blue"@.len()); }
    assert("White"@ != "magenta"@) by { assert("White"@.len() != "magenta"@.len()); }
    assert("White"@ != "Magenta"@) by { assert("White"@.len() != "Magenta"@.len()); }
    assert("White"@ != "cyan"@) by { assert("White"@.len() != "cyan"@.len()); }
    assert("White"@ != "Cyan"@) by { assert("White"@.len() != "Cyan"@.len()); }
    assert("White"@ != "white"@) by { assert("White"@[0] != "white"@[0]); }
    assert("bright_black"@ != "black"@) by { assert("bright_black"@.len() != "black"@.len()); }
    assert("bright_black"@ != "Black"@) by { assert("bright_black"@.len() != "Black"@.len()); }
    assert("bright_black"@ != "red"@) by { assert("bright_black"@.len() != "red"@.len()); }
    assert("bright_black"@ != "Red"@) by { assert("bright_black"@.len() != "Red"@.len()); }
    assert("bright_black"@ != "green"@) by { assert("bright_black"@.len() != "green"@.len()); }
    assert("bright_black"@ != "Green"@) by { assert("bright_black"@.len() != "Green"@.len()); }
    assert("bright_black"@ != "yellow"@) by { assert("bright_black"@.len() != "yellow"@.len()); }
    assert("bright_black"@ != "Yellow"@) by { assert("bright_black"@.len() != "Yellow"@.len()); }
    assert("bright_black"@ != "blue"@) by { assert("bright_black"@.len() != "blue"@.len()); }
    assert("bright_black"@ != "Blue"@) by { assert("bright_black"@.len() != "Blue"@.len()); }
    assert("bright_black"@ != "magenta"@) by { assert("bright_black"@.len() != "magenta"@.len()); }
    assert("bright_black"@ != "Magenta"@) by { assert("bright_black"@.len() != "Magenta"@.len()); }
    assert("bright_black"@ != "cyan"@) by { assert("bright_black"@.len() != "cyan"@.len()); }
    assert("bright_black"@ != "Cyan"@) by { assert("bright_black"@.len() != "Cyan"@.len()); }
    assert("bright_black"@ != "white"@) by { assert("bright_black"@.len() != "white"@.len()); }
    assert("bright_black"@ != "White"@) by { assert("bright_black"@.len() != "White"@.len()); }
    assert("BrightBlack"@ != "black"@) by { assert("BrightBlack"@.len() != "black"@.len()); }
    assert("BrightBlack"@ != "Black"@) by { assert("BrightBlack"@.len() != "Black"@.len()); }
    assert("BrightBlack"@ != "red"@) by { assert("BrightBlack"@.len() != "red"@.len()); }
    assert("BrightBlack"@ != "Red"@) by { assert("BrightBlack"@.len() != "Red"@.len()); }
    assert("BrightBlack"@ != "green"@) by { assert("BrightBlack"@.len() != "green"@.len()); }
    assert("BrightBlack"@ != "Green"@) by { assert("BrightBlack"@.len() != "Green"@.len()); }
    assert("BrightBlack"@ != "yellow"@) by { assert("BrightBlack"@.len() != "yellow"@.len()); }
    assert("BrightBlack"@ != "Yellow"@) by { assert("BrightBlack"@.len() != "Yellow"@.len()); }
    assert("BrightBlack"@ != "blue"@) by { assert("BrightBlack"@.len() != "blue"@.len()); }
    assert("BrightBlack"@ != "Blue"@) by { assert("BrightBlack"@.len() != "Blue"@.len()); }
    assert("BrightBlack"@ != "magenta"@) by { assert("BrightBlack"@.len() != "magenta"@.len()); }
    assert("BrightBlack"@ != "Magenta"@) by { assert("BrightBlack"@.len() != "Magenta"@.len()); }
    assert("BrightBlack"@ != "cyan"@) by { assert("BrightBlack"@.len() != "cyan"@.len()); }
    assert("BrightBlack"@ != "Cyan"@) by { assert("BrightBlack"@.len() != "Cyan"@.len()); }
    assert("BrightBlack"@ != "white"@) by { assert("BrightBlack"@.len() != "white"@.len()); }
    assert("BrightBlack"@ != "White"@) by { assert("BrightBlack"@.len() != "White"@.len()); }
    assert("BrightBlack"@ != "bright_black"@) by { assert("BrightBlack"@.len() != "bright_black"@.len()); }
    assert("bright_red"@ != "black"@) by { assert("bright_red"@.len() != "black"@.len()); }
    assert("bright_red"@ != "Black"@) by { assert("bright_red"@.len() != "Black"@.len()); }
    assert("bright_red"@ != "red"@) by { assert("bright_red"@.len() != "red"@.len()); }
    assert("bright_red"@ != "Red"@) by { assert("bright_red"@.len() != "Red"@.len()); }
    assert("bright_red"@ != "green"@) by { assert("bright_red"@.len() != "green"@.len()); }
    assert("bright_red"@ != "Green"@) by { assert("bright_red"@.len() != "Green"@.len()); }
    assert("bright_red"@ != "yellow"@) by { assert("bright_red"@.len() != "yellow"@.len()); }
    assert("bright_red"@ != "Yellow"@) by { assert("bright_red"@.len() != "Yellow"@.len()); }
    assert("bright_red"@ != "blue"@) by { assert("bright_red"@.len() != "blue"@.len()); }
    assert("bright_red"@ != "Blue"@) by { assert("bright_red"@.len() != "Blue"@.len()); }
    assert("bright_red"@ != "magenta"@) by { assert("bright_red"@.len() != "magenta"@.len()); }
    assert("bright_red"@ != "Magenta"@) by { assert("bright_red"@.len() != "Magenta"@.len()); }
    assert("bright_red"@ != "cyan"@) by { assert("bright_red"@.len() != "cyan"@.len()); }
    assert("bright_red"@ != "Cyan"@) by { assert("bright_red"@.len() != "Cyan"@.len()); }
    assert("bright_red"@ != "white"@) by { assert("bright_red"@.len() != "white"@.len()); }
    assert("bright_red"@ != "White"@) by { assert("bright_red"@.len() != "White"@.len()); }
    assert("bright_red"@ != "bright_black"@) by { assert("bright_red"@.len() != "bright_black"@.len()); }
    assert("bright_red"@ != "BrightBlack"@) by { assert("bright_red"@.len() != "BrightBlack"@.len()); }
    assert("BrightRed"@ != "black"@) by { assert("BrightRed"@.len() != "black"@.len()); }
    assert("BrightRed"@ != "Black"@) by { assert("BrightRed"@.len() != "Black"@.len()); }
    assert("BrightRed"@ != "red"@) by { assert("BrightRed"@.len() != "red"@.len()); }
    assert("BrightRed"@ != "Red"@) by { assert("BrightRed"@.len() != "Red"@.len()); }
    assert("BrightRed"@ != "green"@) by { assert("BrightRed"@.len() != "green"@.len()); }
    assert("BrightRed"@ != "Green"@) by { assert("BrightRed"@.len() != "Green"@.len()); }
    assert("BrightRed"@ != "yellow"@) by { assert("BrightRed"@.len() != "yellow"@.len()); }
    assert("BrightRed"@ != "Yellow"@) by { assert("BrightRed"@.len() != "Yellow"@.len()); }
    assert("BrightRed"@ != "blue"@) by { assert("BrightRed"@.len() != "blue"@.len()); }
    assert("BrightRed"@ != "Blue"@) by { assert("BrightRed"@.len() != "Blue"@.len()); }
    assert("BrightRed"@ != "magenta"@) by { assert("BrightRed"@.len() != "magenta"@.len()); }
    assert("BrightRed"@ != "Magenta"@) by { assert("BrightRed"@.len() != "Magenta"@.len()); }
    assert("BrightRed"@ != "cyan"@) by { assert("BrightRed"@.len() != "cyan"@.len()); }
    assert("BrightRed"@ != "Cyan"@) by { assert("BrightRed"@.len() != "Cyan"@.len()); }
    assert("BrightRed"@ != "white"@) by { assert("BrightRed"@.len() != "white"@.len()); }
    assert("BrightRed"@ != "White"@) by { assert("BrightRed"@.len() != "White"@.len()); }
    assert("BrightRed"@ != "bright_black"@) by { assert("BrightRed"@.len() != "bright_black"@.len()); }
    assert("BrightRed"@ != "BrightBlack"@) by { assert("BrightRed"@.len() != "BrightBlack"@.len()); }
    assert("BrightRed"@ != "bright_red"@) by { assert("BrightRed"@.len() != "bright_red"@.len()); }
    assert("bright_green"@ != "black"@) by { assert("bright_green"@.len() != "black"@.len()); }
    assert("bright_green"@ != "Black"@) by { assert("bright_green"@.len() != "Black"@.len()); }
    assert("bright_green"@ != "red"@) by { assert("bright_green"@.len() != "red"@.len()); }
    assert("bright_green"@ != "Red"@) by { assert("bright_green"@.len() != "Red"@.len()); }
    assert("bright_green"@ != "green"@) by { assert("bright_green"@.len() != "green"@.len()); }
    assert("bright_green"@ != "Green"@) by { assert("bright_green"@.len() != "Green"@.len()); }
    assert("bright_green"@ != "yellow"@) by { assert("bright_green"@.len() != "yellow"@.len()); }
    assert("bright_green"@ != "Yellow"@) by { assert("bright_green"@.len() != "Yellow"@.len()); }
    assert("bright_green"@ != "blue"@) by { assert("bright_green"@.len() != "blue"@.len()); }
    assert("bright_green"@ != "Blue"@) by { assert("bright_green"@.len() != "Blue"@.len()); }
    assert("bright_green"@ != "magenta"@) by { assert("bright_green"@.len() != "magenta"@.len()); }
    assert("bright_green"@ != "Magenta"@) by { assert("bright_green"@.len() != "Magenta"@.len()); }
    assert("bright_green"@ != "cyan"@) by { assert("bright_green"@.len() != "cyan"@.len()); }
    assert("bright_green"@ != "Cyan"@) by { assert("bright_green"@.len() != "Cyan"@.len()); }
    assert("bright_green"@ != "white"@) by { assert("bright_green"@.len() != "white"@.len()); }
    assert("bright_green"@ != "White"@) by { assert("bright_green"@.len() != "White"@.len()); }
    assert("bright_green"@ != "bright_black"@) by { assert("bright_green"@[7] != "bright_black"@[7]); }
    assert("bright_green"@ != "BrightBlack"@) by { assert("bright_green"@.len() != "BrightBlack"@.len()); }
    assert("bright_green"@ != "bright_red"@) by { assert("bright_green"@.len() != "bright_red"@.len()); }
    assert("bright_green"@ != "BrightRed"@) by { assert("bright_green"@.len() != "BrightRed"@.len()); }
    assert("BrightGreen"@ != "black"@) by { assert("BrightGreen"@.len() != "black"@.len()); }
    assert("BrightGreen"@ != "Black"@) by { assert("BrightGreen"@.len() != "Black"@.len()); }
    assert("BrightGreen"@ != "red"@) by { assert("BrightGreen"@.len() != "red"@.len()); }
    assert("BrightGreen"@ != "Red"@) by { assert("BrightGreen"@.len() != "Red"@.len()); }
    assert("BrightGreen"@ != "green"@) by { assert("BrightGreen"@.len() != "green"@.len()); }
    assert("BrightGreen"@ != "Green"@) by { assert("BrightGreen"@.len() != "Green"@.len()); }
    assert("BrightGreen"@ != "yellow"@) by { assert("BrightGreen"@.len() != "yellow"@.len()); }
    assert("BrightGreen"@ != "Yellow"@) by { assert("BrightGreen"@.len() != "Yellow"@.len()); }
    assert("BrightGreen"@ != "blue"@) by { assert("BrightGreen"@.len() != "blue"@.len()); }
    assert("BrightGreen"@ != "Blue"@) by { assert("BrightGreen"@.len() != "Blue"@.len()); }
    assert("BrightGreen"@ != "magenta"@) by { assert("BrightGreen"@.len() != "magenta"@.len()); }
    assert("BrightGreen"@ != "Magenta"@) by { assert("BrightGreen"@.len() != "Magenta"@.len()); }
    assert("BrightGreen"@ != "cyan"@) by { assert("BrightGreen"@.len() != "cyan"@.len()); }
    assert("BrightGreen"@ != "Cyan"@) by { assert("BrightGreen"@.len() != "Cyan"@.len()); }
    assert("BrightGreen"@ != "white"@) by { assert("BrightGreen"@.len() != "white"@.len()); }
    assert("BrightGreen"@ != "White"@) by { assert("BrightGreen"@.len() != "White"@.len()); }
    assert("BrightGreen"@ != "bright_black"@) by { assert("BrightGreen"@.len() != "bright_black"@.len()); }
    assert("BrightGreen"@ != "BrightBlack"@) by { assert("BrightGreen"@[6] != "BrightBlack"@[6]); }
    assert("BrightGreen"@ != "bright_red"@) by { assert("BrightGreen"@.len() != "bright_red"@.len()); }
    assert("BrightGreen"@ != "BrightRed"@) by { assert("BrightGreen"@.len() != "BrightRed"@.len()); }
    assert("BrightGreen"@ != "bright_green"@) by { assert("BrightGreen"@.len() != "bright_green"@.len()); }
    assert("bright_yellow"@ != "black"@) by { assert("bright_yellow"@.len() != "black"@.len()); }
    assert("bright_yellow"@ != "Black"@) by { assert("bright_yellow"@.len() != "Black"@.len()); }
    assert("bright_yellow"@ != "red"@) by { assert("bright_yellow"@.len() != "red"@.len()); }
    assert("bright_yellow"@ != "Red"@) by { assert("bright_yellow"@.len() != "Red"@.len()); }
    assert("bright_yellow"@ != "green"@) by { assert("bright_yellow"@.len() != "green"@.len()); }
    assert("bright_yellow"@ != "Green"@) by { assert("bright_yellow"@.len() != "Green"@.len()); }
    assert("bright_yellow"@ != "yellow"@) by { assert("bright_yellow"@.len() != "yellow"@.len()); }
    assert("bright_yellow"@ != "Yellow"@) by { assert("bright_yellow"@.len() != "Yellow"@.len()); }
    assert("bright_yellow"@ != "blue"@) by { assert("bright_yellow"@.len() != "blue"@.len()); }
    assert("bright_yellow"@ != "Blue"@) by { assert("bright_yellow"@.len() != "Blue"@.len()); }
    assert("bright_yellow"@ != "magenta"@) by { assert("bright_yellow"@.len() != "magenta"@.len()); }
    assert("bright_yellow"@ != "Magenta"@) by { assert("bright_yellow"@.len() != "Magenta"@.len()); }
    assert("bright_yellow"@ != "cyan"@) by { assert("bright_yellow"@.len() != "cyan"@.len()); }
    assert("bright_yellow"@ != "Cyan"@) by { assert("bright_yellow"@.len() != "Cyan"@.len()); }
    assert("bright_yellow"@ != "white"@) by { assert("bright_yellow"@.len() != "white"@.len()); }
    assert("bright_yellow"@ != "White"@) by { assert("bright_yellow"@.len() != "White"@.len()); }
    assert("bright_yellow"@ != "bright_black"@) by { assert("bright_yellow"@.len() != "bright_black"@.len()); }
    assert("bright_yellow"@ != "BrightBlack"@) by { assert("bright_yellow"@.len() != "BrightBlack"@.len()); }
    assert("bright_yellow"@ != "bright_red"@) by { assert("bright_yellow"@.len() != "bright_red"@.len()); }
    assert("bright_yellow"@ != "BrightRed"@) by { assert("bright_yellow"@.len() != "BrightRed"@.len()); }
    assert("bright_yellow"@ != "bright_green"@) by { assert("bright_yellow"@.len() != "bright_green"@.len()); }
    assert("bright_yellow"@ != "BrightGreen"@) by { assert("bright_yellow"@.len() != "BrightGreen"@.len()); }
    assert("BrightYellow"@ != "black"@) by { assert("BrightYellow"@.len() != "black"@.len()); }
    assert("BrightYellow"@ != "Black"@) by { assert("BrightYellow"@.len() != "Black"@.len()); }
    assert("BrightYellow"@ != "red"@) by { assert("BrightYellow"@.len() != "red"@.len()); }
    assert("BrightYellow"@ != "Red"@) by { assert("BrightYellow"@.len() != "Red"@.len()); }
    assert("BrightYellow"@ != "green"@) by { assert("BrightYellow"@.len() != "green"@.len()); }
    assert("BrightYellow"@ != "Green"@) by { assert("BrightYellow"@.len() != "Green"@.len()); }
    assert("BrightYellow"@ != "yellow"@) by { assert("BrightYellow"@.len() != "yellow"@.len()); }
    assert("BrightYellow"@ != "Yellow"@) by { assert("BrightYellow"@.len() != "Yellow"@.len()); }
    assert("BrightYellow"@ != "blue"@) by { assert("BrightYellow"@.len() != "blue"@.len()); }
    assert("BrightYellow"@ != "Blue"@) by { assert("BrightYellow"@.len() != "Blue"@.len()); }
    assert("BrightYellow"@ != "magenta"@) by { assert("BrightYellow"@.len() != "magenta"@.len()); }
    assert("BrightYellow"@ != "Magenta"@) by { assert("BrightYellow"@.len() != "Magenta"@.len()); }
    assert("BrightYellow"@ != "cyan"@) by { assert("BrightYellow"@.len() != "cyan"@.len()); }
    assert("BrightYellow"@ != "Cyan"@) by { assert("BrightYellow"@.len() != "Cyan"@.len()); }
    assert("BrightYellow"@ != "white"@) by { assert("BrightYellow"@.len() != "white"@.len()); }
    assert("BrightYellow"@ != "White"@) by { assert("BrightYellow"@.len() != "White"@.len()); }
    assert("BrightYellow"@ != "bright_black"@) by { assert("BrightYellow"@[0] != "bright_black"@[0]); }
    assert("BrightYellow"@ != "BrightBlack"@) by { assert("BrightYellow"@.len() != "BrightBlack"@.len()); }
    assert("BrightYellow"@ != "bright_red"@) by { assert("BrightYellow"@.len() != "bright_red"@.len()); }
    assert("BrightYellow"@ != "BrightRed"@) by { assert("BrightYellow"@.len() != "BrightRed"@.len()); }
    assert("BrightYellow"@ != "bright_green"@) by { assert("BrightYellow"@[0] != "bright_green"@[0]); }
    assert("BrightYellow"@ != "BrightGreen"@) by { assert("BrightYellow"@.len() != "BrightGreen"@.len()); }
    assert("BrightYellow"@ != "bright_yellow"@) by { assert("BrightYellow"@.len() != "bright_yellow"@.len()); }
    assert("bright_blue"@ != "black"@) by { assert("bright_blue"@.len() != "black"@.len()); }
    assert("bright_blue"@ != "Black"@) by { assert("bright_blue"@.len() != "Black"@.len()); }
    assert("bright_blue"@ != "red"@) by { assert("bright_blue"@.len() != "red"@.len()); }
    assert("bright_blue"@ != "Red"@) by { assert("bright_blue"@.len() != "Red"@.len()); }
    assert("bright_blue"@ != "green"@) by { assert("bright_blue"@.len() != "green"@.len()); }
    assert("bright_blue"@ != "Green"@) by { assert("bright_blue"@.len() != "Green"@.len()); }
    assert("bright_blue"@ != "yellow"@) by { assert("bright_blue"@.len() != "yellow"@.len()); }
    assert("bright_blue"@ != "Yellow"@) by { assert("bright_blue"@.len() != "Yellow"@.len()); }
    assert("bright_blue"@ != "blue"@) by { assert("bright_blue"@.len() != "blue"@.len()); }
    assert("bright_blue"@ != "Blue"@) by { assert("bright_blue"@.len() != "Blue"@.len()); }
    assert("bright_blue"@ != "magenta"@) by { assert("bright_blue"@.len() != "magenta"@.len()); }
    assert("bright_blue"@ != "Magenta"@) by { assert("bright_blue"@.len() != "Magenta"@.len()); }
    assert("bright_blue"@ != "cyan"@) by { assert("bright_blue"@.len() != "cyan"@.len()); }
    assert("bright_blue"@ != "Cyan"@) by { assert("bright_blue"@.len() != "Cyan"@.len()); }
    assert("bright_blue"@ != "white"@) by { assert("bright_blue"@.len() != "white"@.len()); }
    assert("bright_blue"@ != "White"@) by { assert("bright_blue"@.len() != "White"@.len()); }
    assert("bright_blue"@ != "bright_black"@) by { assert("bright_blue"@.len() != "bright_black"@.len()); }
    assert("bright_blue"@ != "BrightBlack"@) by { assert("bright_blue"@[0] != "BrightBlack"@[0]); }
    assert("bright_blue"@ != "bright_red"@) by { assert("bright_blue"@.len() != "bright_red"@.len()); }
    assert("bright_blue"@ != "BrightRed"@) by { assert("bright_blue"@.len() != "BrightRed"@.len()); }
    assert("bright_blue"@ != "bright_green"@) by { assert("bright_blue"@.len() != "bright_green"@.len()); }
    assert("bright_blue"@ != "BrightGreen"@) by { assert("bright_blue"@[0] != "BrightGreen"@[0]); }
    assert("bright_blue"@ != "bright_yellow"@) by { assert("bright_blue"@.len() != "bright_yellow"@.len()); }
    assert("bright_blue"@ != "BrightYellow"@) by { assert("bright_blue"@.len() != "BrightYellow"@.len()); }
    assert("BrightBlue"@ != "black"@) by { assert("BrightBlue"@.len() != "black"@.len()); }
    assert("BrightBlue"@ != "Black"@) by { assert("BrightBlue"@.len() != "Black"@.len()); }
    assert("BrightBlue"@ != "red"@) by { assert("BrightBlue"@.len() != "red"@.len()); }
    assert("BrightBlue"@ != "Red"@) by { assert("BrightBlue"@.len() != "Red"@.len()); }
    assert("BrightBlue"@ != "green"@) by { assert("BrightBlue"@.len() != "green"@.len()); }
    assert("BrightBlue"@ != "Green"@) by { assert("BrightBlue"@.len() != "Green"@.len()); }
    assert("BrightBlue"@ != "yellow"@) by { assert("BrightBlue"@.len() != "yellow"@.len()); }
    assert("BrightBlue"@ != "Yellow"@) by { assert("BrightBlue"@.len() != "Yellow"@.len()); }
    assert("BrightBlue"@ != "blue"@) by { assert("BrightBlue"@.len() != "blue"@.len()); }
    assert("BrightBlue"@ != "Blue"@) by { assert("BrightBlue"@.len() != "Blue"@.len()); }
    assert("BrightBlue"@ != "magenta"@) by { assert("BrightBlue"@.len() != "magenta"@.len()); }
    assert("BrightBlue"@ != "Magenta"@) by { assert("BrightBlue"@.len() != "Magenta"@.len()); }
    assert("BrightBlue"@ != "cyan"@) by { assert("BrightBlue"@.len() != "cyan"@.len()); }
    assert("BrightBlue"@ != "Cyan"@) by { assert("BrightBlue"@.len() != "Cyan"@.len()); }
    assert("BrightBlue"@ != "white"@) by { assert("BrightBlue"@.len() != "white"@.len()); }
    assert("BrightBlue"@ != "White"@) by { assert("BrightBlue"@.len() != "White"@.len()); }
    assert("BrightBlue"@ != "bright_black"@) by { assert("BrightBlue"@.len() != "bright_black"@.len()); }
    assert("BrightBlue"@ != "BrightBlack"@) by { assert("BrightBlue"@.len() != "BrightBlack"@.len()); }
    assert("BrightBlue"@ != "bright_red"@) by { assert("BrightBlue"@[0] != "bright_red"@[0]); }
    assert("BrightBlue"@ != "BrightRed"@) by { assert("BrightBlue"@.len() != "BrightRed"@.len()); }
    assert("BrightBlue"@ != "bright_green"@) by { assert("BrightBlue"@.len() != "bright_green"@.len()); }
    assert("BrightBlue"@ != "BrightGreen"@) by { assert("BrightBlue"@.len() != "BrightGreen"@.len()); }
    assert("BrightBlue"@ != "bright_yellow"@) by { assert("BrightBlue"@.len() != "bright_yellow"@.len()); }
    assert("BrightBlue"@ != "BrightYellow"@) by { assert("BrightBlue"@.len() != "BrightYellow"@.len()); }
    assert("BrightBlue"@ != "bright_blue"@) by { assert("BrightBlue"@.len() != "bright_blue"@.len()); }
    assert("bright_magenta"@ != "black"@) by { assert("bright_magenta"@.len() != "black"@.len()); }
    assert("bright_magenta"@ != "Black"@) by { assert("bright_magenta"@.len() != "Black"@.len()); }
    assert("bright_magenta"@ != "red"@) by { assert("bright_magenta"@.len() != "red"@.len()); }
    assert("bright_magenta"@ != "Red"@) by { assert("bright_magenta"@.len() != "Red"@.len()); }
    assert("bright_magenta"@ != "green"@) by { assert("bright_magenta"@.len() != "green"@.len()); }
    assert("bright_magenta"@ != "Green"@) by { assert("bright_magenta"@.len() != "Green"@.len()); }
    assert("bright_magenta"@ != "yellow"@) by { assert("bright_magenta"@.len() != "yellow"@.len()); }
    assert("bright_magenta"@ != "Yellow"@) by { assert("bright_magenta"@.len() != "Yellow"@.len()); }
    assert("bright_magenta"@ != "blue"@) by { assert("bright_magenta"@.len() != "blue"@.len()); }
    assert("bright_magenta"@ != "Blue"@) by { assert("bright_magenta"@.len() != "Blue"@.len()); }
    assert("bright_magenta"@ != "magenta"@) by { assert("bright_magenta"@.len() != "magenta"@.len()); }
    assert("bright_magenta"@ != "Magenta"@) by { assert("bright_magenta"@.len() != "Magenta"@.len()); }
    assert("bright_magenta"@ != "cyan"@) by { assert("bright_magenta"@.len() != "cyan"@.len()); }
    assert("bright_magenta"@ != "Cyan"@) by { assert("bright_magenta"@.len() != "Cyan"@.len()); }
    assert("bright_magenta"@ != "white"@) by { assert("bright_magenta"@.len() != "white"@.len()); }
    assert("bright_magenta"@ != "White"@) by { assert("bright_magenta"@.len() != "White"@.len()); }
    assert("bright_magenta"@ != "bright_black"@) by { assert("bright_magenta"@.len() != "bright_black"@.len()); }
    assert("bright_magenta"@ != "BrightBlack"@) by { assert("bright_magenta"@.len() != "BrightBlack"@.len()); }
    assert("bright_magenta"@ != "bright_red"@) by { assert("bright_magenta"@.len() != "bright_red"@.len()); }
    assert("bright_magenta"@ != "BrightRed"@) by { assert("bright_magenta"@.len() != "BrightRed"@.len()); }
    assert("bright_magenta"@ != "bright_green"@) by { assert("bright_magenta"@.len() != "bright_green"@.len()); }
    assert("bright_magenta"@ != "BrightGreen"@) by { assert("bright_magenta"@.len() != "BrightGreen"@.len()); }
    assert("bright_magenta"@ != "bright_yellow"@) by { assert("bright_magenta"@.len() != "bright_yellow"@.len()); }
    assert("bright_magenta"@ != "BrightYellow"@) by { assert("bright_magenta"@.len() != "BrightYellow"@.len()); }
    assert("bright_magenta"@ != "bright_blue"@) by { assert("bright_magenta"@.len() != "bright_blue"@.len()); }
    assert("bright_magenta"@ != "BrightBlue"@) by { assert("bright_magenta"@.len() != "BrightBlue"@.len()); }
    assert("BrightMagenta"@ != "black"@) by { assert("BrightMagenta"@.len() != "black"@.len()); }
    assert("BrightMagenta"@ != "Black"@) by { assert("BrightMagenta"@.len() != "Black"@.len()); }
    assert("BrightMagenta"@ != "red"@) by { assert("BrightMagenta"@.len() != "red"@.len()); }
    assert("BrightMagenta"@ != "Red"@) by { assert("BrightMagenta"@.len() != "Red"@.len()); }
    assert("BrightMagenta"@ != "green"@) by { assert("BrightMagenta"@.len() != "green"@.len()); }
    assert("BrightMagenta"@ != "Green"@) by { assert("BrightMagenta"@.len() != "Green"@.len()); }
    assert("BrightMagenta"@ != "yellow"@) by { assert("BrightMagenta"@.len() != "yellow"@.len()); }
    assert("BrightMagenta"@ != "Yellow"@) by { assert("BrightMagenta"@.len() != "Yellow"@.len()); }
    assert("BrightMagenta"@ != "blue"@) by { assert("BrightMagenta"@.len() != "blue"@.len()); }
    assert("BrightMagenta"@ != "Blue"@) by { assert("BrightMagenta"@.len() != "Blue"@.len()); }
    assert("BrightMagenta"@ != "magenta"@) by { assert("BrightMagenta"@.len() != "magenta"@.len()); }
    assert("BrightMagenta"@ != "Magenta"@) by { assert("BrightMagenta"@.len() != "Magenta"@.len()); }
    assert("BrightMagenta"@ != "cyan"@) by { assert("BrightMagenta"@.len() != "cyan"@.len()); }
    assert("BrightMagenta"@ != "Cyan"@) by { assert("BrightMagenta"@.len() != "Cyan"@.len()); }
    assert("BrightMagenta"@ != "white"@) by { assert("BrightMagenta"@.len() != "white"@.len()); }
    assert("BrightMagenta"@ != "White"@) by { assert("BrightMagenta"@.len() != "White"@.len()); }
    assert("BrightMagenta"@ != "bright_black"@) by { assert("BrightMagenta"@.len() != "bright_black"@.len()); }
    assert("BrightMagenta"@ != "BrightBlack"@) by { assert("BrightMagenta"@.len() != "BrightBlack"@.len()); }
    assert("BrightMagenta"@ != "bright_red"@) by { assert("BrightMagenta"@.len() != "bright_red"@.len()); }
    assert("BrightMagenta"@ != "BrightRed"@) by { assert("BrightMagenta"@.len() != "BrightRed"@.len()); }
    assert("BrightMagenta"@ != "bright_green"@) by { assert("BrightMagenta"@.len() != "bright_green"@.len()); }
    assert("BrightMagenta"@ != "BrightGreen"@) by { assert("BrightMagenta"@.len() != "BrightGreen"@.len()); }
    assert("BrightMagenta"@ != "bright_yellow"@) by { assert("BrightMagenta"@[0] != "bright_yellow"@[0]); }
    assert("BrightMagenta"@ != "BrightYellow"@) by { assert("BrightMagenta"@.len() != "BrightYellow"@.len()); }
    assert("BrightMagenta"@ != "bright_blue"@) by { assert("BrightMagenta"@.len() != "bright_blue"@.len()); }
    assert("BrightMagenta"@ != "BrightBlue"@) by { assert("BrightMagenta"@.len() != "BrightBlue"@.len()); }
    assert("BrightMagenta"@ != "bright_magenta"@) by { assert("BrightMagenta"@.len() != "bright_magenta"@.len()); }
    assert("bright_cyan"@ != "black"@) by { assert("bright_cyan"@.len() != "black"@.len()); }
    assert("bright_cyan"@ != "Black"@) by { assert("bright_cyan"@.len() != "Black"@.len()); }
    assert("bright_cyan"@ != "red"@) by { assert("bright_cyan"@.len() != "red"@.len()); }
    assert("bright_cyan"@ != "Red"@) by { assert("bright_cyan"@.len() != "Red"@.len()); }
    assert("bright_cyan"@ != "green"@) by { assert("bright_cyan"@.len() != "green"@.len()); }
    assert("bright_cyan"@ != "Green"@) by { assert("bright_cyan"@.len() != "Green"@.len()); }
    assert("bright_cyan"@ != "yellow"@) by { assert("bright_cyan"@.len() != "yellow"@.len()); }
    assert("bright_cyan"@ != "Yellow"@) by { assert("bright_cyan"@.len() != "Yellow"@.len()); }
    assert("bright_cyan"@ != "blue"@) by { assert("bright_cyan"@.len() != "blue"@.len()); }
    assert("bright_cyan"@ != "Blue"@) by { assert("bright_cyan"@.len() != "Blue"@.len()); }
    assert("bright_cyan"@ != "magenta"@) by { assert("bright_cyan"@.len() != "magenta"@.len()); }
    assert("bright_cyan"@ != "Magenta"@) by { assert("bright_cyan"@.len() != "Magenta"@.len()); }
    assert("bright_cyan"@ != "cyan"@) by { assert("bright_cyan"@.len() != "cyan"@.len()); }
    assert("bright_cyan"@ != "Cyan"@) by { assert("bright_cyan"@.len() != "Cyan"@.len()); }
    assert("bright_cyan"@ != "white"@) by { assert("bright_cyan"@.len() != "white"@.len()); }
    assert("bright_cyan"@ != "White"@) by { assert("bright_cyan"@.len() != "White"@.len()); }
    assert("bright_cyan"@ != "bright_black"@) by { assert("bright_cyan"@.len() != "bright_black"@.len()); }
    assert("bright_cyan"@ != "BrightBlack"@) by { assert("bright_cyan"@[0] != "BrightBlack"@[0]); }
    assert("bright_cyan"@ != "bright_red"@) by { assert("bright_cyan"@.len() != "bright_red"@.len()); }
    assert("bright_cyan"@ != "BrightRed"@) by { assert("bright_cyan"@.len() != "BrightRed"@.len()); }
    assert("bright_cyan"@ != "bright_green"@) by { assert("bright_cyan"@.len() != "bright_green"@.len()); }
    assert("bright_cyan"@ != "BrightGreen"@) by { assert("bright_cyan"@[0] != "BrightGreen"@[0]); }
    assert("bright_cyan"@ != "bright_yellow"@) by { assert("bright_cyan"@.len() != "bright_yellow"@.len()); }
    assert("bright_cyan"@ != "BrightYellow"@) by { assert("bright_cyan"@.len() != "BrightYellow"@.len()); }
    assert("bright_cyan"@ != "bright_blue"@) by { assert("bright_cyan"@[7] != "bright_blue"@[7]); }
    assert("bright_cyan"@ != "BrightBlue"@) by { assert("bright_cyan"@.len() != "BrightBlue"@.len()); }
    assert("bright_cyan"@ != "bright_magenta"@) by { assert("bright_cyan"@.len() != "bright_magenta"@.len()); }
    assert("bright_cyan"@ != "BrightMagenta"@) by { assert("bright_cyan"@.len() != "BrightMagenta"@.len()); }
    assert("BrightCyan"@ != "black"@) by { assert("BrightCyan"@.len() != "black"@.len()); }
    assert("BrightCyan"@ != "Black"@) by { assert("BrightCyan"@.len() != "Black"@.len()); }
    assert("BrightCyan"@ != "red"@) by { assert("BrightCyan"@.len() != "red"@.len()); }
    assert("BrightCyan"@ != "Red"@) by { assert("BrightCyan"@.len() != "Red"@.len()); }
    assert("BrightCyan"@ != "green"@) by { assert("BrightCyan"@.len() != "green"@.len()); }
    assert("BrightCyan"@ != "Green"@) by { assert("BrightCyan"@.len() != "Green"@.len()); }
    assert("BrightCyan"@ != "yellow"@) by { assert("BrightCyan"@.len() != "yellow"@.len()); }
    assert("BrightCyan"@ != "Yellow"@) by { assert("BrightCyan"@.len() != "Yellow"@.len()); }
    assert("BrightCyan"@ != "blue"@) by { assert("BrightCyan"@.len() != "blue"@.len()); }
    assert("BrightCyan"@ != "Blue"@) by { assert("BrightCyan"@.len() != "Blue"@.len()); }
    assert("BrightCyan"@ != "magenta"@) by { assert("BrightCyan"@.len() != "magenta"@.len()); }
    assert("BrightCyan"@ != "Magenta"@) by { assert("BrightCyan"@.len() != "Magenta"@.len()); }
    assert("BrightCyan"@ != "cyan"@) by { assert("BrightCyan"@.len() != "cyan"@.len()); }
    assert("BrightCyan"@ != "Cyan"@) by { assert("BrightCyan"@.len() != "Cyan"@.len()); }
    assert("BrightCyan"@ != "white"@) by { assert("BrightCyan"@.len() != "white"@.len()); }
    assert("BrightCyan"@ != "White"@) by { assert("BrightCyan"@.len() != "White"@.len()); }
    assert("BrightCyan"@ != "bright_black"@) by { assert("BrightCyan"@.len() != "bright_black"@.len()); }
    assert("BrightCyan"@ != "BrightBlack"@) by { assert("BrightCyan"@.len() != "BrightBlack"@.len()); }
    assert("BrightCyan"@ != "bright_red"@) by { assert("BrightCyan"@[0] != "bright_red"@[0]); }
    assert("BrightCyan"@ != "BrightRed"@) by { assert("BrightCyan"@.len() != "BrightRed"@.len()); }
    assert("BrightCyan"@ != "bright_green"@) by { assert("BrightCyan"@.len() != "bright_green"@.len()); }
    assert("BrightCyan"@ != "BrightGreen"@) by { assert("BrightCyan"@.len() != "BrightGreen"@.len()); }
    assert("BrightCyan"@ != "bright_yellow"@) by { assert("BrightCyan"@.len() != "bright_yellow"@.len()); }
    assert("BrightCyan"@ != "BrightYellow"@) by { assert("BrightCyan"@.len() != "BrightYellow"@.len()); }
    assert("BrightCyan"@ != "bright_blue"@) by { assert("BrightCyan"@.len() != "bright_blue"@.len()); }
    assert("BrightCyan"@ != "BrightBlue"@) by { assert("BrightCyan"@[6] != "BrightBlue"@[6]); }
    assert("BrightCyan"@ != "bright_magenta"@) by { assert("BrightCyan"@.len() != "bright_magenta"@.len()); }
    assert("BrightCyan"@ != "BrightMagenta"@) by { assert("BrightCyan"@.len() != "BrightMagenta"@.len()); }
    assert("BrightCyan"@ != "bright_cyan"@) by { assert("BrightCyan"@.len() != "bright_cyan"@.len()); }
    assert("bright_white"@ != "black"@) by { assert("bright_white"@.len() != "black"@.len()); }
    assert("bright_white"@ != "Black"@) by { assert("bright_white"@.len() != "Black"@.len()); }
    assert("bright_white"@ != "red"@) by { assert("bright_white"@.len() != "red"@.len()); }
    assert("bright_white"@ != "Red"@) by { assert("bright_white"@.len() != "Red"@.len()); }
    assert("bright_white"@ != "green"@) by { assert("bright_white"@.len() != "green"@.len()); }
    assert("bright_white"@ != "Green"@) by { assert("bright_white"@.len() != "Green"@.len()); }
    assert("bright_white"@ != "yellow"@) by { assert("bright_white"@.len() != "yellow"@.len()); }
    assert("bright_white"@ != "Yellow"@) by { assert("bright_white"@.len() != "Yellow"@.len()); }
    assert("bright_white"@ != "blue"@) by { assert("bright_white"@.len() != "blue"@.len()); }
    assert("bright_white"@ != "Blue"@) by { assert("bright_white"@.len() != "Blue"@.len()); }
    assert("bright_white"@ != "magenta"@) by { assert("bright_white"@.len() != "magenta"@.len()); }
    assert("bright_white"@ != "Magenta"@) by { assert("bright_white"@.len() != "Magenta"@.len()); }
    assert("bright_white"@ != "cyan"@) by { assert("bright_white"@.len() != "cyan"@.len()); }
    assert("bright_white"@ != "Cyan"@) by { assert("bright_white"@.len() != "Cyan"@.len()); }
    assert("bright_white"@ != "white"@) by { assert("bright_white"@.len() != "white"@.len()); }
    assert("bright_white"@ != "White"@) by { assert("bright_white"@.len() != "White"@.len()); }
    assert("bright_white"@ != "bright_black"@) by { assert("bright_white"@[7] != "bright_black"@[7]); }
    assert("bright_white"@ != "BrightBlack"@) by { assert("bright_white"@.len() != "BrightBlack"@.len()); }
    assert("bright_white"@ != "bright_red"@) by { assert("bright_white"@.len() != "bright_red"@.len()); }
    assert("bright_white"@ != "BrightRed"@) by { assert("bright_white"@.len() != "BrightRed"@.len()); }
    assert("bright_white"@ != "bright_green"@) by { assert("bright_white"@[7] != "bright_green"@[7]); }
    assert("bright_white"@ != "BrightGreen"@) by { assert("bright_white"@.len() != "BrightGreen"@.len()); }
    assert("bright_white"@ != "bright_yellow"@) by { assert("bright_white"@.len() != "bright_yellow"@.len()); }
    assert("bright_white"@ != "BrightYellow"@) by { assert("bright_white"@[0] != "BrightYellow"@[0]); }
    assert("bright_white"@ != "bright_blue"@) by { assert("bright_white"@.len() != "bright_blue"@.len()); }
    assert("bright_white"@ != "BrightBlue"@) by { assert("bright_white"@.len() != "BrightBlue"@.len()); }
    assert("bright_white"@ != "bright_magenta"@) by { assert("bright_white"@.len() != "bright_magenta"@.len()); }
    assert("bright_white"@ != "BrightMagenta"@) by { assert("bright_white"@.len() != "BrightMagenta"@.len()); }
    assert("bright_white"@ != "bright_cyan"@) by { assert("bright_white"@.len() != "bright_cyan"@.len()); }
    assert("bright_white"@ != "BrightCyan"@) by { assert("bright_white"@.len() != "BrightCyan"@.len()); }
    assert("BrightWhite"@ != "black"@) by { assert("BrightWhite"@.len() != "black"@.len()); }
    assert("BrightWhite"@ != "Black"@) by { assert("BrightWhite"@.len() != "Black"@.len()); }
    assert("BrightWhite"@ != "red"@) by { assert("BrightWhite"@.len() != "red"@.len()); }
    assert("BrightWhite"@ != "Red"@) by { assert("BrightWhite"@.len() != "Red"@.len()); }
    assert("BrightWhite"@ != "green"@) by { assert("BrightWhite"@.len() != "green"@.len()); }
    assert("BrightWhite"@ != "Green"@) by { assert("BrightWhite"@.len() != "Green"@.len()); }
    assert("BrightWhite"@ != "yellow"@) by { assert("BrightWhite"@.len() != "yellow"@.len()); }
    assert("BrightWhite"@ != "Yellow"@) by { assert("BrightWhite"@.len() != "Yellow"@.len()); }
    assert("BrightWhite"@ != "blue"@) by { assert("BrightWhite"@.len() != "blue"@.len()); }
    assert("BrightWhite"@ != "Blue"@) by { assert("BrightWhite"@.len() != "Blue"@.len()); }
    assert("BrightWhite"@ != "magenta"@) by { assert("BrightWhite"@.len() != "magenta"@.len()); }
    assert("BrightWhite"@ != "Magenta"@) by { assert("BrightWhite"@.len() != "Magenta"@.len()); }
    assert("BrightWhite"@ != "cyan"@) by { assert("BrightWhite"@.len() != "cyan"@.len()); }
    assert("BrightWhite"@ != "Cyan"@) by { assert("BrightWhite"@.len() != "Cyan"@.len()); }
    assert("BrightWhite"@ != "white"@) by { assert("BrightWhite"@.len() != "white"@.len()); }
    assert("BrightWhite"@ != "White"@) by { assert("BrightWhite"@.len() != "White"@.len()); }
    assert("BrightWhite"@ != "bright_black"@) by { assert("BrightWhite"@.len() != "bright_black"@.len()); }
    assert("BrightWhite"@ != "BrightBlack"@) by { assert("BrightWhite"@[6] != "BrightBlack"@[6]); }
    assert("BrightWhite"@ != "bright_red"@) by { assert("BrightWhite"@.len() != "bright_red"@.len()); }
    assert("BrightWhite"@ != "BrightRed"@) by { assert("BrightWhite"@.len() != "BrightRed"@.len()); }
    assert("BrightWhite"@ != "bright_green"@) by { assert("BrightWhite"@.len() != "bright_green"@.len()); }
    assert("BrightWhite"@ != "BrightGreen"@) by { assert("BrightWhite"@[6] != "BrightGreen"@[6]); }
    assert("BrightWhite"@ != "bright_yellow"@) by { assert("BrightWhite"@.len() != "bright_yellow"@.len()); }
    assert("BrightWhite"@ != "BrightYellow"@) by { assert("BrightWhite"@.len() != "BrightYellow"@.len()); }
    assert("BrightWhite"@ != "bright_blue"@) by { assert("BrightWhite"@[0] != "bright_blue"@[0]); }
    assert("BrightWhite"@ != "BrightBlue"@) by { assert("BrightWhite"@.len() != "BrightBlue"@.len()); }
    assert("BrightWhite"@ != "bright_magenta"@) by { assert("BrightWhite"@.len() != "bright_magenta"@.len()); }
    assert("BrightWhite"@ != "BrightMagenta"@) by { assert("BrightWhite"@.len() != "BrightMagenta"@.len()); }
    assert("BrightWhite"@ != "bright_cyan"@) by { assert("BrightWhite"@[0] != "bright_cyan"@[0]); }
    assert("BrightWhite"@ != "BrightCyan"@) by { assert("BrightWhite"@.len() != "BrightCyan"@.len()); }
    assert("BrightWhite"@ != "bright_white"@) by { assert("BrightWhite"@.len() != "bright_white"@.len()); }
    assert("purple"@ != "black"@) by { assert("purple"@.len() != "black"@.len()); }
    assert("purple"@ != "Black"@) by { assert("purple"@.len() != "Black"@.len()); }
    assert("purple"@ != "red"@) by { assert("purple"@.len() != "red"@.len()); }
    assert("purple"@ != "Red"@) by { assert("purple"@.len() != "Red"@.len()); }
    assert("purple"@ != "green"@) by { assert("purple"@.len() != "green"@.len()); }
    assert("purple"@ != "Green"@) by { assert("purple"@.len() != "Green"@.len()); }
    assert("purple"@ != "yellow"@) by { assert("purple"@[0] != "yellow"@[0]); }
    assert("purple"@ != "Yellow"@) by { assert("purple"@[0] != "Yellow"@[0]); }
    assert("purple"@ != "blue"@) by { assert("purple"@.len() != "blue"@.len()); }
    assert("purple"@ != "Blue"@) by { assert("purple"@.len() != "Blue"@.len()); }
    assert("purple"@ != "magenta"@) by { assert("purple"@.len() != "magenta"@.len()); }
    assert("purple"@ != "Magenta"@) by { assert("purple"@.len() != "Magenta"@.len()); }
    assert("purple"@ != "cyan"@) by { assert("purple"@.len() != "cyan"@.len()); }
    assert("purple"@ != "Cyan"@) by { assert("purple"@.len() != "Cyan"@.len()); }
    assert("purple"@ != "white"@) by { assert("purple"@.len() != "white"@.len()); }
    assert("purple"@ != "White"@) by { assert("purple"@.len() != "White"@.len()); }
    assert("purple"@ != "bright_black"@) by { assert("purple"@.len() != "bright_black"@.len()); }
    assert("purple"@ != "BrightBlack"@) by { assert("purple"@.len() != "BrightBlack"@.len()); }
    assert("purple"@ != "bright_red"@) by { assert("purple"@.len() != "bright_red"@.len()); }
    assert("purple"@ != "BrightRed"@) by { assert("purple"@.len() != "BrightRed"@.len()); }
    assert("purple"@ != "bright_green"@) by { assert("purple"@.len() != "bright_green"@.len()); }
    assert("purple"@ != "BrightGreen"@) by { assert("purple"@.len() != "BrightGreen"@.len()); }
    assert("purple"@ != "bright_yellow"@) by { assert("purple"@.len() != "bright_yellow"@.len()); }
    assert("purple"@ != "BrightYellow"@) by { assert("purple"@.len() != "BrightYellow"@.len()); }
    assert("purple"@ != "bright_blue"@) by { assert("purple"@.len() != "bright_blue"@.len()); }
    assert("purple"@ != "BrightBlue"@) by { assert("purple"@.len() != "BrightBlue"@.len()); }
    assert("purple"@ != "bright_magenta"@) by { assert("purple"@.len() != "bright_magenta"@.len()); }
    assert("purple"@ != "BrightMagenta"@) by { assert("purple"@.len() != "BrightMagenta"@.len()); }
    assert("purple"@ != "bright_cyan"@) by { assert("purple"@.len() != "bright_cyan"@.len()); }
    assert("purple"@ != "BrightCyan"@) by { assert("purple"@.len() != "BrightCyan"@.len()); }
    assert("purple"@ != "bright_white"@) by { assert("purple"@.len() != "bright_white"@.len()); }
    assert("purple"@ != "BrightWhite"@) by { assert("purple"@.len() != "BrightWhite"@.len()); }
}

/// The color that `color` names, if it names one.
pub fn log_marker_color_from_str(color: &str) -> (c: Option<LogMarkerColor>)
    ensures
        c == color_named(color@),
{
    if str_eq(color, "black") || str_eq(color, "Black") {
        Some(LogMarkerColor::Black)
    } else if str_eq(color, "red") || str_eq(color, "Red") {
        Some(LogMarkerColor::Red)
    } else if str_eq(color, "green") || str_eq(color, "Green") {
        Some(LogMarkerColor::Green)
    } else if str_eq(color, "yellow") || str_eq(color, "Yellow") {
        Some(LogMarkerColor::Yellow)
    } else if str_eq(color, "blue") || str_eq(color, "Blue") {
        Some(LogMarkerColor::Blue)
    } else if str_eq(color, "magenta") || str_eq(color, "Magenta") {
        Some(LogMarkerColor::Magenta)
    } else if str_eq(color, "cyan") || str_eq(color, "Cyan") {
        Some(LogMarkerColor::Cyan)
    } else if str_eq(color, "white") || str_eq(color, "White") {
        Some(LogMarkerColor::White)
    } else if str_eq(color, "bright_black") || str_eq(color, "BrightBlack") {
        Some(LogMarkerColor::BrightBlack)
    } else if str_eq(color, "bright_red") || str_eq(color, "BrightRed") {
        Some(LogMarkerColor::BrightRed)
    } else if str_eq(color, "bright_green") || str_eq(color, "BrightGreen") {
        Some(LogMarkerColor::BrightGreen)
    } else if str_eq(color, "bright_yellow") || str_eq(color, "BrightYellow") {
        Some(LogMarkerColor::BrightYellow)
    } else if str_eq(color, "bright_blue") || str_eq(color, "BrightBlue") {
        Some(LogMarkerColor::BrightBlue)
    } else if str_eq(color, "bright_magenta") || str_eq(color, "BrightMagenta") {
        Some(LogMarkerColor::BrightMagenta)
    } else if str_eq(color, "bright_cyan") || str_eq(color, "BrightCyan") {
        Some(LogMarkerColor::BrightCyan)
    } else if str_eq(color, "bright_white") || str_eq(color, "BrightWhite") {
        Some(LogMarkerColor::BrightWhite)
    } else {
        None
    }
}

} // verus!
