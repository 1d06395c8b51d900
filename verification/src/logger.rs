//! Formatting of log lines for a terminal that understands 24-bit colour escapes.

use vstd::prelude::*;
use crate::text::{ascii_upper, decimal, push_decimal, str_equals, to_ascii_upper};

verus! {

/// Severity of a log message.
#[derive(Debug, Clone, Copy, PartialEq, Eq, Structural)]
pub enum LogLevel {
    Verbose,
    Debug,
    Information,
    Warning,
    Error,
}

/// The short name a level is displayed with; no name is longer than five characters.
pub open spec fn level_name(level: LogLevel) -> Seq<char> {
    match level {
        LogLevel::Verbose => "VERB"@,
        LogLevel::Debug => "DEBUG"@,
        LogLevel::Information => "INFO"@,
        LogLevel::Warning => "WARN"@,
        LogLevel::Error => "ERROR"@,
    }
}

impl LogLevel {
    /// The short name the level is displayed with.
    pub fn name(&self) -> (r: &'static str)
        ensures
            r@ == level_name(*self),
            r@.len() <= 5,
    {
        proof {
            reveal_strlit("VERB");
            reveal_strlit("DEBUG");
            reveal_strlit("INFO");
            reveal_strlit("WARN");
            reveal_strlit("ERROR");
        }
        match self {
            LogLevel::Verbose => "VERB",
            LogLevel::Debug => "DEBUG",
            LogLevel::Information => "INFO",
            LogLevel::Warning => "WARN",
            LogLevel::Error => "ERROR",
        }
    }
}

/// A 24-bit colour.
#[derive(Debug, Clone, Copy, PartialEq, Eq, Structural)]
pub struct LogColor {
    pub red: u8,
    pub green: u8,
    pub blue: u8,
}

impl LogColor {
    /// The colour with the given red, green and blue parts.
    pub fn from_rgb_u8(red: u8, green: u8, blue: u8) -> (r: Self)
        ensures
            r == (LogColor { red, green, blue }),
    {
        LogColor { red, green, blue }
    }

    pub fn get_red(&self) -> (r: u8)
        ensures
            r == self.red,
    {
        self.red
    }

    pub fn get_green(&self) -> (r: u8)
        ensures
            r == self.green,
    {
        self.green
    }

    pub fn get_blue(&self) -> (r: u8)
        ensures
            r == self.blue,
    {
        self.blue
    }
}

/// A way to start and end a terminal escape sequence.
pub trait TerminalEscape {
    /// The characters that start a sequence.
    spec fn spec_escape() -> Seq<char>;

    /// The characters that end a sequence.
    spec fn spec_return() -> Seq<char>;

    fn get_escape() -> (r: &'static str)
        ensures
            r@ == Self::spec_escape(),
    ;

    fn get_return() -> (r: &'static str)
        ensures
            r@ == Self::spec_return(),
    ;
}

/// Control sequences introduced by `ESC [` and ended by `m` (select graphic rendition).
pub struct Escape5B;

impl TerminalEscape for Escape5B {
    open spec fn spec_escape() -> Seq<char> {
        "\x1b["@
    }

    open spec fn spec_return() -> Seq<char> {
        "m"@
    }

    fn get_escape() -> (r: &'static str) {
        "\x1b["
    }

    fn get_return() -> (r: &'static str) {
        "m"
    }
}

/// The sequence that sets the foreground to `color` in 24-bit colour.
pub open spec fn foreground_code<E: TerminalEscape>(color: LogColor) -> Seq<char> {
    E::spec_escape() + "38;2;"@ + decimal(color.red as nat) + ";"@ + decimal(color.green as nat)
        + ";"@ + decimal(color.blue as nat) + E::spec_return()
}

/// The sequence that resets all attributes.
pub open spec fn reset_code<E: TerminalEscape>() -> Seq<char> {
    E::spec_escape() + "0"@ + E::spec_return()
}

/// A way to colour terminal text.
pub trait TerminalFormat {
    fn set_foreground_color_code<E: TerminalEscape>(color: LogColor) -> String;

    fn reset<E: TerminalEscape>() -> String;
}

/// Colours given as 24-bit red, green and blue parts.
pub struct TrueColor;

impl TerminalFormat for TrueColor {
    fn set_foreground_color_code<E: TerminalEscape>(color: LogColor) -> (r: String)
        ensures
            r@ == foreground_code::<E>(color),
    {
        let mut r = String::from_str(E::get_escape());
        r.append("38;2;");
        push_decimal(&mut r, color.get_red());
        r.append(";");
        push_decimal(&mut r, color.get_green());
        r.append(";");
        push_decimal(&mut r, color.get_blue());
        r.append(E::get_return());
        r
    }

    fn reset<E: TerminalEscape>() -> (r: String)
        ensures
            r@ == reset_code::<E>(),
    {
        let mut r = String::from_str(E::get_escape());
        r.append("0");
        r.append(E::get_return());
        r
    }
}

} // verus!

verus! {

/// Pink (255, 192, 203).
pub open spec fn pink() -> LogColor {
    LogColor { red: 255, green: 192, blue: 203 }
}

/// Violet (238, 130, 238).
pub open spec fn violet() -> LogColor {
    LogColor { red: 238, green: 130, blue: 238 }
}

/// Hot pink (255, 105, 180).
pub open spec fn hot_pink() -> LogColor {
    LogColor { red: 255, green: 105, blue: 180 }
}

/// Sandy brown (244, 164, 96).
pub open spec fn sandy_brown() -> LogColor {
    LogColor { red: 244, green: 164, blue: 96 }
}

/// Red (255, 0, 0).
pub open spec fn red() -> LogColor {
    LogColor { red: 255, green: 0, blue: 0 }
}

/// The colour each level is shown in.
pub open spec fn level_color(level: LogLevel) -> LogColor {
    match level {
        LogLevel::Verbose => pink(),
        LogLevel::Debug => violet(),
        LogLevel::Information => hot_pink(),
        LogLevel::Warning => sandy_brown(),
        LogLevel::Error => red(),
    }
}

/// The colour a level is shown in.
pub fn multiplayer_get_color(level: LogLevel) -> (r: LogColor)
    ensures
        r == level_color(level),
{
    match level {
        LogLevel::Verbose => LogColor::from_rgb_u8(255, 192, 203),
        LogLevel::Debug => LogColor::from_rgb_u8(238, 130, 238),
        LogLevel::Information => LogColor::from_rgb_u8(255, 105, 180),
        LogLevel::Warning => LogColor::from_rgb_u8(244, 164, 96),
        LogLevel::Error => LogColor::from_rgb_u8(255, 0, 0),
    }
}

/// `n` spaces.
pub open spec fn spaces(n: nat) -> Seq<char> {
    Seq::new(n, |i: int| ' ')
}

/// A level in brackets, coloured, padded with spaces to five characters.
pub open spec fn spec_fmt_log_level(level: LogLevel) -> Seq<char> {
    "["@ + foreground_code::<Escape5B>(level_color(level)) + level_name(level) + spaces(
        (5 - level_name(level).len()) as nat,
    ) + reset_code::<Escape5B>() + "]"@
}

/// A level in brackets, coloured, padded with spaces to five characters.
pub fn fmt_log_level(level: LogLevel) -> (r: String)
    ensures
        r@ == spec_fmt_log_level(level),
{
    let name = level.name();
    let len = name.unicode_len();
    let mut text = String::from_str(name);
    let pad = 5 - len;
    let mut i: usize = 0;
    while i < pad
        invariant
            pad == 5 - name@.len(),
            i <= pad,
            text@ == name@ + spaces(i as nat),
        decreases pad - i,
    {
        text.append(" ");
        proof {
            reveal_strlit(" ");
            assert(name@ + spaces((i + 1) as nat) =~= name@ + spaces(i as nat) + " "@);
        }
        i = i + 1;
    }
    let mut r = String::from_str("[");
    let fg = TrueColor::set_foreground_color_code::<Escape5B>(multiplayer_get_color(level));
    r.append(fg.as_str());
    r.append(text.as_str());
    let reset = TrueColor::reset::<Escape5B>();
    r.append(reset.as_str());
    r.append("]");
    proof {
        assert(r@ =~= spec_fmt_log_level(level));
    }
    r
}

/// The colour of a known game code, if it is one.
pub open spec fn game_color(code: Seq<char>) -> Option<LogColor> {
    if code == "XRD759"@ {
        Some(LogColor { red: 78, green: 207, blue: 147 })
    } else if code == "XRD768"@ {
        Some(LogColor { red: 78, green: 207, blue: 83 })
    } else if code == "XRD777"@ {
        Some(LogColor { red: 66, green: 135, blue: 245 })
    } else {
        None
    }
}

/// A game code in upper case, coloured when it is a known one.
pub open spec fn spec_fmt_game_module(game: Seq<char>) -> Seq<char> {
    let code = ascii_upper(game);
    match game_color(code) {
        Some(c) => foreground_code::<Escape5B>(c) + code + reset_code::<Escape5B>(),
        None => code,
    }
}

/// A game code in upper case, coloured when it is a known one.
pub fn fmt_game_module(game: &str) -> (r: String)
    ensures
        r@ == spec_fmt_game_module(game@),
{
    let code = to_ascii_upper(game);
    let color = if str_equals(code.as_str(), "XRD759") {
        Some(LogColor::from_rgb_u8(78, 207, 147))
    } else if str_equals(code.as_str(), "XRD768") {
        Some(LogColor::from_rgb_u8(78, 207, 83))
    } else if str_equals(code.as_str(), "XRD777") {
        Some(LogColor::from_rgb_u8(66, 135, 245))
    } else {
        None
    };
    match color {
        Some(c) => {
            let mut r = TrueColor::set_foreground_color_code::<Escape5B>(c);
            r.append(code.as_str());
            let reset = TrueColor::reset::<Escape5B>();
            r.append(reset.as_str());
            r
        },
        None => code,
    }
}

/// Whether `s` holds the separator `::` at position `i`.
pub open spec fn is_path_sep_at(s: Seq<char>, i: int) -> bool {
    0 <= i && i + 1 < s.len() && s[i] == ':' && s[i + 1] == ':'
}

/// The first position at or after `from` where `s` holds `::`.
pub open spec fn find_path_sep(s: Seq<char>, from: nat) -> Option<nat>
    decreases s.len() - from,
{
    if from + 1 >= s.len() {
        None
    } else if is_path_sep_at(s, from as int) {
        Some(from)
    } else {
        find_path_sep(s, from + 1)
    }
}

/// The part of a module path between its first and second `::`, or nothing when the path has
/// fewer than two separators.
pub open spec fn spec_game_code(path: Seq<char>) -> Seq<char> {
    match find_path_sep(path, 0) {
        Some(a) => match find_path_sep(path, a + 2) {
            Some(b) => path.subrange((a + 2) as int, b as int),
            None => Seq::<char>::empty(),
        },
        None => Seq::<char>::empty(),
    }
}

/// A position found by the search holds the separator, and lies at or after the start.
pub proof fn lemma_find_path_sep(s: Seq<char>, from: nat)
    ensures
        find_path_sep(s, from) matches Some(i) ==> i >= from && is_path_sep_at(s, i as int),
    decreases s.len() - from,
{
    if from + 1 < s.len() && !is_path_sep_at(s, from as int) {
        lemma_find_path_sep(s, from + 1);
    }
}

/// The first position at or after `from` where `s` holds `::`.
fn find_separator(s: &str, from: usize) -> (r: Option<usize>)
    ensures
        match r {
            Some(i) => find_path_sep(s@, from as nat) == Some(i as nat) && i + 2 <= s@.len()
                <= usize::MAX,
            None => find_path_sep(s@, from as nat) is None,
        },
{
    let n = s.unicode_len();
    let mut i = from;
    while i < n && i + 1 < n
        invariant
            n == s@.len(),
            from <= i,
            find_path_sep(s@, from as nat) == find_path_sep(s@, i as nat),
        decreases n - i,
    {
        if s.get_char(i) == ':' && s.get_char(i + 1) == ':' {
            return Some(i);
        }
        i = i + 1;
    }
    None
}

/// The part of a module path between its first and second `::` (the game code in
/// `crate::game::module`), or the empty string when the path has fewer than two separators.
pub fn get_game_code(mod_path: &'static str) -> (r: &'static str)
    ensures
        r@ == spec_game_code(mod_path@),
{
    proof {
        reveal_strlit("");
    }
    let first = find_separator(mod_path, 0);
    match first {
        None => "",
        Some(a) => {
            proof {
                lemma_find_path_sep(mod_path@, 0);
            }
            let second = find_separator(mod_path, a + 2);
            match second {
                None => "",
                Some(b) => {
                    proof {
                        lemma_find_path_sep(mod_path@, (a + 2) as nat);
                    }
                    mod_path.substring_char(a + 2, b)
                },
            }
        },
    }
}

/// A log line: the time in brackets, the formatted level, and the text.
pub open spec fn spec_format_log_line(time: Seq<char>, level: LogLevel, text: Seq<char>) -> Seq<char> {
    "["@ + time + "] "@ + spec_fmt_log_level(level) + " "@ + text
}

/// A log line is made of the time in brackets, then what `fmt_log_level` gives for the line's
/// own level, then the text: the level part always shows the message's level.
pub proof fn law_log_line_shows_its_level(time: Seq<char>, level: LogLevel, text: Seq<char>)
    ensures
        spec_format_log_line(time, level, text) == "["@ + time + "] "@ + spec_fmt_log_level(level)
            + " "@ + text,
        spec_format_log_line(time, level, text).subrange(
            time.len() + 3int,
            time.len() + 3int + spec_fmt_log_level(level).len(),
        ) == spec_fmt_log_level(level),
{
    let line = spec_format_log_line(time, level, text);
    reveal_strlit("[");
    reveal_strlit("] ");
    assert(line.subrange(time.len() + 3int, time.len() + 3int + spec_fmt_log_level(level).len())
        =~= spec_fmt_log_level(level));
}

/// A log line: the time in brackets, the formatted level, and the text.
pub fn format_log_line(time: &str, level: LogLevel, text: &str) -> (r: String)
    ensures
        r@ == spec_format_log_line(time@, level, text@),
        r@ == "["@ + time@ + "] "@ + spec_fmt_log_level(level) + " "@ + text@,
{
    let mut r = String::from_str("[");
    r.append(time);
    r.append("] ");
    let lvl = fmt_log_level(level);
    r.append(lvl.as_str());
    r.append(" ");
    r.append(text);
    r
}

/// The level a graphics-driver debug message is logged at: error, else warning, else
/// information, else debug.
pub fn log_level_for_severity(error: bool, warning: bool, info: bool) -> (r: LogLevel)
    ensures
        r == (if error {
            LogLevel::Error
        } else if warning {
            LogLevel::Warning
        } else if info {
            LogLevel::Information
        } else {
            LogLevel::Debug
        }),
{
    if error {
        LogLevel::Error
    } else if warning {
        LogLevel::Warning
    } else if info {
        LogLevel::Information
    } else {
        LogLevel::Debug
    }
}

/// The application's logger.
#[derive(Debug)]
pub struct Logger;

impl Logger {
    pub fn new() -> (r: Self)
        ensures
            r == Logger,
    {
        Logger
    }
}

} // verus!
