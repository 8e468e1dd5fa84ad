//! Log levels, log configurations and the rendering of log lines.
//!
//! The manager holds the active configuration and decides what a message
//! becomes: nothing when it is below the minimum level, otherwise the line
//! to print, with its optional timestamp, level tag, emoji and colour.

use vstd::prelude::*;
use vstd::string::*;
use crate::text::{owned, concat2, push_char};

verus! {

/// Severity of a log message, from least to most severe.
#[derive(Debug, Clone, Copy, PartialEq, Eq, Hash, Structural)]
pub enum LogLevel {
    Debug,
    Verbose,
    Info,
    Warning,
    Error,
}

/// The position of a level in the order of severity.
pub open spec fn rank_spec(l: LogLevel) -> u8 {
    match l {
        LogLevel::Debug => 0,
        LogLevel::Verbose => 1,
        LogLevel::Info => 2,
        LogLevel::Warning => 3,
        LogLevel::Error => 4,
    }
}

pub open spec fn emoji_spec(l: LogLevel) -> Seq<char> {
    match l {
        LogLevel::Debug => "🔧"@,
        LogLevel::Verbose => "📋"@,
        LogLevel::Info => "ℹ️"@,
        LogLevel::Warning => "⚠️"@,
        LogLevel::Error => "❌"@,
    }
}

pub open spec fn color_spec(l: LogLevel) -> Seq<char> {
    match l {
        LogLevel::Debug => "\x1b[36m"@,
        LogLevel::Verbose => "\x1b[34m"@,
        LogLevel::Info => "\x1b[32m"@,
        LogLevel::Warning => "\x1b[33m"@,
        LogLevel::Error => "\x1b[31m"@,
    }
}

pub open spec fn name_spec(l: LogLevel) -> Seq<char> {
    match l {
        LogLevel::Debug => "DEBUG"@,
        LogLevel::Verbose => "VERBOSE"@,
        LogLevel::Info => "INFO"@,
        LogLevel::Warning => "WARNING"@,
        LogLevel::Error => "ERROR"@,
    }
}

impl LogLevel {
    /// The level's position in the order of severity (Debug is 0, Error 4).
    pub fn rank(&self) -> (res: u8)
        ensures
            res == rank_spec(*self),
    {
        match self {
            LogLevel::Debug => 0,
            LogLevel::Verbose => 1,
            LogLevel::Info => 2,
            LogLevel::Warning => 3,
            LogLevel::Error => 4,
        }
    }

    /// The emoji shown before a message of this level.
    pub fn emoji(&self) -> (res: &'static str)
        ensures
            res@ == emoji_spec(*self),
    {
        match self {
            LogLevel::Debug => "🔧",
            LogLevel::Verbose => "📋",
            LogLevel::Info => "ℹ️",
            LogLevel::Warning => "⚠️",
            LogLevel::Error => "❌",
        }
    }

    /// The terminal colour code of this level.
    pub fn color_code(&self) -> (res: &'static str)
        ensures
            res@ == color_spec(*self),
    {
        match self {
            LogLevel::Debug => "\x1b[36m",
            LogLevel::Verbose => "\x1b[34m",
            LogLevel::Info => "\x1b[32m",
            LogLevel::Warning => "\x1b[33m",
            LogLevel::Error => "\x1b[31m",
        }
    }

    /// The level's name in capitals.
    pub fn to_string(&self) -> (res: String)
        ensures
            res@ == name_spec(*self),
    {
        match self {
            LogLevel::Debug => owned("DEBUG"),
            LogLevel::Verbose => owned("VERBOSE"),
            LogLevel::Info => owned("INFO"),
            LogLevel::Warning => owned("WARNING"),
            LogLevel::Error => owned("ERROR"),
        }
    }
}

/// How log messages are shown.
#[derive(Debug, Clone, Copy, PartialEq, Eq, Structural)]
pub struct LogConfig {
    pub min_level: LogLevel,
    pub show_timestamp: bool,
    pub show_color: bool,
    pub show_level: bool,
    pub dev_mode: bool,
}

impl Default for LogConfig {
    fn default() -> (res: Self)
        ensures
            res == LogConfig::production_spec(),
    {
        LogConfig::production()
    }
}

impl LogConfig {
    pub open spec fn production_spec() -> LogConfig {
        LogConfig {
            min_level: LogLevel::Info,
            show_timestamp: false,
            show_color: true,
            show_level: false,
            dev_mode: false,
        }
    }

    /// Production: information and above, coloured, no timestamp or tag.
    pub fn production() -> (res: Self)
        ensures
            res == LogConfig::production_spec(),
    {
        LogConfig {
            min_level: LogLevel::Info,
            show_timestamp: false,
            show_color: true,
            show_level: false,
            dev_mode: false,
        }
    }

    /// Development: everything, with timestamps and level tags.
    pub fn development() -> (res: Self)
        ensures
            res == (LogConfig {
                min_level: LogLevel::Debug,
                show_timestamp: true,
                show_color: true,
                show_level: true,
                dev_mode: true,
            }),
    {
        LogConfig { min_level: LogLevel::Debug, show_timestamp: true, show_color: true, show_level: true, dev_mode: true }
    }

    /// Verbose: verbose messages and above.
    pub fn verbose() -> (res: Self)
        ensures
            res == (LogConfig {
                min_level: LogLevel::Verbose,
                show_timestamp: false,
                show_color: true,
                show_level: false,
                dev_mode: false,
            }),
    {
        LogConfig {
            min_level: LogLevel::Verbose,
            show_timestamp: false,
            show_color: true,
            show_level: false,
            dev_mode: false,
        }
    }
}

/// The line printed for a message, or `None` when its level is below the
/// minimum. `stamp` is the timestamp text, used when timestamps are shown.
pub open spec fn line_for(c: LogConfig, level: LogLevel, message: Seq<char>, stamp: Seq<char>) -> Option<Seq<char>> {
    if rank_spec(level) < rank_spec(c.min_level) {
        None
    } else {
        let t = if c.show_timestamp { "["@ + stamp + "s] "@ } else { seq![] };
        let l = if c.show_level { "["@ + name_spec(level) + "] "@ } else { seq![] };
        let body = if c.show_color {
            emoji_spec(level) + " "@ + color_spec(level) + message + "\x1b[0m"@
        } else {
            emoji_spec(level) + " "@ + message
        };
        Some(t + l + body)
    }
}

/// A message shown at one level is shown at every level above it, and
/// only a message below the minimum level is hidden.
pub proof fn law_shown_levels_are_upward_closed(c: LogConfig, a: LogLevel, b: LogLevel, m: Seq<char>, stamp: Seq<char>)
    requires
        rank_spec(a) <= rank_spec(b),
    ensures
        line_for(c, a, m, stamp) is Some ==> line_for(c, b, m, stamp) is Some,
        line_for(c, a, m, stamp) is None <==> rank_spec(a) < rank_spec(c.min_level),
{
}

/// `n` copies of `c`.
pub open spec fn repeat_char(c: char, n: nat) -> Seq<char> {
    Seq::new(n, |i: int| c)
}

/// `title` centred in a field of 57 characters, as `{:^57}` pads it.
pub open spec fn centered57(title: Seq<char>) -> Seq<char> {
    if title.len() >= 57 {
        title
    } else {
        let pad = (57 - title.len()) as nat;
        repeat_char(' ', pad / 2) + title + repeat_char(' ', (pad - pad / 2) as nat)
    }
}

/// The three lines of a header box around `title`.
pub open spec fn header_lines(title: Seq<char>) -> Seq<Seq<char>> {
    seq![
        "\n╔"@ + repeat_char('═', 59) + "╗"@,
        "║ "@ + centered57(title) + " ║"@,
        "╚"@ + repeat_char('═', 59) + "╝"@,
    ]
}

fn push_repeat(s: &mut String, c: char, n: usize)
    ensures
        final(s)@ == old(s)@ + repeat_char(c, n as nat),
{
    let ghost start = s@;
    let mut i: usize = 0;
    while i < n
        invariant
            i <= n,
            s@ == start + repeat_char(c, i as nat),
        decreases n - i,
    {
        push_char(s, c);
        i = i + 1;
        assert(s@ =~= start + repeat_char(c, i as nat));
    }
}

/// The log manager: the active configuration.
pub struct LogManager {
    config: LogConfig,
}

impl LogManager {
    pub closed spec fn spec_config(&self) -> LogConfig {
        self.config
    }

    /// A manager with the default (production) configuration.
    pub fn new() -> (res: Self)
        ensures
            res.spec_config() == LogConfig::production_spec(),
    {
        LogManager { config: LogConfig::default() }
    }

    /// Replaces the configuration.
    pub fn set_config(&mut self, config: LogConfig)
        ensures
            final(self).spec_config() == config,
    {
        self.config = config;
    }

    /// The configuration.
    pub fn get_config(&self) -> (res: LogConfig)
        ensures
            res == self.spec_config(),
    {
        self.config
    }

    /// A message of this level is shown.
    pub fn enabled(&self, level: LogLevel) -> (res: bool)
        ensures
            res == (rank_spec(level) >= rank_spec(self.spec_config().min_level)),
    {
        level.rank() >= self.config.min_level.rank()
    }

    /// The line to print for a message, or `None` when its level is below
    /// the minimum. `stamp` is the timestamp text (seconds with three decimals).
    pub fn render(&self, level: LogLevel, message: &str, stamp: &str) -> (res: Option<String>)
        ensures
            match res {
                None => line_for(self.spec_config(), level, message@, stamp@) is None,
                Some(s) => line_for(self.spec_config(), level, message@, stamp@) == Some(s@),
            },
    {
        if !self.enabled(level) {
            return None;
        }
        let mut out = String::new();
        if self.config.show_timestamp {
            out.append("[");
            out.append(stamp);
            out.append("s] ");
        }
        if self.config.show_level {
            out.append("[");
            let name = level.to_string();
            out.append(name.as_str());
            out.append("] ");
        }
        out.append(level.emoji());
        out.append(" ");
        if self.config.show_color {
            out.append(level.color_code());
            out.append(message);
            out.append("\x1b[0m");
        } else {
            out.append(message);
        }
        assert(Some(out@) =~= line_for(self.spec_config(), level, message@, stamp@));
        Some(out)
    }

    /// The detail lines printed after a message: `  → key: value` each,
    /// when the message is shown.
    pub fn detail_lines(&self, level: LogLevel, details: &[(&str, &str)]) -> (res: Vec<String>)
        ensures
            res@.len() == if rank_spec(level) >= rank_spec(self.spec_config().min_level) {
                details@.len()
            } else {
                0
            },
            forall|i: int|
                0 <= i < res@.len() ==> (#[trigger] res@[i])@ == "  → "@ + details@[i].0@ + ": "@
                    + details@[i].1@,
    {
        let mut out: Vec<String> = Vec::new();
        if !self.enabled(level) {
            return out;
        }
        let mut i: usize = 0;
        while i < details.len()
            invariant
                i <= details@.len(),
                out@.len() == i,
                forall|j: int|
                    0 <= j < i ==> (#[trigger] out@[j])@ == "  → "@ + details@[j].0@ + ": "@ + details@[j].1@,
            decreases details@.len() - i,
        {
            let (k, v) = details[i];
            let mut s = concat2("  → ", k);
            s.append(": ");
            s.append(v);
            out.push(s);
            i = i + 1;
        }
        out
    }

    /// The separator line, shown when verbose messages are.
    pub fn separator(&self) -> (res: Option<String>)
        ensures
            match res {
                None => rank_spec(self.spec_config().min_level) > 1,
                Some(s) => rank_spec(self.spec_config().min_level) <= 1 && s@ == repeat_char('─', 60),
            },
    {
        if self.config.min_level.rank() <= 1 {
            let mut s = String::new();
            push_repeat(&mut s, '─', 60);
            Some(s)
        } else {
            None
        }
    }

    /// The header box around a title, shown when information messages are.
    pub fn header(&self, title: &str) -> (res: Option<Vec<String>>)
        ensures
            match res {
                None => rank_spec(self.spec_config().min_level) > 2,
                Some(v) => rank_spec(self.spec_config().min_level) <= 2 && crate::text::views(v@)
                    == header_lines(title@),
            },
    {
        if self.config.min_level.rank() > 2 {
            return None;
        }
        let mut top = owned("\n╔");
        push_repeat(&mut top, '═', 59);
        top.append("╗");
        let mut mid = owned("║ ");
        let n = title.unicode_len();
        if n >= 57 {
            mid.append(title);
        } else {
            let pad: usize = 57 - n;
            push_repeat(&mut mid, ' ', pad / 2);
            mid.append(title);
            push_repeat(&mut mid, ' ', pad - pad / 2);
        }
        mid.append(" ║");
        assert(mid@ =~= "║ "@ + centered57(title@) + " ║"@);
        let mut bottom = owned("╚");
        push_repeat(&mut bottom, '═', 59);
        bottom.append("╝");
        assert(top@ =~= "\n╔"@ + repeat_char('═', 59) + "╗"@);
        assert(bottom@ =~= "╚"@ + repeat_char('═', 59) + "╝"@);
        let mut v: Vec<String> = Vec::new();
        crate::text::push_msg(&mut v, top);
        crate::text::push_msg(&mut v, mid);
        crate::text::push_msg(&mut v, bottom);
        assert(crate::text::views(v@) =~= header_lines(title@));
        Some(v)
    }
}

} // verus!
