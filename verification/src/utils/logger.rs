//! Log levels, the level filter, and the layout of console and file log
//! lines. Clocks, the console and files are the caller's.
use crate::utils::text::{lowercase, lowercase_chars, push_char, push_str, str_eq, string_of};
use vstd::prelude::*;

verus! {

/// Severity of a log message; `NoLog` turns logging off.
#[derive(Debug, Clone, Copy, PartialEq, Eq, Structural)]
pub enum LogLevel {
    Debug,
    Info,
    Warn,
    Error,
    NoLog,
}

/// The rank of a level: 0 to 3 for debug to error, 99 for no logging.
pub open spec fn level_rank(l: LogLevel) -> u8 {
    match l {
        LogLevel::Debug => 0,
        LogLevel::Info => 1,
        LogLevel::Warn => 2,
        LogLevel::Error => 3,
        LogLevel::NoLog => 99,
    }
}

/// The name of a level.
pub open spec fn level_name(l: LogLevel) -> Seq<char> {
    match l {
        LogLevel::Debug => "DEBUG"@,
        LogLevel::Info => "INFO"@,
        LogLevel::Warn => "WARN"@,
        LogLevel::Error => "ERROR"@,
        LogLevel::NoLog => "NOLOG"@,
    }
}

/// The level a (lower-case) name selects; unknown names mean info.
pub open spec fn level_of_name(s: Seq<char>) -> LogLevel {
    if s == "debug"@ || s == "trace"@ {
        LogLevel::Debug
    } else if s == "warn"@ || s == "warning"@ {
        LogLevel::Warn
    } else if s == "error"@ || s == "fatal"@ {
        LogLevel::Error
    } else if s == "nolog"@ || s == "off"@ {
        LogLevel::NoLog
    } else {
        LogLevel::Info
    }
}

impl LogLevel {
    /// The level a name selects, ignoring case.
    pub fn from_str(s: &str) -> (l: Self)
        ensures
            l == level_of_name(lowercase_chars(s@)),
    {
        let lower = lowercase(s);
        Self::from_lowercase(lower.as_str())
    }

    /// The level a lower-case name selects.
    pub fn from_lowercase(s: &str) -> (l: Self)
        ensures
            l == level_of_name(s@),
    {
        if str_eq(s, "debug") || str_eq(s, "trace") {
            LogLevel::Debug
        } else if str_eq(s, "warn") || str_eq(s, "warning") {
            LogLevel::Warn
        } else if str_eq(s, "error") || str_eq(s, "fatal") {
            LogLevel::Error
        } else if str_eq(s, "nolog") || str_eq(s, "off") {
            LogLevel::NoLog
        } else {
            LogLevel::Info
        }
    }

    /// The name of the level.
    pub fn to_str(&self) -> (s: &'static str)
        ensures
            s@ == level_name(*self),
    {
        match self {
            LogLevel::Debug => "DEBUG",
            LogLevel::Info => "INFO",
            LogLevel::Warn => "WARN",
            LogLevel::Error => "ERROR",
            LogLevel::NoLog => "NOLOG",
        }
    }

    /// The rank of the level.
    pub fn rank(&self) -> (r: u8)
        ensures
            r == level_rank(*self),
    {
        match self {
            LogLevel::Debug => 0,
            LogLevel::Info => 1,
            LogLevel::Warn => 2,
            LogLevel::Error => 3,
            LogLevel::NoLog => 99,
        }
    }
}

/// Logger settings.
#[derive(Debug, Clone)]
pub struct LoggerOptions {
    pub level: LogLevel,
    pub enabled: bool,
    pub log_to_file: bool,
    pub log_dir: String,
    pub log_filename: String,
}

impl LoggerOptions {
    /// Info level, enabled, console only, directory `./logs`.
    pub fn default() -> (o: Self)
        ensures
            o.level == LogLevel::Info,
            o.enabled,
            !o.log_to_file,
            o.log_dir@ == "./logs"@,
            o.log_filename@.len() == 0,
    {
        LoggerOptions {
            level: LogLevel::Info,
            enabled: true,
            log_to_file: false,
            log_dir: string_of("./logs"),
            log_filename: String::new(),
        }
    }

    /// The settings with the given ones replaced.
    pub fn setup(
        self,
        level: Option<String>,
        log_to_file: Option<bool>,
        log_dir: Option<String>,
        log_filename: Option<String>,
    ) -> (o: Self)
        ensures
            o.level == (match level {
                Some(l) => level_of_name(lowercase_chars(l@)),
                None => self.level,
            }),
            o.log_to_file == (match log_to_file {
                Some(b) => b,
                None => self.log_to_file,
            }),
            o.log_dir@ == (match log_dir {
                Some(d) => d@,
                None => self.log_dir@,
            }),
            o.log_filename@ == (match log_filename {
                Some(f) => f@,
                None => self.log_filename@,
            }),
            o.enabled == self.enabled,
    {
        let mut o = self;
        match level {
            Some(l) => {
                o.level = LogLevel::from_str(l.as_str());
            },
            None => {},
        }
        match log_to_file {
            Some(b) => {
                o.log_to_file = b;
            },
            None => {},
        }
        match log_dir {
            Some(d) => {
                o.log_dir = d;
            },
            None => {},
        }
        match log_filename {
            Some(f) => {
                o.log_filename = f;
            },
            None => {},
        }
        o
    }

    /// Whether a message of `level` is logged: logging enabled and not
    /// off, and the message at least as severe as the setting.
    pub fn should_log(&self, level: LogLevel) -> (r: bool)
        ensures
            r == (self.enabled && self.level != LogLevel::NoLog && level_rank(level) >= level_rank(self.level)),
    {
        self.enabled && self.level != LogLevel::NoLog && level.rank() >= self.level.rank()
    }

    /// The name of the log file for a date `yyyy-mm-dd`: the date, or the
    /// date and the configured name, with `.log`.
    pub fn file_name(&self, date: &str) -> (s: String)
        ensures
            s@ == date@ + (if self.log_filename@.len() == 0 { Seq::empty() } else { seq!['-'] + self.log_filename@ }) + ".log"@,
    {
        let mut s = string_of(date);
        if self.log_filename.as_str().unicode_len() > 0 {
            push_char(&mut s, '-');
            push_str(&mut s, self.log_filename.as_str());
        }
        push_str(&mut s, ".log");
        assert(s@ =~= date@ + (if self.log_filename@.len() == 0 { Seq::empty() } else { seq!['-'] + self.log_filename@ }) + ".log"@);
        s
    }
}

/// A named logger.
#[derive(Clone, Debug)]
pub struct Logger {
    pub module_name: String,
}

/// The colour escape of a level on the console.
pub open spec fn level_color(l: LogLevel) -> Seq<char> {
    match l {
        LogLevel::Debug => "\x1b[36m"@,
        LogLevel::Info => "\x1b[32m"@,
        LogLevel::Warn => "\x1b[33m"@,
        LogLevel::Error => "\x1b[31m"@,
        LogLevel::NoLog => "\x1b[0m"@,
    }
}

impl Logger {
    /// A logger for a module.
    pub fn new(module_name: &str) -> (l: Self)
        ensures
            l.module_name@ == module_name@,
    {
        Logger { module_name: string_of(module_name) }
    }

    /// A logger for a part of this logger's module: `module/part`.
    pub fn child(&self, module_name: &str) -> (l: Self)
        ensures
            l.module_name@ == self.module_name@ + seq!['/'] + module_name@,
    {
        let mut s = string_of(self.module_name.as_str());
        push_char(&mut s, '/');
        push_str(&mut s, module_name);
        assert(s@ =~= self.module_name@ + seq!['/'] + module_name@);
        Logger { module_name: s }
    }

    /// The console line: colour, time, module and level, reset, message.
    pub fn console_line(&self, level: LogLevel, time: &str, msg: &str) -> (s: String)
        ensures
            s@ == level_color(level) + time@ + " ["@ + self.module_name@ + "] ["@ + level_name(level) + "]"@ + "\x1b[0m"@ + seq![' '] + msg@,
    {
        let color = match level {
            LogLevel::Debug => "\x1b[36m",
            LogLevel::Info => "\x1b[32m",
            LogLevel::Warn => "\x1b[33m",
            LogLevel::Error => "\x1b[31m",
            LogLevel::NoLog => "\x1b[0m",
        };
        let mut s = string_of(color);
        push_str(&mut s, time);
        push_str(&mut s, " [");
        push_str(&mut s, self.module_name.as_str());
        push_str(&mut s, "] [");
        push_str(&mut s, level.to_str());
        push_str(&mut s, "]");
        push_str(&mut s, "\x1b[0m");
        push_char(&mut s, ' ');
        push_str(&mut s, msg);
        assert(s@ =~= level_color(level) + time@ + " ["@ + self.module_name@ + "] ["@ + level_name(level) + "]"@ + "\x1b[0m"@ + seq![' '] + msg@);
        s
    }

    /// The file line: time, module and level, and the message without
    /// colour escapes.
    pub fn file_line(&self, level: LogLevel, time: &str, msg: &str) -> (s: String)
        ensures
            s@ == time@ + " ["@ + self.module_name@ + "] ["@ + level_name(level) + "] "@ + strip_ansi_spec(msg@, false),
    {
        let mut s = string_of(time);
        push_str(&mut s, " [");
        push_str(&mut s, self.module_name.as_str());
        push_str(&mut s, "] [");
        push_str(&mut s, level.to_str());
        push_str(&mut s, "] ");
        let clean = strip_ansi_escapes(msg);
        push_str(&mut s, clean.as_str());
        assert(s@ =~= time@ + " ["@ + self.module_name@ + "] ["@ + level_name(level) + "] "@ + strip_ansi_spec(msg@, false));
        s
    }
}

/// `s` without the escapes `ESC [ ... m`; `in_escape` tells whether an
/// escape is open at the start.
pub open spec fn strip_ansi_spec(s: Seq<char>, in_escape: bool) -> Seq<char>
    decreases s.len(),
{
    if s.len() == 0 {
        Seq::empty()
    } else if s[0] == '\x1b' && s.len() > 1 && s[1] == '[' {
        strip_ansi_spec(s.subrange(2, s.len() as int), true)
    } else if in_escape {
        strip_ansi_spec(s.drop_first(), s[0] != 'm')
    } else {
        seq![s[0]] + strip_ansi_spec(s.drop_first(), false)
    }
}

/// Removes colour escapes from a message.
pub fn strip_ansi_escapes(s: &str) -> (r: String)
    ensures
        r@ == strip_ansi_spec(s@, false),
{
    let cs = crate::utils::text::chars_of(s);
    let n = cs.len();
    let mut out = String::new();
    let mut in_escape = false;
    let mut i: usize = 0;
    assert(cs@.subrange(0, n as int) =~= s@);
    assert(out@ =~= Seq::<char>::empty());
    assert(out@ + strip_ansi_spec(cs@.subrange(0, n as int), false) =~= strip_ansi_spec(s@, false));
    while i < n
        invariant
            n == cs@.len(),
            cs@ == s@,
            i <= n,
            out@ + strip_ansi_spec(cs@.subrange(i as int, n as int), in_escape) == strip_ansi_spec(s@, false),
        decreases n - i,
    {
        let ghost rest = cs@.subrange(i as int, n as int);
        let c = cs[i];
        if c == '\x1b' && i + 1 < n && cs[i + 1] == '[' {
            assert(rest.subrange(2, rest.len() as int) =~= cs@.subrange(i + 2, n as int));
            in_escape = true;
            i = i + 2;
        } else if in_escape {
            assert(rest.drop_first() =~= cs@.subrange(i + 1, n as int));
            if c == 'm' {
                in_escape = false;
            }
            i = i + 1;
        } else {
            assert(rest.drop_first() =~= cs@.subrange(i + 1, n as int));
            push_char(&mut out, c);
            assert(out@ + strip_ansi_spec(cs@.subrange(i + 1, n as int), in_escape) =~= strip_ansi_spec(s@, false));
            i = i + 1;
        }
    }
    assert(cs@.subrange(n as int, n as int) =~= Seq::<char>::empty());
    assert(out@ + Seq::<char>::empty() =~= out@);
    out
}

} // verus!
