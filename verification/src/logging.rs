//! The log file: how it is opened, which records it takes, and the lines it is made of.

use vstd::prelude::*;
use vstd::string::*;

use crate::config::FileIn;
use crate::next::Next;

verus! {

/// The name of the log file in the folder of the application.
pub const LOG_FILE: &'static str = "log.txt";

/// The most verbose level of records that the log takes.
#[derive(Clone, Copy, Debug, PartialEq, Eq, Structural)]
pub enum LevelFilter {
    Off,
    Error,
    Warn,
    Info,
    Debug,
    Trace,
}

/// The level of a record.
#[derive(Clone, Copy, Debug, PartialEq, Eq, Structural)]
pub enum Level {
    Error,
    Warn,
    Info,
    Debug,
    Trace,
}

/// A moment, as the clocks where the application runs show it.
#[derive(Clone, Copy, Debug, PartialEq, Eq, Structural)]
pub struct LocalTime {
    pub year: i32,
    pub month: u32,
    pub day: u32,
    pub hour: u32,
    pub minute: u32,
    pub second: u32,
}

/// How a file is opened.
#[derive(Clone, Copy, Debug, PartialEq, Eq, Structural)]
pub struct OpenOptions {
    /// A missing file is created.
    pub create: bool,
    /// The file is opened for writing.
    pub write: bool,
    /// What is written goes behind what the file holds.
    pub append: bool,
    /// What the file holds is thrown away.
    pub truncate: bool,
}

/// How the log file is opened, by whether it is to start empty.
pub open spec fn log_options(clear: bool) -> OpenOptions {
    OpenOptions { create: true, write: true, append: !clear, truncate: clear }
}

/// The first step of setting up the log: create the folder, and all the folders that it
/// lies in.
#[derive(Debug)]
pub struct LogFolder<'a, P> {
    pub folder: &'a P,
    pub options: OpenOptions,
    pub level: LevelFilter,
}

/// The second step of setting up the log: open the file in this way.
#[derive(Debug)]
pub struct OpenLog<'a, P> {
    pub file: FileIn<'a, P>,
    pub options: OpenOptions,
    pub level: LevelFilter,
}

/// The last step of setting up the log: send the records up to this level to the file.
#[derive(Debug)]
pub struct InstallLog {
    pub level: LevelFilter,
}

impl<'a, P> LogFolder<'a, P> {
    /// The first step of setting up a log in this folder.
    pub fn new(folder: &'a P, clear: bool, level: LevelFilter) -> (step: Self)
        ensures
            step == (LogFolder { folder, options: log_options(clear), level }),
    {
        LogFolder {
            folder,
            options: OpenOptions { create: true, write: true, append: !clear, truncate: clear },
            level,
        }
    }

    /// How setting up the log goes on.
    pub open spec fn spec_created(self, created: bool) -> Next<OpenLog<'a, P>, Option<()>> {
        if created {
            Next::Perform(
                OpenLog {
                    file: FileIn { folder: self.folder, name: LOG_FILE },
                    options: self.options,
                    level: self.level,
                },
            )
        } else {
            Next::Return(None)
        }
    }

    /// Goes on once the folder is there, or could not be created.
    pub fn created(self, created: bool) -> (next: Next<OpenLog<'a, P>, Option<()>>)
        ensures
            next == self.spec_created(created),
    {
        if created {
            Next::Perform(
                OpenLog {
                    file: FileIn { folder: self.folder, name: LOG_FILE },
                    options: self.options,
                    level: self.level,
                },
            )
        } else {
            Next::Return(None)
        }
    }
}

impl<'a, P> OpenLog<'a, P> {
    /// How setting up the log goes on.
    pub open spec fn spec_opened(self, opened: bool) -> Next<InstallLog, Option<()>> {
        if opened {
            Next::Perform(InstallLog { level: self.level })
        } else {
            Next::Return(None)
        }
    }

    /// Goes on once the file is open, or could not be opened.
    pub fn opened(self, opened: bool) -> (next: Next<InstallLog, Option<()>>)
        ensures
            next == self.spec_opened(opened),
    {
        if opened {
            Next::Perform(InstallLog { level: self.level })
        } else {
            Next::Return(None)
        }
    }
}

impl InstallLog {
    /// What came of setting up the log.
    pub open spec fn spec_installed(self, installed: bool) -> Option<()> {
        if installed {
            Some(())
        } else {
            None
        }
    }

    /// Ends once the log takes records, or could not be installed.
    pub fn installed(self, installed: bool) -> (done: Option<()>)
        ensures
            done == self.spec_installed(installed),
    {
        if installed {
            Some(())
        } else {
            None
        }
    }
}

impl Level {
    /// How the log writes the level.
    pub open spec fn text(self) -> Seq<char> {
        match self {
            Level::Error => "ERROR"@,
            Level::Warn => "WARN"@,
            Level::Info => "INFO"@,
            Level::Debug => "DEBUG"@,
            Level::Trace => "TRACE"@,
        }
    }
}

/// Calls `log::Level::as_str`. Claimed of it: the text is the name of the level in capital
/// letters.
#[verifier::external_body]
fn log_level_text(level: Level) -> (text: &'static str)
    ensures
        text@ == level.text(),
{
    let level = match level {
        Level::Error => log::Level::Error,
        Level::Warn => log::Level::Warn,
        Level::Info => log::Level::Info,
        Level::Debug => log::Level::Debug,
        Level::Trace => log::Level::Trace,
    };
    level.as_str()
}

/// The number of days of a month in the Gregorian calendar.
pub open spec fn days_in_month(year: int, month: int) -> int {
    if month == 2 {
        if year % 4 == 0 && (year % 100 != 0 || year % 400 == 0) {
            29
        } else {
            28
        }
    } else if month == 4 || month == 6 || month == 9 || month == 11 {
        30
    } else {
        31
    }
}

/// The decimal digits of a number.
pub open spec fn digits(n: nat) -> Seq<char>
    decreases n,
{
    let last = (48 + n % 10) as char;
    if n < 10 {
        seq![last]
    } else {
        digits(n / 10).push(last)
    }
}

/// The decimal digits of a number, behind as many zeros as it takes to make `width` digits.
pub open spec fn padded(n: nat, width: nat) -> Seq<char> {
    let zeros = if digits(n).len() < width {
        (width - digits(n).len()) as nat
    } else {
        0
    };
    Seq::new(zeros, |i: int| '0') + digits(n)
}

/// A year in four digits at least, with a sign where it is not from 0 to 9999.
pub open spec fn year_text(year: int) -> Seq<char> {
    if year < 0 {
        "-"@ + padded((-year) as nat, 4)
    } else if year > 9999 {
        "+"@ + padded(year as nat, 4)
    } else {
        padded(year as nat, 4)
    }
}

impl LocalTime {
    /// The date is one of the Gregorian calendar, within the years that dates are kept for,
    /// and the time is one that a clock shows.
    pub open spec fn exists_on_clocks(self) -> bool {
        &&& -262143 <= self.year <= 262142
        &&& 1 <= self.month <= 12
        &&& 1 <= self.day <= days_in_month(self.year as int, self.month as int)
        &&& self.hour < 24
        &&& self.minute < 60
        &&& self.second < 60
    }

    /// Year, month and day, then hour, minute and second, in square brackets.
    pub open spec fn text(self) -> Seq<char> {
        "["@ + year_text(self.year as int) + "-"@ + padded(self.month as nat, 2) + "-"@ + padded(
            self.day as nat,
            2,
        ) + " "@ + padded(self.hour as nat, 2) + ":"@ + padded(self.minute as nat, 2) + ":"@
            + padded(self.second as nat, 2) + "]"@
    }
}

/// The format of the timestamps in the log.
pub const TIMESTAMP_FORMAT: &'static str = "[%Y-%m-%d %H:%M:%S]";

/// Calls `chrono::NaiveDateTime::format` on the moment that `NaiveDate::from_ymd_opt` and
/// `NaiveDate::and_hms_opt` make of the numbers. Claimed of them: there is such a moment
/// exactly where the calendar and the clock know the numbers and the year is in chrono's
/// range, and this format writes each number in the decimal system, padded with zeros.
#[verifier::external_body]
fn chrono_format(time: &LocalTime, format: &str) -> (text: Option<String>)
    requires
        format@ == TIMESTAMP_FORMAT@,
    ensures
        text is Some <==> time.exists_on_clocks(),
        text matches Some(text) ==> text@ == time.text(),
{
    chrono::NaiveDate::from_ymd_opt(time.year, time.month, time.day)
        .and_then(|date| date.and_hms_opt(time.hour, time.minute, time.second))
        .map(|moment| moment.format(format).to_string())
}

/// The timestamp of a line in the log: none for a time that does not exist.
pub fn timestamp(time: &LocalTime) -> (text: Option<String>)
    ensures
        text is Some <==> time.exists_on_clocks(),
        text matches Some(text) ==> text@ == time.text(),
{
    chrono_format(time, TIMESTAMP_FORMAT)
}

/// A line of the log: the timestamp, then where the record comes from and its level, each in
/// square brackets, then a space and the message.
pub fn log_line(timestamp: &str, target: &str, level: Level, message: &str) -> (line: String)
    ensures
        line@ == timestamp@ + "["@ + target@ + "]["@ + level.text() + "] "@ + message@,
{
    let mut line = timestamp.to_owned();
    line.append("[");
    line.append(target);
    line.append("][");
    line.append(log_level_text(level));
    line.append("] ");
    line.append(message);
    line
}

/// The steps of setting up the log: the level and the way of opening are those that it began
/// with, the file is the log file in the folder, each step follows where the one before it
/// succeeded, and the log is set up once all have.
pub proof fn lemma_steps_of_logging<'a, P>(
    folder: &'a P,
    clear: bool,
    level: LevelFilter,
    first: LogFolder<'a, P>,
    step: LogFolder<'a, P>,
    created: bool,
    to_open: Next<OpenLog<'a, P>, Option<()>>,
    open: OpenLog<'a, P>,
    opened: bool,
    to_install: Next<InstallLog, Option<()>>,
    install: InstallLog,
    installed: bool,
    done: Option<()>,
)
    requires
        call_ensures(LogFolder::<'a, P>::new, (folder, clear, level), first),
        call_ensures(LogFolder::<'a, P>::created, (step, created), to_open),
        call_ensures(OpenLog::<'a, P>::opened, (open, opened), to_install),
        call_ensures(InstallLog::installed, (install, installed), done),
    ensures
        *first.folder == *folder && first.level == level,
        first.options.create && first.options.write,
        first.options.truncate == clear && first.options.append == !clear,
        created ==> (to_open matches Next::Perform(next) && *next.file.folder == *step.folder
            && next.file.name@ == "log.txt"@ && next.options == step.options && next.level
            == step.level),
        !created ==> (to_open matches Next::Return(failed) && failed is None),
        opened ==> (to_install matches Next::Perform(next) && next.level == open.level),
        !opened ==> (to_install matches Next::Return(failed) && failed is None),
        done is Some <==> installed,
{
}

/// A line of the log begins with the timestamp and ends with the message. Between them stand
/// where the record comes from and the name of its level.
pub proof fn lemma_line<'a>(
    timestamp: &'a str,
    target: &'a str,
    level: Level,
    message: &'a str,
    line: String,
)
    requires
        call_ensures(log_line, (timestamp, target, level, message), line),
    ensures
        timestamp@.is_prefix_of(line@),
        message@.is_suffix_of(line@),
        line@ == timestamp@ + seq!['['] + target@ + seq![']', '['] + (match level {
            Level::Error => seq!['E', 'R', 'R', 'O', 'R'],
            Level::Warn => seq!['W', 'A', 'R', 'N'],
            Level::Info => seq!['I', 'N', 'F', 'O'],
            Level::Debug => seq!['D', 'E', 'B', 'U', 'G'],
            Level::Trace => seq!['T', 'R', 'A', 'C', 'E'],
        }) + seq![']', ' '] + message@,
{
    reveal_strlit("[");
    reveal_strlit("][");
    reveal_strlit("] ");
    reveal_strlit("ERROR");
    reveal_strlit("WARN");
    reveal_strlit("INFO");
    reveal_strlit("DEBUG");
    reveal_strlit("TRACE");
    assert("["@ == seq!['[']);
    assert("]["@ == seq![']', '[']);
    assert("] "@ == seq![']', ' ']);
    assert(level.text() == match level {
        Level::Error => seq!['E', 'R', 'R', 'O', 'R'],
        Level::Warn => seq!['W', 'A', 'R', 'N'],
        Level::Info => seq!['I', 'N', 'F', 'O'],
        Level::Debug => seq!['D', 'E', 'B', 'U', 'G'],
        Level::Trace => seq!['T', 'R', 'A', 'C', 'E'],
    });
}

/// The number that decimal digits stand for.
pub open spec fn number(text: Seq<char>) -> int
    decreases text.len(),
{
    if text.len() == 0 {
        0
    } else {
        10 * number(text.drop_last()) + (text.last() as int - '0' as int)
    }
}

/// The text consists of decimal digits.
pub open spec fn is_decimal(text: Seq<char>) -> bool {
    forall|i: int| 0 <= i < text.len() ==> '0' <= #[trigger] text[i] <= '9'
}

/// The digits of a number stand for that number, and none of them is a leading zero.
pub proof fn lemma_digits(n: nat)
    ensures
        is_decimal(digits(n)),
        number(digits(n)) == n,
        digits(n).len() > 0,
        n < 10 <==> digits(n).len() == 1,
        n < 100 <==> digits(n).len() <= 2,
        n >= 10 ==> digits(n)[0] != '0',
    decreases n,
{
    reveal_with_fuel(number, 2);
    if n < 10 {
        assert(digits(n).drop_last() == Seq::<char>::empty());
    } else {
        lemma_digits(n / 10);
        assert(digits(n).drop_last() == digits(n / 10));
    }
    assert(digits(n).last() as int == '0' as int + n % 10);
}

proof fn lemma_leading_zeros(zeros: nat, text: Seq<char>)
    ensures
        number(Seq::new(zeros, |i: int| '0') + text) == number(text),
    decreases zeros + text.len(),
{
    let all = Seq::new(zeros, |i: int| '0') + text;
    if text.len() > 0 {
        assert(all.drop_last() == Seq::new(zeros, |i: int| '0') + text.drop_last());
        lemma_leading_zeros(zeros, text.drop_last());
    } else if zeros > 0 {
        let fewer = (zeros - 1) as nat;
        assert(all.drop_last() == Seq::new(fewer, |i: int| '0') + text);
        lemma_leading_zeros(fewer, text);
    }
}

/// A padded number stands for that number, and has the width, or as many digits as it takes.
pub proof fn lemma_padded(n: nat, width: nat)
    ensures
        is_decimal(padded(n, width)),
        number(padded(n, width)) == n,
        padded(n, width).len() >= width,
        padded(n, width).len() == width || padded(n, width) == digits(n),
{
    lemma_digits(n);
    if digits(n).len() < width {
        lemma_leading_zeros((width - digits(n).len()) as nat, digits(n));
    } else {
        assert(padded(n, width) == digits(n));
    }
}

/// A timestamp tells year, month, day, hour, minute and second, in this order, as numbers in
/// the decimal system: the year in four digits or more, the others in two. A year that four
/// digits cannot tell has a sign.
pub proof fn lemma_timestamp_tells_the_time(time: &LocalTime, text: String) -> (r: (
    (Seq<char>, Seq<char>, Seq<char>),
    (Seq<char>, Seq<char>, Seq<char>),
))
    requires
        call_ensures(timestamp, (time,), Some(text)),
    ensures
        ({
            let ((year, month, day), (hour, minute, second)) = r;
            &&& text@ == "["@ + (if time.year < 0 {
                "-"@ + year
            } else if time.year > 9999 {
                "+"@ + year
            } else {
                year
            }) + "-"@ + month + "-"@ + day + " "@ + hour + ":"@ + minute + ":"@ + second + "]"@
            &&& is_decimal(year) && year.len() >= 4 && number(year) == (if time.year < 0 {
                -time.year
            } else {
                time.year as int
            })
            &&& is_decimal(month) && month.len() == 2 && number(month) == time.month
            &&& is_decimal(day) && day.len() == 2 && number(day) == time.day
            &&& is_decimal(hour) && hour.len() == 2 && number(hour) == time.hour
            &&& is_decimal(minute) && minute.len() == 2 && number(minute) == time.minute
            &&& is_decimal(second) && second.len() == 2 && number(second) == time.second
        }),
{
    let size = if time.year < 0 {
        (-time.year) as nat
    } else {
        time.year as nat
    };
    lemma_padded(size, 4);
    lemma_two_digits(time.month as nat);
    lemma_two_digits(time.day as nat);
    lemma_two_digits(time.hour as nat);
    lemma_two_digits(time.minute as nat);
    lemma_two_digits(time.second as nat);
    (
        (padded(size, 4), padded(time.month as nat, 2), padded(time.day as nat, 2)),
        (
            padded(time.hour as nat, 2),
            padded(time.minute as nat, 2),
            padded(time.second as nat, 2),
        ),
    )
}

proof fn lemma_two_digits(n: nat)
    requires
        n < 100,
    ensures
        is_decimal(padded(n, 2)),
        number(padded(n, 2)) == n,
        padded(n, 2).len() == 2,
{
    lemma_padded(n, 2);
    lemma_digits(n);
}

/// There is a timestamp exactly for the days of the Gregorian calendar, in the years from
/// -262143 to 262142, and the seconds of a day. Months up to July are long where they are odd,
/// later ones where they are even; February has a day more in leap years.
pub proof fn lemma_timestamp_exists(time: &LocalTime, text: Option<String>)
    requires
        call_ensures(timestamp, (time,), text),
    ensures
        text is Some <==> {
            let leap = time.year as int % 4 == 0 && time.year as int % 100 != 0
                || time.year as int % 400 == 0;
            &&& -262143 <= time.year <= 262142
            &&& 1 <= time.month <= 12
            &&& 1 <= time.day
            &&& time.day <= 28 || time.month != 2 && time.day <= 30 || time.month == 2 && leap
                && time.day == 29 || time.day == 31 && (time.month <= 7 && time.month as int % 2
                == 1 || time.month > 7 && time.month as int % 2 == 0)
            &&& time.hour <= 23 && time.minute <= 59 && time.second <= 59
        },
{
}

} // verus!
