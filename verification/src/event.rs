use std::fmt::Write;
use vstd::prelude::*;
use crate::paths::{opt_view, path_with_extension, path_with_extension_of};
use crate::NesResult;

verus! {

/// The emulator's own commands that keys can be bound to.
#[derive(Debug, Copy, Clone, PartialEq, Eq, Hash, Structural)]
pub enum Keybind {
    TogglePause,
    ToggleFullscreen,
    ToggleVsync,
    ToggleNtsc,
    ToggleSound,
    TogglePulse1,
    TogglePulse2,
    ToggleTriangle,
    ToggleNoise,
    ToggleDmc,
    ToggleRecording,
    FastFoward,
    IncSpeed,
    DecSpeed,
    Rewind,
    OpenHelp,
    OpenConfig,
    OpenRom,
    Quit,
    Reset,
    PowerCycle,
    ToggleDebugger,
    ToggleNtViewer,
    TogglePpuViewer,
    StepInto,
    StepOver,
    StepOut,
    StepFrame,
    StepScanline,
    SetSaveSlot(usize),
    SaveState,
    LoadState,
    TakeScreenshot,
    IncScanline,
    DecScanline,
    ButtonA,
    ButtonB,
    ButtonATurbo,
    ButtonBTurbo,
    ButtonSelect,
    ButtonStart,
    ButtonUp,
    ButtonDown,
    ButtonLeft,
    ButtonRight,
    Zapper,
}

/// Handles a key press, given whether the window has focus and the command
/// that the configuration binds the key to, if any. Only a focused window
/// takes keys, and no bound command is carried out on a press yet: the press
/// always succeeds and changes nothing.
pub fn handle_key_pressed(focused: bool, bound: Option<Keybind>) -> (r: NesResult<()>)
    ensures
        r is Ok,
{
    if !focused {
        return Ok(());
    }
    if let Some(action) = bound {
        match action {
            _ => {},  // No command acts on a key press.
        }
    }
    Ok(())
}

/// Handles a key release, given whether the window has focus: it always
/// succeeds and changes nothing.
pub fn handle_key_released(focused: bool) -> (r: NesResult<()>)
    ensures
        r is Ok,
{
    if !focused {
        return Ok(());
    }
    Ok(())
}

/// What chrono gives for the date and time year-month-day hour:minute:second
/// formatted with the strftime `pattern`, or `None` for a date or time that
/// does not exist or a pattern that chrono cannot format.
pub uninterp spec fn formatted_date_time(
    year: int,
    month: int,
    day: int,
    hour: int,
    minute: int,
    second: int,
    pattern: Seq<char>,
) -> Option<Seq<char>>;

/// Whether `year` is a leap year of the proleptic Gregorian calendar.
pub open spec fn is_leap_year(year: int) -> bool {
    year % 4 == 0 && (year % 100 != 0 || year % 400 == 0)
}

/// The number of days of `month` (1 to 12) in `year`.
pub open spec fn days_in_month(year: int, month: int) -> int {
    if month == 2 {
        if is_leap_year(year) { 29 } else { 28 }
    } else if month == 4 || month == 6 || month == 9 || month == 11 {
        30
    } else {
        31
    }
}

/// Whether the calendar day and the time of day exist (without leap seconds).
pub open spec fn date_time_exists(year: int, month: int, day: int, hour: int, minute: int, second: int) -> bool {
    &&& 1 <= month <= 12
    &&& 1 <= day <= days_in_month(year, month)
    &&& 0 <= hour < 24
    &&& 0 <= minute < 60
    &&& 0 <= second < 60
}

/// The decimal digits of `n` (0 or more), padded with zeros to `width` digits
/// (only the last `width` digits are kept).
pub open spec fn zero_padded(n: int, width: nat) -> Seq<char>
    decreases width,
{
    if width == 0 {
        Seq::empty()
    } else {
        zero_padded(n / 10, (width - 1) as nat).push(((n % 10) + ('0' as int)) as char)
    }
}

/// The screenshot pattern's text for a date and time with a year from 0 to
/// 9999: each field zero-padded, the year to four digits, the others to two.
pub open spec fn screenshot_stamp(year: int, month: int, day: int, hour: int, minute: int, second: int) -> Seq<char> {
    "Screen_Shot_"@ + zero_padded(year, 4) + "-"@ + zero_padded(month, 2) + "-"@ + zero_padded(day, 2)
        + "_at_"@ + zero_padded(hour, 2) + "_"@ + zero_padded(minute, 2) + "_"@ + zero_padded(second, 2)
}

/// chrono's `NaiveDate::from_ymd_opt`, `NaiveDate::and_hms_opt` and
/// `NaiveDateTime::format`, written out: the date and time given by their
/// fields, formatted with `pattern`. The contract names the result. As the
/// documentation says, it is `None` for a day or time of day that does not
/// exist; and with the screenshot pattern and a year from 0 to 9999, the
/// strftime fields `%Y %m %d %H %M %S` give the fields zero-padded.
#[verifier::external_body]
pub fn format_date_time(year: i32, month: u32, day: u32, hour: u32, minute: u32, second: u32, pattern: &str) -> (r: Option<String>)
    ensures
        opt_view(r) == formatted_date_time(
            year as int,
            month as int,
            day as int,
            hour as int,
            minute as int,
            second as int,
            pattern@,
        ),
        !date_time_exists(year as int, month as int, day as int, hour as int, minute as int, second as int)
            ==> r is None,
        date_time_exists(year as int, month as int, day as int, hour as int, minute as int, second as int)
            && 0 <= year <= 9999 && pattern@ == screenshot_pattern() ==> opt_view(r) == Some(
            screenshot_stamp(year as int, month as int, day as int, hour as int, minute as int, second as int),
        ),
{
    let t = chrono::NaiveDate::from_ymd_opt(year, month, day).and_then(|d| d.and_hms_opt(hour, minute, second))?;
    let mut s = String::new();
    match write!(s, "{}", t.format(pattern)) {
        Ok(()) => Some(s),
        Err(_) => None,
    }
}

/// The pattern that screenshots are named by.
pub open spec fn screenshot_pattern() -> Seq<char> {
    "Screen_Shot_%Y-%m-%d_at_%H_%M_%S"@
}

/// A zero-padded number holds digits alone.
proof fn lemma_zero_padded_digits(n: int, width: nat)
    requires
        0 <= n,
    ensures
        forall|i: int| 0 <= i < zero_padded(n, width).len() ==> '0' <= #[trigger] zero_padded(n, width)[i] <= '9',
        zero_padded(n, width).len() == width,
    decreases width,
{
    if width > 0 {
        lemma_zero_padded_digits(n / 10, (width - 1) as nat);
    }
}

/// A screenshot stamp is a single file name without a `.`.
proof fn lemma_stamp_is_one_name(year: int, month: int, day: int, hour: int, minute: int, second: int)
    requires
        0 <= year,
        0 <= month,
        0 <= day,
        0 <= hour,
        0 <= minute,
        0 <= second,
    ensures
        screenshot_stamp(year, month, day, hour, minute, second).len() > 0,
        !screenshot_stamp(year, month, day, hour, minute, second).contains('/'),
        !screenshot_stamp(year, month, day, hour, minute, second).contains('\\'),
        !screenshot_stamp(year, month, day, hour, minute, second).contains(':'),
        !screenshot_stamp(year, month, day, hour, minute, second).contains('.'),
{
    reveal_strlit("Screen_Shot_");
    reveal_strlit("-");
    reveal_strlit("_at_");
    reveal_strlit("_");
    lemma_zero_padded_digits(year, 4);
    lemma_zero_padded_digits(month, 2);
    lemma_zero_padded_digits(day, 2);
    lemma_zero_padded_digits(hour, 2);
    lemma_zero_padded_digits(minute, 2);
    lemma_zero_padded_digits(second, 2);
    let s = screenshot_stamp(year, month, day, hour, minute, second);
    assert forall|c: char| c == '/' || c == '\\' || c == ':' || c == '.' implies !s.contains(c) by {
        if s.contains(c) {
            let i = choose|i: int| 0 <= i < s.len() && s[i] == c;
            assert(false);
        }
    }
}

/// The file that a screenshot taken at the time written as `stamp` is saved
/// to: `stamp` with the extension `png`.
pub fn screenshot_path(stamp: &str) -> (path: String)
    ensures
        path@ == path_with_extension_of(stamp@, "png"@),
        stamp@.len() > 0 && !stamp@.contains('/') && !stamp@.contains('\\') && !stamp@.contains(':')
            && !stamp@.contains('.') ==> path@ == stamp@ + ".png"@,
{
    proof {
        reveal_strlit("png");
        reveal_strlit(".");
        reveal_strlit(".png");
        assert(".png"@ =~= "."@ + "png"@);
        assert(stamp@ + "."@ + "png"@ =~= stamp@ + ".png"@);
    }
    path_with_extension(stamp, "png")
}

/// The file, in the current directory, that a screenshot taken at the local
/// date and time given by its fields is saved to: the time formatted as
/// `Screen_Shot_%Y-%m-%d_at_%H_%M_%S`, with the extension `png`; `None` where
/// that date or time does not exist.
pub fn screenshot_file(year: i32, month: u32, day: u32, hour: u32, minute: u32, second: u32) -> (path: Option<String>)
    ensures
        path matches Some(p) ==> (formatted_date_time(
            year as int,
            month as int,
            day as int,
            hour as int,
            minute as int,
            second as int,
            screenshot_pattern(),
        ) matches Some(stamp) && p@ == path_with_extension_of(stamp, "png"@)),
        path is None <==> formatted_date_time(
            year as int,
            month as int,
            day as int,
            hour as int,
            minute as int,
            second as int,
            screenshot_pattern(),
        ) is None,
        !date_time_exists(year as int, month as int, day as int, hour as int, minute as int, second as int)
            ==> path is None,
        date_time_exists(year as int, month as int, day as int, hour as int, minute as int, second as int)
            && 0 <= year <= 9999 ==> (path matches Some(p) && p@ == screenshot_stamp(
            year as int,
            month as int,
            day as int,
            hour as int,
            minute as int,
            second as int,
        ) + ".png"@),
{
    match format_date_time(year, month, day, hour, minute, second, "Screen_Shot_%Y-%m-%d_at_%H_%M_%S") {
        Some(stamp) => {
            proof {
                if 0 <= year <= 9999 && date_time_exists(year as int, month as int, day as int, hour as int, minute as int, second as int) {
                    lemma_stamp_is_one_name(year as int, month as int, day as int, hour as int, minute as int, second as int);
                }
            }
            Some(screenshot_path(stamp.as_str()))
        },
        None => None,
    }
}

} // verus!
