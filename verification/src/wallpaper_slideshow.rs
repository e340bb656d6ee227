//! Wallpaper slideshow rules: names, timing slots and the start-time
//! clock. GNOME's background subsystem plays the generated XML back.

use vstd::prelude::*;
use std::path::PathBuf;
use crate::paths::{is_absolute, join_path_text, join_text, path_from_string, path_from_text, path_is_absolute};
use crate::text::{is_control, owned, str_contains_char};
use vstd::string::StrSliceExecFns;

verus! {

/// Minimum picture hold time, in seconds.
pub const MIN_INTERVAL_SECONDS: u32 = 5;

/// Errors produced when constructing a slideshow.
#[derive(Debug, PartialEq, Eq)]
pub enum WallpaperSlideshowError {
    /// Fewer than two pictures.
    TooFewPictures,
    /// Interval under [`MIN_INTERVAL_SECONDS`].
    IntervalTooShort,
    /// A picture path was not absolute.
    RelativePath(PathBuf),
    /// Name isn't a safe file-system stem.
    InvalidName(String),
    /// Time-of-day transitions must strictly increase.
    TimesNotIncreasing,
}

/// `{s:?}`: the `Debug` rendering of a string (quoted, with escapes).
pub uninterp spec fn str_debug_text(s: Seq<char>) -> Seq<char>;

#[verifier::external_body]
fn str_debug(s: &str) -> (r: String)
    ensures
        r@ == str_debug_text(s@),
{
    format!("{s:?}")
}

/// The text `Path::display` shows for a path.
pub uninterp spec fn path_display_text(p: PathBuf) -> Seq<char>;

#[verifier::external_body]
fn display_text(p: &PathBuf) -> (r: String)
    ensures
        r@ == path_display_text(*p),
{
    format!("{}", p.display())
}

impl WallpaperSlideshowError {
    /// The display text of the error.
    pub open spec fn message(self) -> Seq<char> {
        match self {
            WallpaperSlideshowError::TooFewPictures => "slideshow needs at least two pictures"@,
            WallpaperSlideshowError::IntervalTooShort => "interval must be at least 5 seconds"@,
            WallpaperSlideshowError::RelativePath(p) => "picture path must be absolute: "@ + path_display_text(p),
            WallpaperSlideshowError::InvalidName(n) => "invalid slideshow name: "@ + str_debug_text(n@),
            WallpaperSlideshowError::TimesNotIncreasing => "sunrise/day/sunset/night times must be strictly increasing"@,
        }
    }

    /// Display text of the error; a refused name is shown quoted and
    /// escaped, a refused path as the path displays.
    pub fn to_string(&self) -> (r: String)
        ensures
            r@ == self.message(),
    {
        match self {
            WallpaperSlideshowError::TooFewPictures => owned("slideshow needs at least two pictures"),
            WallpaperSlideshowError::IntervalTooShort => owned("interval must be at least 5 seconds"),
            WallpaperSlideshowError::RelativePath(p) => {
                let mut out = owned("picture path must be absolute: ");
                let d = display_text(p);
                out.append(d.as_str());
                out
            },
            WallpaperSlideshowError::InvalidName(n) => {
                let mut out = owned("invalid slideshow name: ");
                let d = str_debug(n.as_str());
                out.append(d.as_str());
                out
            },
            WallpaperSlideshowError::TimesNotIncreasing => owned("sunrise/day/sunset/night times must be strictly increasing"),
        }
    }
}

/// A wall-clock time (hour:minute) within a 24-hour day.
#[derive(Debug, Clone, Copy, PartialEq, Eq, Structural)]
pub struct TimeOfDay {
    pub hour: u8,
    pub minute: u8,
}

impl TimeOfDay {
    pub open spec fn seconds_spec(self) -> nat {
        (self.hour as nat) * 3600 + (self.minute as nat) * 60
    }

    /// Out-of-range parts clamp to 23 / 59.
    pub fn new(hour: u8, minute: u8) -> (r: Self)
        ensures
            r.hour == if hour <= 23 { hour } else { 23 },
            r.minute == if minute <= 59 { minute } else { 59 },
    {
        TimeOfDay {
            hour: if hour <= 23 { hour } else { 23 },
            minute: if minute <= 59 { minute } else { 59 },
        }
    }

    /// Seconds since midnight.
    pub fn seconds_since_midnight(&self) -> (r: u32)
        ensures
            r == self.seconds_spec(),
    {
        (self.hour as u32) * 3600 + (self.minute as u32) * 60
    }
}

/// Playback mode: fixed interval, or four pictures pinned to sunrise /
/// day / sunset / night transitions.
#[derive(Debug, Clone, PartialEq, Eq)]
pub enum SlideshowMode {
    Interval,
    TimeOfDay {
        sunrise_at: TimeOfDay,
        day_at: TimeOfDay,
        sunset_at: TimeOfDay,
        night_at: TimeOfDay,
    },
}

/// A slideshow name is usable as a file stem: non-empty, not hidden,
/// no path separators, no control characters.
pub open spec fn valid_slideshow_name(name: Seq<char>) -> bool {
    name.len() > 0 && name[0] != '.' && !name.contains('/') && !name.contains('\\')
        && forall|i: int| 0 <= i < name.len() ==> !is_control(#[trigger] name[i])
}

/// Reject names that the XML writer cannot use verbatim as `<name>.xml`.
pub fn validate_slideshow_name(name: &str) -> (r: Result<(), WallpaperSlideshowError>)
    ensures
        match r {
            Ok(()) => valid_slideshow_name(name@),
            Err(e) => !valid_slideshow_name(name@) && (e matches WallpaperSlideshowError::InvalidName(m) && m@ == name@),
        },
{
    let n = name.unicode_len();
    if n == 0 || name.get_char(0) == '.' || str_contains_char(name, '/') || str_contains_char(name, '\\') {
        return Err(WallpaperSlideshowError::InvalidName(owned(name)));
    }
    let mut i: usize = 0;
    while i < n
        invariant
            n == name@.len(),
            i <= n,
            forall|j: int| 0 <= j < i ==> !is_control(#[trigger] name@[j]),
        decreases n - i,
    {
        let c = name.get_char(i);
        if c <= '\u{1f}' || ('\u{7f}' <= c && c <= '\u{9f}') {
            proof {
                assert(is_control(name@[i as int]));
            }
            return Err(WallpaperSlideshowError::InvalidName(owned(name)));
        }
        i = i + 1;
    }
    Ok(())
}

/// Index of the first picture that is not absolute.
pub open spec fn is_first_relative(pictures: Seq<PathBuf>, i: int) -> bool {
    0 <= i < pictures.len() && !path_is_absolute(pictures[i])
        && forall|j: int| 0 <= j < i ==> path_is_absolute(#[trigger] pictures[j])
}

fn first_relative(pictures: &[PathBuf]) -> (r: Option<usize>)
    ensures
        match r {
            Some(i) => is_first_relative(pictures@, i as int),
            None => forall|j: int| 0 <= j < pictures@.len() ==> path_is_absolute(#[trigger] pictures@[j]),
        },
{
    let mut i: usize = 0;
    while i < pictures.len()
        invariant
            i <= pictures@.len(),
            forall|j: int| 0 <= j < i ==> path_is_absolute(#[trigger] pictures@[j]),
        decreases pictures@.len() - i,
    {
        if !is_absolute(&pictures[i]) {
            return Some(i);
        }
        i = i + 1;
    }
    None
}

/// Checks for an interval slideshow, in order: the name, at least two
/// pictures, an interval of at least [`MIN_INTERVAL_SECONDS`], and then
/// every picture absolute (the first relative one is reported).
pub fn check_interval_slideshow(name: &str, pictures: &[PathBuf], interval_seconds: u32) -> (r: Result<(), WallpaperSlideshowError>)
    ensures
        !valid_slideshow_name(name@) ==> (r matches Err(WallpaperSlideshowError::InvalidName(m)) && m@ == name@),
        valid_slideshow_name(name@) && pictures@.len() < 2 ==> r == Err::<(), _>(WallpaperSlideshowError::TooFewPictures),
        valid_slideshow_name(name@) && pictures@.len() >= 2 && interval_seconds < MIN_INTERVAL_SECONDS
            ==> r == Err::<(), _>(WallpaperSlideshowError::IntervalTooShort),
        valid_slideshow_name(name@) && pictures@.len() >= 2 && interval_seconds >= MIN_INTERVAL_SECONDS ==> (
            if exists|i: int| is_first_relative(pictures@, i) {
                r == Err::<(), _>(WallpaperSlideshowError::RelativePath(pictures@[choose|i: int| is_first_relative(pictures@, i)]))
            } else {
                r is Ok
            }),
{
    validate_slideshow_name(name)?;
    if pictures.len() < 2 {
        return Err(WallpaperSlideshowError::TooFewPictures);
    }
    if interval_seconds < MIN_INTERVAL_SECONDS {
        return Err(WallpaperSlideshowError::IntervalTooShort);
    }
    relative_check(pictures)
}

fn relative_check(pictures: &[PathBuf]) -> (r: Result<(), WallpaperSlideshowError>)
    ensures
        if exists|i: int| is_first_relative(pictures@, i) {
            r == Err::<(), _>(WallpaperSlideshowError::RelativePath(pictures@[choose|i: int| is_first_relative(pictures@, i)]))
        } else {
            r is Ok
        },
{
    match first_relative(pictures) {
        Some(i) => {
            proof {
                let k = choose|k: int| is_first_relative(pictures@, k);
                if k < i {
                    assert(path_is_absolute(pictures@[k]));
                } else if k > i {
                    assert(path_is_absolute(pictures@[i as int]));
                }
            }
            Err(WallpaperSlideshowError::RelativePath(pictures[i].clone()))
        },
        None => {
            proof {
                if exists|k: int| is_first_relative(pictures@, k) {
                    let k = choose|k: int| is_first_relative(pictures@, k);
                    assert(path_is_absolute(pictures@[k]));
                }
            }
            Ok(())
        },
    }
}

/// The four time-of-day slots strictly increase.
pub open spec fn slots_increasing(slots: Seq<TimeOfDay>) -> bool {
    forall|i: int| 0 <= i < slots.len() - 1 ==> (#[trigger] slots[i]).seconds_spec() < slots[i + 1].seconds_spec()
}

/// Checks for a time-of-day slideshow, in order: the name, every
/// picture absolute, then strictly increasing transition times.
pub fn check_time_of_day_slideshow(name: &str, pictures: &[PathBuf; 4], slots: &[TimeOfDay; 4]) -> (r: Result<(), WallpaperSlideshowError>)
    ensures
        !valid_slideshow_name(name@) ==> (r matches Err(WallpaperSlideshowError::InvalidName(m)) && m@ == name@),
        valid_slideshow_name(name@) && (exists|i: int| is_first_relative(pictures@, i))
            ==> r == Err::<(), _>(WallpaperSlideshowError::RelativePath(pictures@[choose|i: int| is_first_relative(pictures@, i)])),
        valid_slideshow_name(name@) && !(exists|i: int| is_first_relative(pictures@, i)) ==> (
            if slots_increasing(slots@) { r is Ok } else { r == Err::<(), _>(WallpaperSlideshowError::TimesNotIncreasing) }),
{
    validate_slideshow_name(name)?;
    relative_check(pictures.as_slice())?;
    let mut i: usize = 0;
    while i < 3
        invariant
            i <= 3,
            slots@.len() == 4,
            valid_slideshow_name(name@),
            !(exists|k: int| is_first_relative(pictures@, k)),
            forall|j: int| 0 <= j < i ==> (#[trigger] slots@[j]).seconds_spec() < slots@[j + 1].seconds_spec(),
        decreases 3 - i,
    {
        if slots[i + 1].seconds_since_midnight() <= slots[i].seconds_since_midnight() {
            return Err(WallpaperSlideshowError::TimesNotIncreasing);
        }
        i = i + 1;
    }
    Ok(())
}

/// The time source for the XML `<starttime>`.
pub trait SlideshowClock: Send + Sync {
    /// Year/month/day/hour/minute/second for `<starttime>`.
    fn now(&self) -> StartTime;
}

#[derive(Debug, Clone, Copy, PartialEq, Eq, Structural)]
pub struct StartTime {
    pub year: i32,
    pub month: u8,
    pub day: u8,
    pub hour: u8,
    pub minute: u8,
    pub second: u8,
}

impl StartTime {
    /// Sentinel epoch GNOME ships in stock slideshows: 2011-11-11 11:11:11.
    pub fn epoch() -> (r: StartTime)
        ensures
            r == (StartTime { year: 2011, month: 11, day: 11, hour: 11, minute: 11, second: 11 }),
    {
        StartTime { year: 2011, month: 11, day: 11, hour: 11, minute: 11, second: 11 }
    }
}

/// A clock whose `now()` is always the same moment.
pub struct FixedClock(pub StartTime);

impl SlideshowClock for FixedClock {
    fn now(&self) -> (r: StartTime)
        ensures
            r == self.0,
    {
        self.0
    }
}

/// Where the XML goes, relative to the data directory:
/// `gnome-background-properties/<name>.xml`.
pub fn slideshow_xml_relative_path(name: &str) -> (r: PathBuf)
    ensures
        r == path_from_text(join_text("gnome-background-properties"@, name@ + ".xml"@)),
{
    let mut file = owned(name);
    file.append(".xml");
    path_from_string(join_path_text("gnome-background-properties", file.as_str()))
}

} // verus!
