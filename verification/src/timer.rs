//! The watch-along timer: a stop flag and a run-once latch around a file
//! that holds an episode number and an elapsed time.

use vstd::prelude::*;
use vstd::string::*;

use crate::numbers::{decimal2, lemma_u32_reads_back, parse_u32, u32_of_text, u32_to_text2};
use crate::text::{chars_of, lemma_split_two, split, split_on, texts};
use crate::watchalong::{file_text, write_content};

verus! {

/// Event that announces the new time after a tick.
pub const TIME_UPDATE_EVENT: &'static str = "time_update";

/// Event that announces the new episode after a change.
pub const EPISODE_UPDATE_EVENT: &'static str = "episode_update";

/// Seconds between two ticks.
pub const TICK_SECS: u64 = 1;

/// A timer bound to the file it keeps up to date.
///
/// The timer itself does not sleep or write: the caller runs the ticking
/// loop, asks `should_stop` before every tick, and writes what the clock
/// gives it.
pub struct Timer {
    path: String,
    stop_flag: bool,
    is_running: bool,
}

impl Timer {
    /// Path of the file that the timer updates.
    pub closed spec fn spec_path(&self) -> Seq<char> {
        self.path@
    }

    /// Whether `stop` has been called.
    pub closed spec fn stopped(&self) -> bool {
        self.stop_flag
    }

    /// Whether `start` has been called.
    pub closed spec fn running(&self) -> bool {
        self.is_running
    }

    /// A timer for the file at `path`, neither started nor stopped.
    pub fn new(path: &str) -> (timer: Timer)
        ensures
            timer.spec_path() == path@,
            !timer.stopped(),
            !timer.running(),
    {
        Timer { path: String::from_str(path), stop_flag: false, is_running: false }
    }

    /// Marks the timer as running. Returns `true` when the caller has to
    /// launch the ticking loop, which is the first time only: a timer that
    /// is already running is left as it is.
    pub fn start(&mut self) -> (launch: bool)
        ensures
            launch == !old(self).running(),
            final(self).running(),
            final(self).stopped() == old(self).stopped(),
            final(self).spec_path() == old(self).spec_path(),
    {
        if self.is_running {
            false
        } else {
            self.is_running = true;
            true
        }
    }

    /// Raises the stop flag. The ticking loop ends before its next tick.
    pub fn stop(&mut self)
        ensures
            final(self).stopped(),
            final(self).running() == old(self).running(),
            final(self).spec_path() == old(self).spec_path(),
    {
        self.stop_flag = true;
    }

    /// Whether the ticking loop has to end.
    pub fn should_stop(&self) -> (stop: bool)
        ensures
            stop == self.stopped(),
    {
        self.stop_flag
    }

    /// Path of the file that the timer updates.
    pub fn path(&self) -> (path: &str)
        ensures
            path@ == self.spec_path(),
    {
        self.path.as_str()
    }
}

/// The minutes and seconds that a time text holds: its first two fields
/// between colons, each an unsigned number. Further fields are not
/// looked at.
pub open spec fn time_of_text(time: Seq<char>) -> Option<(u32, u32)> {
    let fields = split_on(time, ':');
    if fields.len() >= 2 {
        match (u32_of_text(fields[0]), u32_of_text(fields[1])) {
            (Some(minutes), Some(seconds)) => Some((minutes, seconds)),
            _ => None,
        }
    } else {
        None
    }
}

/// Reads minutes and seconds off a time text such as `12:34`. Nothing
/// where there is no colon, or what stands before or after the first
/// colon is not a number.
pub fn parse_time(time: &str) -> (r: Option<(u32, u32)>)
    ensures
        r == time_of_text(time@),
{
    let fields = split(time, ':');
    assert(texts(fields@).len() == fields@.len());
    if fields.len() < 2 {
        return None;
    }
    assert(texts(fields@)[0] == fields@[0]@);
    assert(texts(fields@)[1] == fields@[1]@);
    let minutes = match parse_u32(&chars_of(fields[0].as_str())) {
        Some(minutes) => minutes,
        None => {
            return None;
        },
    };
    match parse_u32(&chars_of(fields[1].as_str())) {
        Some(seconds) => Some((minutes, seconds)),
        None => None,
    }
}

/// The time one second later: the seconds go up by one, and from 59 to
/// zero with the minutes going up by one. Nothing where a number would
/// not fit.
pub open spec fn ticked(minutes: u32, seconds: u32) -> Option<(u32, u32)> {
    if seconds == u32::MAX {
        None
    } else if seconds + 1 == 60 {
        if minutes == u32::MAX {
            None
        } else {
            Some(((minutes + 1) as u32, 0u32))
        }
    } else {
        Some((minutes, (seconds + 1) as u32))
    }
}

/// Seconds that stood below sixty stay below sixty, and a tick moves
/// the time forward by exactly one second.
pub proof fn lemma_tick_is_one_second(minutes: u32, seconds: u32)
    requires
        seconds < 60,
        minutes < u32::MAX,
    ensures
        ticked(minutes, seconds) matches Some((m, s)) && s < 60 && m * 60 + s == minutes * 60
            + seconds + 1,
{
}

/// Advances a time by one second.
pub fn tick(minutes: u32, seconds: u32) -> (r: Option<(u32, u32)>)
    ensures
        r == ticked(minutes, seconds),
{
    if seconds == u32::MAX {
        None
    } else if seconds + 1 == 60 {
        if minutes == u32::MAX {
            None
        } else {
            Some((minutes + 1, 0))
        }
    } else {
        Some((minutes, seconds + 1))
    }
}

/// A time as the file and the caller's display show it: minutes and
/// seconds, each at least two digits wide, with a colon between.
pub open spec fn time_text(minutes: u32, seconds: u32) -> Seq<char> {
    decimal2(minutes as nat) + seq![':'] + decimal2(seconds as nat)
}

/// What the timer writes as a time, it reads back as the same minutes
/// and seconds.
pub proof fn lemma_time_reads_back(minutes: u32, seconds: u32)
    ensures
        time_of_text(time_text(minutes, seconds)) == Some((minutes, seconds)),
{
    lemma_u32_reads_back(minutes);
    lemma_u32_reads_back(seconds);
    lemma_split_two(decimal2(minutes as nat), decimal2(seconds as nat), ':');
}

/// Writes a time as text.
pub fn format_time(minutes: u32, seconds: u32) -> (time: String)
    ensures
        time@ == time_text(minutes, seconds),
{
    let mut time = u32_to_text2(minutes);
    time.push(':');
    let seconds_text = u32_to_text2(seconds);
    time.append(seconds_text.as_str());
    assert(time@ =~= time_text(minutes, seconds));
    time
}

/// What one tick of the timer leaves behind.
#[derive(Debug, Clone, PartialEq, Eq)]
pub struct Tick {
    /// The minutes after the tick.
    pub minutes: u32,
    /// The seconds after the tick.
    pub seconds: u32,
    /// The new time, for the caller to announce.
    pub time: String,
    /// The new content of the file.
    pub content: String,
}

/// One tick of the timer on a file that holds `episode`: the time one
/// second later, as numbers and as text, and the file's new content with
/// the episode kept as it is. Nothing where a number would not fit.
pub fn next_tick(episode: &str, minutes: u32, seconds: u32) -> (r: Option<Tick>)
    ensures
        match r {
            Some(t) => {
                &&& ticked(minutes, seconds) == Some((t.minutes, t.seconds))
                &&& t.time@ == time_text(t.minutes, t.seconds)
                &&& t.content@ == file_text(episode@, t.time@)
            },
            None => ticked(minutes, seconds) is None,
        },
{
    match tick(minutes, seconds) {
        Some((minutes, seconds)) => {
            let time = format_time(minutes, seconds);
            let content = write_content(episode, time.as_str());
            Some(Tick { minutes, seconds, time, content })
        },
        None => None,
    }
}

} // verus!
