use vstd::prelude::*;

verus! {

/// The instructions that a dispatcher sends to its executor.
#[derive(Clone, Copy, Debug, PartialEq, Eq, Structural)]
pub enum Msg {
    /// Stop the worker.
    StopExec,
    /// Run the worker at this rate.
    StartExec(usize),
    /// Stop the worker and end the executor.
    Quit,
}

/// The two independent audio paths.
#[derive(Clone, Copy, Debug, PartialEq, Eq, Structural)]
pub enum Direction {
    Capture,
    Playback,
}

/// The direction whose rate control has the numeric id `numid`, where
/// `capture` and `playback` are the ids of the controls that were found.
/// Capture is tried first.
pub fn route(capture: Option<u32>, playback: Option<u32>, numid: u32) -> (r: Option<Direction>)
    ensures
        r == if capture == Some(numid) {
            Some(Direction::Capture)
        } else if playback == Some(numid) {
            Some(Direction::Playback)
        } else {
            None
        },
{
    if fits_numid(capture, numid) {
        Some(Direction::Capture)
    } else if fits_numid(playback, numid) {
        Some(Direction::Playback)
    } else {
        None
    }
}

fn fits_numid(id: Option<u32>, numid: u32) -> (r: bool)
    ensures
        r == (id == Some(numid)),
{
    match id {
        Some(n) => n == numid,
        None => false,
    }
}

/// What the dispatcher does for one new rate reading: whether it first
/// discards the instructions still queued, whether it cancels the executor's
/// debounce wait, and the instruction it sends.
#[derive(Clone, Copy, Debug, PartialEq, Eq, Structural)]
pub struct Dispatch {
    pub drain: bool,
    pub cancel: bool,
    pub msg: Msg,
}

/// The dispatch for a new reading `rate` (zero: stop), where `debouncing`
/// tells whether the executor is in a debounce wait. A stop drains the queue,
/// cancels a wait in progress and sends `StopExec`; any other rate is sent as
/// `StartExec(rate)` with nothing else done.
pub fn dispatch(rate: usize, debouncing: bool) -> (r: Dispatch)
    ensures
        rate == 0 ==> r == (Dispatch { drain: true, cancel: debouncing, msg: Msg::StopExec }),
        rate != 0 ==> r == (Dispatch { drain: false, cancel: false, msg: Msg::StartExec(rate) }),
{
    if rate == 0 {
        Dispatch { drain: true, cancel: debouncing, msg: Msg::StopExec }
    } else {
        Dispatch { drain: false, cancel: false, msg: Msg::StartExec(rate) }
    }
}

/// The time, in milliseconds, of the last start that was dispatched; kept
/// only to report how long a worker was asked to run.
#[derive(Clone, Copy, Debug, PartialEq, Eq, Structural)]
pub struct LastStart {
    pub at: Option<u64>,
}

impl LastStart {
    pub fn new() -> (r: Self)
        ensures
            r.at is None,
    {
        LastStart { at: None }
    }

    /// Takes note of a reading `rate` at time `now`. A start is recorded; a
    /// stop after a recorded start returns the milliseconds since it, zero if
    /// the clock went back.
    pub fn record(&mut self, rate: usize, now: u64) -> (r: Option<u64>)
        ensures
            rate != 0 ==> r is None && final(self).at == Some(now),
            rate == 0 ==> final(self).at == old(self).at,
            rate == 0 ==> r == match old(self).at {
                Some(t) => Some(if now >= t { (now - t) as u64 } else { 0 }),
                None => None,
            },
    {
        if rate == 0 {
            match self.at {
                Some(t) => Some(now.saturating_sub(t)),
                None => None,
            }
        } else {
            self.at = Some(now);
            None
        }
    }
}

} // verus!
