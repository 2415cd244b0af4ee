//! The event poller: keyboard input and a fixed-rate timer, merged into one
//! stream.
//!
//! The poller does no waiting, reading or sending of its own. It is a state
//! machine: it holds the request that it has made of its driver, and on the
//! driver's report of how that request went, together with the reading of a
//! monotonic clock, it makes the next one. One pass is a wait for input that
//! ends no later than the next tick is due, the forwarding of a key if one
//! came, and a tick if one is due.
//!
//! All times are in nanoseconds.

use vstd::prelude::*;
use crate::event::{Event, KeyPress};

verus! {

/// The tick interval that is used where none is chosen: 200 milliseconds.
pub const DEFAULT_TICK_RATE: u64 = 200_000_000;

/// Why the poller gave up. Each of these ends the whole process.
#[derive(Clone, Copy, Debug, PartialEq, Eq, Structural)]
pub enum PollerError {
    /// Waiting for input failed.
    Poll,
    /// Input was ready and could not be read.
    Read,
    /// A key press could not be handed to the channel.
    Send,
}

/// What the poller asks of its driver.
#[derive(Clone, Copy, Debug, PartialEq, Eq, Structural)]
pub enum Request {
    /// Wait until input is ready, but no longer than `timeout`.
    Poll { timeout: u64 },
    /// Read the input that is ready.
    Read,
    /// Put the event on the channel.
    Send(Event),
    /// End the process.
    Abort(PollerError),
}

/// How a request went.
#[derive(Clone, Copy, Debug, PartialEq, Eq, Structural)]
pub enum Reply {
    /// The wait ended because input is ready.
    Ready,
    /// The wait ended and no input is ready.
    Idle,
    /// What was read is a key press.
    Key(KeyPress),
    /// What was read is something else than a key press.
    Other,
    /// The channel took the event.
    Sent,
    /// The channel has no receiver any more.
    Closed,
    /// The wait or the read failed.
    Failed,
}

/// The poller's state.
#[derive(Clone, Copy, Debug, PartialEq, Eq, Structural)]
pub struct Poller {
    /// The time from one tick to the next.
    pub tick_rate: u64,
    /// The clock's reading when the last tick was taken by the channel, or
    /// when the poller began if none was.
    pub last_tick: u64,
    /// The request that the driver is working on.
    pub pending: Request,
}

impl Poller {
    /// The state in which a poller begins at time `now`: the first wait
    /// lasts one full interval.
    pub open spec fn started(tick_rate: u64, now: u64) -> Poller {
        Poller { tick_rate, last_tick: now, pending: Request::Poll { timeout: tick_rate } }
    }

    /// The time since the last tick. A reading from before the last tick
    /// counts as no time at all.
    pub open spec fn elapsed(self, now: u64) -> int {
        if now >= self.last_tick {
            now - self.last_tick
        } else {
            0
        }
    }

    /// Whether a tick is due at `now`.
    pub open spec fn tick_due(self, now: u64) -> bool {
        self.elapsed(now) >= self.tick_rate
    }

    /// How long a wait that begins at `now` may last: what is left of the
    /// interval, and nothing if the tick is overdue.
    pub open spec fn timeout(self, now: u64) -> int {
        if self.tick_due(now) {
            0
        } else {
            self.tick_rate - self.elapsed(now)
        }
    }

    /// The state with another request pending.
    pub open spec fn asking(self, request: Request) -> Poller {
        Poller { tick_rate: self.tick_rate, last_tick: self.last_tick, pending: request }
    }

    /// The beginning of a pass at `now`: the wait for input.
    pub open spec fn next_pass(self, now: u64) -> Poller {
        self.asking(Request::Poll { timeout: self.timeout(now) as u64 })
    }

    /// The end of a pass at `now`: a tick if one is due, else the next pass.
    pub open spec fn after_wait(self, now: u64) -> Poller {
        if self.tick_due(now) {
            self.asking(Request::Send(Event::Tick))
        } else {
            self.next_pass(now)
        }
    }

    /// The state with the tick clock set to `now`.
    pub open spec fn reset(self, now: u64) -> Poller {
        Poller { tick_rate: self.tick_rate, last_tick: now, pending: self.pending }
    }

    /// The state that follows when the driver reports `reply` at `now`.
    ///
    /// A reply that does not answer the pending request counts as that
    /// request having failed. A wait or a read that failed, and a key press
    /// that the channel did not take, end the poller. A tick that the channel
    /// did not take is dropped, and the tick clock is left as it was.
    pub open spec fn next(self, reply: Reply, now: u64) -> Poller {
        match self.pending {
            Request::Poll { timeout } => match reply {
                Reply::Ready => self.asking(Request::Read),
                Reply::Idle => self.after_wait(now),
                _ => self.asking(Request::Abort(PollerError::Poll)),
            },
            Request::Read => match reply {
                Reply::Key(key) => self.asking(Request::Send(Event::Input(key))),
                Reply::Other => self.after_wait(now),
                _ => self.asking(Request::Abort(PollerError::Read)),
            },
            Request::Send(Event::Input(key)) => match reply {
                Reply::Sent => self.after_wait(now),
                _ => self.asking(Request::Abort(PollerError::Send)),
            },
            Request::Send(Event::Tick) => match reply {
                Reply::Sent => self.reset(now).next_pass(now),
                _ => self.next_pass(now),
            },
            Request::Abort(error) => self,
        }
    }

    /// A poller that begins at `now`.
    pub fn start(tick_rate: u64, now: u64) -> (poller: Poller)
        ensures
            poller == Poller::started(tick_rate, now),
    {
        Poller { tick_rate, last_tick: now, pending: Request::Poll { timeout: tick_rate } }
    }

    /// The request that the driver is to carry out.
    pub fn pending(&self) -> (request: Request)
        ensures
            request == self.pending,
    {
        self.pending
    }

    /// Whether the poller has given up.
    pub fn is_aborted(&self) -> (aborted: bool)
        ensures
            aborted == (self.pending is Abort),
    {
        match self.pending {
            Request::Abort(_) => true,
            _ => false,
        }
    }

    /// Computes `timeout`.
    fn remaining(&self, now: u64) -> (timeout: u64)
        ensures
            timeout == self.timeout(now),
    {
        let elapsed: u64 = if now >= self.last_tick {
            now - self.last_tick
        } else {
            0
        };
        if elapsed >= self.tick_rate {
            0
        } else {
            self.tick_rate - elapsed
        }
    }

    /// Computes `tick_due`.
    fn is_due(&self, now: u64) -> (due: bool)
        ensures
            due == self.tick_due(now),
    {
        let elapsed: u64 = if now >= self.last_tick {
            now - self.last_tick
        } else {
            0
        };
        elapsed >= self.tick_rate
    }

    /// Begins a pass.
    fn begin_pass(&mut self, now: u64)
        ensures
            *final(self) == old(self).next_pass(now),
    {
        self.pending = Request::Poll { timeout: self.remaining(now) };
    }

    /// Ends a pass.
    fn end_pass(&mut self, now: u64)
        ensures
            *final(self) == old(self).after_wait(now),
    {
        if self.is_due(now) {
            self.pending = Request::Send(Event::Tick);
        } else {
            self.begin_pass(now);
        }
    }

    /// Takes the driver's report of how the pending request went, with the
    /// clock's reading at the time of the report, and returns the next
    /// request.
    pub fn step(&mut self, reply: Reply, now: u64) -> (request: Request)
        ensures
            *final(self) == old(self).next(reply, now),
            request == final(self).pending,
    {
        match self.pending {
            Request::Poll { .. } => match reply {
                Reply::Ready => {
                    self.pending = Request::Read;
                },
                Reply::Idle => {
                    self.end_pass(now);
                },
                _ => {
                    self.pending = Request::Abort(PollerError::Poll);
                },
            },
            Request::Read => match reply {
                Reply::Key(key) => {
                    self.pending = Request::Send(Event::Input(key));
                },
                Reply::Other => {
                    self.end_pass(now);
                },
                _ => {
                    self.pending = Request::Abort(PollerError::Read);
                },
            },
            Request::Send(Event::Input(_)) => match reply {
                Reply::Sent => {
                    self.end_pass(now);
                },
                _ => {
                    self.pending = Request::Abort(PollerError::Send);
                },
            },
            Request::Send(Event::Tick) => {
                match reply {
                    Reply::Sent => {
                        self.last_tick = now;
                    },
                    _ => {},
                }
                self.begin_pass(now);
            },
            Request::Abort(_) => {},
        }
        self.pending
    }
}

} // verus!
