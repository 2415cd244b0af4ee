//! Whole runs of the poller: what the channel gets, and when.
//!
//! A run is the poller's life as its driver sees it: a list of reports, each
//! the reply to the request that was pending and the clock's reading at that
//! moment. The channel's log of a run holds the events that the channel took,
//! in the order in which it took them, each with the time of the report that
//! said so.

use vstd::prelude::*;
use crate::event::{Event, KeyPress};
use crate::poller::{Poller, Reply, Request};

verus! {

/// One report of the driver: how the pending request went, and when.
#[derive(Clone, Copy, Debug, PartialEq, Eq, Structural)]
pub struct Report {
    pub reply: Reply,
    pub at: u64,
}

/// An event on the channel, with the time at which the channel took it.
#[derive(Clone, Copy, Debug, PartialEq, Eq, Structural)]
pub struct Stamped {
    pub event: Event,
    pub at: u64,
}

/// Whether no report bears an earlier time than one before it.
pub open spec fn clock_runs_forward(reports: Seq<Report>) -> bool {
    forall|i: int, j: int| 0 <= i <= j < reports.len() ==> reports[i].at <= reports[j].at
}

/// The time at which the request was made that the last of `reports`
/// answers: the time of the report before it, or `began` if there is none.
pub open spec fn asked_at(began: u64, reports: Seq<Report>) -> u64
    recommends
        reports.len() > 0,
{
    if reports.len() == 1 {
        began
    } else {
        reports[reports.len() - 2].at
    }
}

impl Poller {
    /// The state after the driver has made `reports`, one after the other.
    pub open spec fn run(self, reports: Seq<Report>) -> Poller
        decreases reports.len(),
    {
        if reports.len() == 0 {
            self
        } else {
            self.run(reports.drop_last()).next(reports.last().reply, reports.last().at)
        }
    }

    /// The channel's log of a run: an event enters it when the request to
    /// send it is answered with `Reply::Sent`.
    pub open spec fn delivered(self, reports: Seq<Report>) -> Seq<Stamped>
        decreases reports.len(),
    {
        if reports.len() == 0 {
            Seq::empty()
        } else {
            let earlier = self.delivered(reports.drop_last());
            match self.run(reports.drop_last()).pending {
                Request::Send(event) => if reports.last().reply == Reply::Sent {
                    earlier.push(Stamped { event, at: reports.last().at })
                } else {
                    earlier
                },
                _ => earlier,
            }
        }
    }
}

/// Every stamp in the channel's log is the time of some report, so none is
/// later than the last report.
proof fn lemma_stamps_are_report_times(poller: Poller, reports: Seq<Report>)
    requires
        clock_runs_forward(reports),
    ensures
        forall|k: int|
            0 <= k < poller.delivered(reports).len() ==> reports.len() > 0 && (
            #[trigger] poller.delivered(reports)[k]).at <= reports.last().at,
    decreases reports.len(),
{
    if reports.len() > 0 {
        let before = reports.drop_last();
        lemma_stamps_are_report_times(poller, before);
        if before.len() > 0 {
            assert(before.last() == reports[reports.len() - 2]);
        }
    }
}

/// The channel's log is in the order of the clock: with a clock that runs
/// forward, no event in the log bears an earlier time than one before it.
/// So a tick with a later time than a key press stands behind that key press.
pub proof fn lemma_stream_in_clock_order(poller: Poller, reports: Seq<Report>)
    requires
        clock_runs_forward(reports),
    ensures
        ({
            let log = poller.delivered(reports);
            &&& forall|i: int, j: int| 0 <= i <= j < log.len() ==> log[i].at <= log[j].at
            &&& forall|i: int, j: int|
                0 <= i < log.len() && 0 <= j < log.len() && log[i].event is Input && log[j].event
                    == Event::Tick && log[i].at < log[j].at ==> i < j
        }),
    decreases reports.len(),
{
    if reports.len() > 0 {
        let before = reports.drop_last();
        lemma_stream_in_clock_order(poller, before);
        lemma_stamps_are_report_times(poller, before);
        if before.len() > 0 {
            assert(before.last() == reports[reports.len() - 2]);
        }
    }
}

/// A key press that was read goes to the channel at once: the next request
/// is to send it, and the tick clock is left alone.
pub proof fn lemma_key_is_forwarded_at_once(poller: Poller, key: KeyPress, now: u64)
    requires
        poller.pending == Request::Read,
    ensures
        poller.next(Reply::Key(key), now).pending == Request::Send(Event::Input(key)),
        poller.next(Reply::Key(key), now).last_tick == poller.last_tick,
{
}

/// A tick that the channel does not take is dropped: the poller does not
/// give up, leaves the tick clock as it was and begins its next pass.
pub proof fn lemma_unsent_tick_is_dropped(poller: Poller, reply: Reply, now: u64)
    requires
        poller.pending == Request::Send(Event::Tick),
        reply != Reply::Sent,
    ensures
        poller.next(reply, now) == poller.next_pass(now),
        poller.next(reply, now).pending is Poll,
        poller.next(reply, now).last_tick == poller.last_tick,
{
}

/// What ties the tick clock to the channel's log, in every run from the start
/// under a clock that runs forward.
proof fn lemma_tick_clock(tick_rate: u64, began: u64, reports: Seq<Report>)
    requires
        clock_runs_forward(reports),
        reports.len() > 0 ==> began <= reports[0].at,
    ensures
        ({
            let start = Poller::started(tick_rate, began);
            let poller = start.run(reports);
            let log = start.delivered(reports);
            &&& poller.tick_rate == tick_rate
            &&& began <= poller.last_tick
            &&& reports.len() > 0 ==> poller.last_tick <= reports.last().at
            &&& poller.pending == Request::Send(Event::Tick) ==> reports.len() > 0
                && reports.last().at - poller.last_tick >= tick_rate
            &&& forall|k: int|
                0 <= k < log.len() && (#[trigger] log[k]).event == Event::Tick ==> began
                    + tick_rate <= log[k].at <= poller.last_tick
            &&& forall|i: int, j: int|
                0 <= i < j < log.len() && (#[trigger] log[i]).event == Event::Tick && (
                #[trigger] log[j]).event == Event::Tick ==> log[j].at - log[i].at >= tick_rate
        }),
    decreases reports.len(),
{
    if reports.len() > 0 {
        let before = reports.drop_last();
        lemma_tick_clock(tick_rate, began, before);
        if before.len() > 0 {
            assert(before.last() == reports[reports.len() - 2]);
            assert(before[0] == reports[0]);
        }
    }
}

/// Ticks keep their distance: in every run from the start under a clock that
/// runs forward, the first tick reaches the channel no sooner than one
/// interval after the start, and each later one no sooner than one interval
/// after the tick before it. Key presses in between change nothing in that,
/// nor do ticks that the channel did not take.
pub proof fn lemma_ticks_keep_their_distance(tick_rate: u64, began: u64, reports: Seq<Report>)
    requires
        clock_runs_forward(reports),
        reports.len() > 0 ==> began <= reports[0].at,
    ensures
        ({
            let log = Poller::started(tick_rate, began).delivered(reports);
            &&& forall|k: int|
                0 <= k < log.len() && (#[trigger] log[k]).event == Event::Tick ==> log[k].at
                    - began >= tick_rate
            &&& forall|i: int, j: int|
                0 <= i < j < log.len() && (#[trigger] log[i]).event == Event::Tick && (
                #[trigger] log[j]).event == Event::Tick ==> log[j].at - log[i].at >= tick_rate
        }),
{
    lemma_tick_clock(tick_rate, began, reports);
}

impl Poller {
    /// Whether a run that began at `began` was left alone and served in
    /// time: no input came, so that every wait lasted its whole timeout and
    /// ended idle, at most `poll_lag` late; and the channel took every event
    /// at most `send_lag` after it was asked to.
    pub open spec fn undisturbed(
        self,
        began: u64,
        reports: Seq<Report>,
        poll_lag: nat,
        send_lag: nat,
    ) -> bool
        decreases reports.len(),
    {
        if reports.len() == 0 {
            true
        } else {
            let asked = asked_at(began, reports);
            let last = reports.last();
            &&& self.undisturbed(began, reports.drop_last(), poll_lag, send_lag)
            &&& match self.run(reports.drop_last()).pending {
                Request::Poll { timeout } => last.reply == Reply::Idle && asked + timeout
                    <= last.at <= asked + timeout + poll_lag,
                Request::Send(event) => last.reply == Reply::Sent && asked <= last.at <= asked
                    + send_lag,
                _ => false,
            }
        }
    }
}

/// The shape of an undisturbed run from the start: waits and ticks take
/// turns.
proof fn lemma_undisturbed_run(
    tick_rate: u64,
    began: u64,
    reports: Seq<Report>,
    poll_lag: nat,
    send_lag: nat,
)
    requires
        Poller::started(tick_rate, began).undisturbed(began, reports, poll_lag, send_lag),
    ensures
        ({
            let start = Poller::started(tick_rate, began);
            let poller = start.run(reports);
            let log = start.delivered(reports);
            let n = reports.len();
            &&& poller.tick_rate == tick_rate
            &&& log.len() == n / 2
            &&& forall|k: int| 0 <= k < log.len() ==> (#[trigger] log[k]).event == Event::Tick
            &&& poller.last_tick == if log.len() == 0 {
                began
            } else {
                log.last().at
            }
            &&& n % 2 == 0 ==> poller.pending == (Request::Poll { timeout: tick_rate }) && (n > 0
                ==> reports.last().at == poller.last_tick)
            &&& n % 2 == 1 ==> poller.pending == Request::Send(Event::Tick) && poller.last_tick
                + tick_rate <= reports.last().at <= poller.last_tick + tick_rate + poll_lag
            &&& log.len() > 0 ==> tick_rate <= log[0].at - began <= tick_rate + poll_lag
                + send_lag
            &&& forall|k: int|
                0 <= k < log.len() - 1 ==> tick_rate <= (#[trigger] log[k + 1]).at - log[k].at
                    <= tick_rate + poll_lag + send_lag
        }),
    decreases reports.len(),
{
    if reports.len() > 0 {
        let before = reports.drop_last();
        lemma_undisturbed_run(tick_rate, began, before, poll_lag, send_lag);
        if before.len() > 0 {
            assert(before.last() == reports[reports.len() - 2]);
        }
    }
}

/// Ticks are regular: in a run from the start that is left alone and served
/// in time, every second report is that of a tick taken by the channel, and
/// nothing else reaches the channel. The first tick is taken one interval
/// after the start, and each later one one interval after the tick before
/// it; none is late by more than `poll_lag + send_lag`, which is what one
/// pass of the poller costs beyond its wait.
pub proof fn lemma_undisturbed_ticks_are_regular(
    tick_rate: u64,
    began: u64,
    reports: Seq<Report>,
    poll_lag: nat,
    send_lag: nat,
)
    requires
        Poller::started(tick_rate, began).undisturbed(began, reports, poll_lag, send_lag),
    ensures
        ({
            let log = Poller::started(tick_rate, began).delivered(reports);
            &&& log.len() == reports.len() / 2
            &&& forall|k: int| 0 <= k < log.len() ==> (#[trigger] log[k]).event == Event::Tick
            &&& log.len() > 0 ==> tick_rate <= log[0].at - began <= tick_rate + poll_lag
                + send_lag
            &&& forall|k: int|
                0 <= k < log.len() - 1 ==> tick_rate <= (#[trigger] log[k + 1]).at - log[k].at
                    <= tick_rate + poll_lag + send_lag
        }),
{
    lemma_undisturbed_run(tick_rate, began, reports, poll_lag, send_lag);
}

} // verus!
