//! What the driver makes of a whole feed.
//!
//! A feed is described by its deliveries: each is a header together with the
//! node's answer to the query that the header causes, or a failure in place of
//! a header. The lemmas here say that the driver's report of a feed is the
//! reports of its deliveries one after another, that a failure never ends
//! the feed, that every header costs exactly one query, and that the counts
//! are reported in the order of the headers.

use vstd::prelude::*;
use crate::driver::{spec_step, Action, Driver, Event, Phase};
use crate::text::LogLine;

verus! {

/// What the driver has done after a sequence of events.
pub struct Run {
    /// The phase it is in.
    pub phase: Phase,
    /// The lines it reported, in order.
    pub lines: Seq<LogLine>,
    /// The actions it asked for, in order.
    pub actions: Seq<Action>,
    /// Whether it accepted every event.
    pub accepted: bool,
}

/// The line of a move as a sequence of at most one line.
pub open spec fn line_seq(line: Option<LogLine>) -> Seq<LogLine> {
    match line {
        Some(l) => seq![l],
        None => Seq::empty(),
    }
}

/// The driver's run over `events` from `phase`. It ends at the first event
/// that is refused.
pub open spec fn spec_run(phase: Phase, events: Seq<Event>) -> Run
    decreases events.len(),
{
    if events.len() == 0 {
        Run { phase, lines: Seq::empty(), actions: Seq::empty(), accepted: true }
    } else {
        match spec_step(phase, events[0]) {
            None => Run { phase, lines: Seq::empty(), actions: Seq::empty(), accepted: false },
            Some(t) => {
                let rest = spec_run(t.phase, events.skip(1));
                Run {
                    phase: rest.phase,
                    lines: line_seq(t.line) + rest.lines,
                    actions: seq![t.action] + rest.actions,
                    accepted: rest.accepted,
                }
            },
        }
    }
}

/// The node's answer to one blob query.
#[derive(Debug, PartialEq, Eq)]
pub enum Reply {
    /// It found `count` blobs.
    Blobs { count: usize },
    /// It failed.
    Failed { detail: String },
}

/// One element of the header feed, with what follows from it.
#[derive(Debug, PartialEq, Eq)]
pub enum Delivery {
    /// A header, and the node's answer to the query at its height.
    Header { height: u64, display: String, reply: Reply },
    /// A failure in place of a header.
    Failed { detail: String },
}

/// The event in which a reply arrives.
pub open spec fn reply_event(reply: Reply) -> Event {
    match reply {
        Reply::Blobs { count } => Event::Blobs { count },
        Reply::Failed { detail } => Event::BlobsFailed { detail },
    }
}

/// The line that reports a reply to the query at `height`.
pub open spec fn reply_line(height: u64, reply: Reply) -> LogLine {
    match reply {
        Reply::Blobs { count } => LogLine::BlobsFound { count, height },
        Reply::Failed { detail } => LogLine::BlobError { detail },
    }
}

/// The events of one delivery, as the driver meets them.
pub open spec fn delivery_events(d: Delivery) -> Seq<Event> {
    match d {
        Delivery::Header { height, display, reply } => seq![
            Event::Header { height, display },
            reply_event(reply),
        ],
        Delivery::Failed { detail } => seq![Event::HeaderFailed { detail }],
    }
}

/// The lines that one delivery is reported with.
pub open spec fn delivery_lines(d: Delivery) -> Seq<LogLine> {
    match d {
        Delivery::Header { height, display, reply } => seq![
            LogLine::Header { display },
            reply_line(height, reply),
        ],
        Delivery::Failed { detail } => seq![LogLine::HeaderError { detail }],
    }
}

/// The actions that one delivery causes.
pub open spec fn delivery_actions(d: Delivery) -> Seq<Action> {
    match d {
        Delivery::Header { height, display, reply } => seq![
            Action::QueryBlobs { height },
            Action::AwaitHeader,
        ],
        Delivery::Failed { detail } => seq![Action::AwaitHeader],
    }
}

/// The events of a feed.
pub open spec fn feed_events(ds: Seq<Delivery>) -> Seq<Event>
    decreases ds.len(),
{
    if ds.len() == 0 {
        Seq::empty()
    } else {
        delivery_events(ds[0]) + feed_events(ds.skip(1))
    }
}

/// The lines of the deliveries of a feed, one delivery after another.
pub open spec fn feed_lines(ds: Seq<Delivery>) -> Seq<LogLine>
    decreases ds.len(),
{
    if ds.len() == 0 {
        Seq::empty()
    } else {
        delivery_lines(ds[0]) + feed_lines(ds.skip(1))
    }
}

/// The actions of the deliveries of a feed, one delivery after another.
pub open spec fn feed_actions(ds: Seq<Delivery>) -> Seq<Action>
    decreases ds.len(),
{
    if ds.len() == 0 {
        Seq::empty()
    } else {
        delivery_actions(ds[0]) + feed_actions(ds.skip(1))
    }
}

/// The heights of the queries among some actions, in order.
pub open spec fn queried_heights(actions: Seq<Action>) -> Seq<u64>
    decreases actions.len(),
{
    if actions.len() == 0 {
        Seq::empty()
    } else {
        let rest = queried_heights(actions.skip(1));
        match actions[0] {
            Action::QueryBlobs { height } => seq![height] + rest,
            _ => rest,
        }
    }
}

/// The heights of the headers of a feed, in order of delivery.
pub open spec fn header_heights(ds: Seq<Delivery>) -> Seq<u64>
    decreases ds.len(),
{
    if ds.len() == 0 {
        Seq::empty()
    } else {
        let rest = header_heights(ds.skip(1));
        match ds[0] {
            Delivery::Header { height, .. } => seq![height] + rest,
            Delivery::Failed { .. } => rest,
        }
    }
}

/// The count and height of each line that reports found blobs, in order.
pub open spec fn found_reports(lines: Seq<LogLine>) -> Seq<(usize, u64)>
    decreases lines.len(),
{
    if lines.len() == 0 {
        Seq::empty()
    } else {
        let rest = found_reports(lines.skip(1));
        match lines[0] {
            LogLine::BlobsFound { count, height } => seq![(count, height)] + rest,
            _ => rest,
        }
    }
}

/// The count and height of each answered query of a feed, in order of
/// delivery of the headers.
pub open spec fn answered_queries(ds: Seq<Delivery>) -> Seq<(usize, u64)>
    decreases ds.len(),
{
    if ds.len() == 0 {
        Seq::empty()
    } else {
        let rest = answered_queries(ds.skip(1));
        match ds[0] {
            Delivery::Header { height, reply: Reply::Blobs { count }, .. } => seq![
                (count, height),
            ] + rest,
            _ => rest,
        }
    }
}

/// The driver accepts every feed from the start and waits for a header at
/// its end; its lines and actions are those of the deliveries, in order.
pub proof fn lemma_run_of_feed(ds: Seq<Delivery>)
    ensures
        spec_run(Phase::AwaitingHeader, feed_events(ds)).accepted,
        spec_run(Phase::AwaitingHeader, feed_events(ds)).phase == Phase::AwaitingHeader,
        spec_run(Phase::AwaitingHeader, feed_events(ds)).lines == feed_lines(ds),
        spec_run(Phase::AwaitingHeader, feed_events(ds)).actions == feed_actions(ds),
    decreases ds.len(),
{
    let events = feed_events(ds);
    let run = spec_run(Phase::AwaitingHeader, events);
    if ds.len() == 0 {
        assert(run.lines =~= feed_lines(ds));
        assert(run.actions =~= feed_actions(ds));
    } else {
        let rest = ds.skip(1);
        lemma_run_of_feed(rest);
        let tail = feed_events(rest);
        let tail_run = spec_run(Phase::AwaitingHeader, tail);
        match ds[0] {
            Delivery::Failed { detail } => {
                assert(events[0] == Event::HeaderFailed { detail });
                assert(events.skip(1) =~= tail);
                assert(run.lines =~= feed_lines(ds));
                assert(run.actions =~= feed_actions(ds));
            },
            Delivery::Header { height, display, reply } => {
                let after = events.skip(1);
                assert(events[0] == Event::Header { height, display });
                assert(after[0] == reply_event(reply));
                assert(after.skip(1) =~= tail);
                let inner = spec_run(Phase::AwaitingBlobs { height }, after);
                assert(spec_step(Phase::AwaitingBlobs { height }, after[0]) is Some);
                assert(inner.lines =~= seq![reply_line(height, reply)] + tail_run.lines);
                assert(inner.actions =~= seq![Action::AwaitHeader] + tail_run.actions);
                assert(run.lines =~= feed_lines(ds));
                assert(run.actions =~= feed_actions(ds));
            },
        }
    }
}

/// A run over two sequences of events, the first of them accepted, is the
/// run over the first followed by the run over the second from where the
/// first ended.
pub proof fn lemma_run_concat(phase: Phase, a: Seq<Event>, b: Seq<Event>)
    requires
        spec_run(phase, a).accepted,
    ensures
        ({
            let first = spec_run(phase, a);
            let second = spec_run(first.phase, b);
            let whole = spec_run(phase, a + b);
            &&& whole.phase == second.phase
            &&& whole.lines == first.lines + second.lines
            &&& whole.actions == first.actions + second.actions
            &&& whole.accepted == second.accepted
        }),
    decreases a.len(),
{
    let first = spec_run(phase, a);
    let second = spec_run(first.phase, b);
    let whole = spec_run(phase, a + b);
    if a.len() == 0 {
        assert(a + b =~= b);
        assert(whole.lines =~= first.lines + second.lines);
        assert(whole.actions =~= first.actions + second.actions);
    } else {
        assert((a + b)[0] == a[0]);
        assert((a + b).skip(1) =~= a.skip(1) + b);
        let t = spec_step(phase, a[0])->Some_0;
        lemma_run_concat(t.phase, a.skip(1), b);
        assert(whole.lines =~= first.lines + second.lines);
        assert(whole.actions =~= first.actions + second.actions);
    }
}

/// When the feed ends, the driver stops: after any feed, the end of the
/// stream is accepted, adds no line, asks the caller to stop and leaves the
/// driver finished.
pub proof fn lemma_end_of_feed_stops(ds: Seq<Delivery>)
    ensures
        ({
            let run = spec_run(Phase::AwaitingHeader, feed_events(ds).push(Event::StreamEnded));
            &&& run.accepted
            &&& run.phase == Phase::Finished
            &&& run.lines == feed_lines(ds)
            &&& run.actions == feed_actions(ds).push(Action::Stop)
        }),
{
    let end = seq![Event::StreamEnded];
    lemma_run_of_feed(ds);
    lemma_run_concat(Phase::AwaitingHeader, feed_events(ds), end);
    assert(feed_events(ds).push(Event::StreamEnded) =~= feed_events(ds) + end);
    let last = spec_run(Phase::AwaitingHeader, end);
    assert(end[0] == Event::StreamEnded);
    assert(spec_run(Phase::Finished, end.skip(1)).lines =~= Seq::<LogLine>::empty());
    assert(last.lines =~= Seq::<LogLine>::empty());
    assert(last.actions =~= seq![Action::Stop]);
    assert(feed_lines(ds) + last.lines =~= feed_lines(ds));
    assert(feed_actions(ds) + last.actions =~= feed_actions(ds).push(Action::Stop));
}

/// Once finished, the driver accepts nothing more.
pub proof fn lemma_finished_is_final(event: Event)
    ensures
        spec_step(Phase::Finished, event) is None,
{
}

/// The lines of two feeds, one after the other, are the lines of the first
/// followed by the lines of the second; so it is with the actions.
pub proof fn lemma_feed_concat(a: Seq<Delivery>, b: Seq<Delivery>)
    ensures
        feed_lines(a + b) == feed_lines(a) + feed_lines(b),
        feed_actions(a + b) == feed_actions(a) + feed_actions(b),
    decreases a.len(),
{
    if a.len() == 0 {
        assert(a + b =~= b);
        assert(feed_lines(a) + feed_lines(b) =~= feed_lines(b));
        assert(feed_actions(a) + feed_actions(b) =~= feed_actions(b));
    } else {
        lemma_feed_concat(a.skip(1), b);
        assert((a + b)[0] == a[0]);
        assert((a + b).skip(1) =~= a.skip(1) + b);
        assert(feed_lines(a + b) =~= feed_lines(a) + feed_lines(b));
        assert(feed_actions(a + b) =~= feed_actions(a) + feed_actions(b));
    }
}

/// A failure does not end the feed. Let a failure arrive in place of a
/// header, let the query for the next header fail, and let any delivery
/// follow. Whatever came before, the driver reports both failures, each with
/// its own line, then treats the delivery that follows exactly as it would
/// have treated it alone, and goes on waiting for headers.
pub proof fn lemma_failures_do_not_end_the_feed(
    before: Seq<Delivery>,
    header_detail: String,
    height: u64,
    display: String,
    blob_detail: String,
    next: Delivery,
)
    ensures
        ({
            let failures = seq![
                Delivery::Failed { detail: header_detail },
                Delivery::Header {
                    height,
                    display,
                    reply: Reply::Failed { detail: blob_detail },
                },
            ];
            let run = spec_run(
                Phase::AwaitingHeader,
                feed_events(before + failures + seq![next]),
            );
            let alone = spec_run(Phase::AwaitingHeader, delivery_events(next));
            &&& run.accepted
            &&& run.phase == Phase::AwaitingHeader
            &&& run.lines == feed_lines(before) + seq![
                LogLine::HeaderError { detail: header_detail },
                LogLine::Header { display },
                LogLine::BlobError { detail: blob_detail },
            ] + alone.lines
            &&& run.actions == feed_actions(before) + seq![
                Action::AwaitHeader,
                Action::QueryBlobs { height },
                Action::AwaitHeader,
            ] + alone.actions
            &&& alone.accepted
            &&& alone.lines == delivery_lines(next)
            &&& alone.actions == delivery_actions(next)
        }),
{
    let first = Delivery::Failed { detail: header_detail };
    let second = Delivery::Header {
        height,
        display,
        reply: Reply::Failed { detail: blob_detail },
    };
    let failures = seq![first, second];
    let last = seq![next];
    lemma_run_of_feed(before + failures + last);
    lemma_feed_concat(before + failures, last);
    lemma_feed_concat(before, failures);
    lemma_run_of_feed(last);
    let none = Seq::<Delivery>::empty();
    assert(last[0] == next);
    assert(last.skip(1) =~= none);
    assert(feed_events(none) =~= Seq::<Event>::empty());
    assert(feed_lines(none) =~= Seq::<LogLine>::empty());
    assert(feed_actions(none) =~= Seq::<Action>::empty());
    assert(feed_events(last) =~= delivery_events(next));
    assert(feed_lines(last) =~= delivery_lines(next));
    assert(feed_actions(last) =~= delivery_actions(next));
    let rest = failures.skip(1);
    assert(failures[0] == first);
    assert(rest[0] == second);
    assert(rest.skip(1) =~= none);
    assert(feed_lines(rest) =~= delivery_lines(second));
    assert(feed_actions(rest) =~= delivery_actions(second));
    assert(feed_lines(failures) =~= seq![
        LogLine::HeaderError { detail: header_detail },
        LogLine::Header { display },
        LogLine::BlobError { detail: blob_detail },
    ]);
    assert(feed_actions(failures) =~= seq![
        Action::AwaitHeader,
        Action::QueryBlobs { height },
        Action::AwaitHeader,
    ]);
}

/// While a blob query is outstanding the driver takes nothing from the
/// header feed: a header, a failure of the feed and the end of the feed are
/// all refused until the query's answer has arrived.
pub proof fn lemma_no_header_before_the_answer(height: u64, event: Event)
    requires
        event is Header || event is HeaderFailed || event is StreamEnded,
    ensures
        spec_step(Phase::AwaitingBlobs { height }, event) is None,
{
}

/// Every header costs exactly one query, at the header's height: the
/// heights that the driver queries over a feed are the heights of the feed's
/// headers, one for one and in the same order.
pub proof fn lemma_one_query_per_header(ds: Seq<Delivery>)
    ensures
        queried_heights(spec_run(Phase::AwaitingHeader, feed_events(ds)).actions)
            == header_heights(ds),
    decreases ds.len(),
{
    lemma_run_of_feed(ds);
    lemma_queries_of_feed(ds);
}

/// The heights queried by the actions of a feed are the heights of its
/// headers.
proof fn lemma_queries_of_feed(ds: Seq<Delivery>)
    ensures
        queried_heights(feed_actions(ds)) == header_heights(ds),
    decreases ds.len(),
{
    let actions = feed_actions(ds);
    if ds.len() == 0 {
    } else {
        let rest = ds.skip(1);
        lemma_queries_of_feed(rest);
        match ds[0] {
            Delivery::Failed { detail } => {
                assert(actions[0] == Action::AwaitHeader);
                assert(actions.skip(1) =~= feed_actions(rest));
            },
            Delivery::Header { height, display, reply } => {
                let after = actions.skip(1);
                assert(actions[0] == Action::QueryBlobs { height });
                assert(after[0] == Action::AwaitHeader);
                assert(after.skip(1) =~= feed_actions(rest));
                assert(queried_heights(after) == header_heights(rest));
            },
        }
    }
}

/// The counts are reported in the order in which the headers were
/// delivered: the lines that report found blobs give, in order, the count
/// and the height of each answered query of the feed.
pub proof fn lemma_reports_follow_the_headers(ds: Seq<Delivery>)
    ensures
        found_reports(spec_run(Phase::AwaitingHeader, feed_events(ds)).lines)
            == answered_queries(ds),
{
    lemma_run_of_feed(ds);
    lemma_reports_of_feed(ds);
}

/// The reports among the lines of a feed are its answered queries.
proof fn lemma_reports_of_feed(ds: Seq<Delivery>)
    ensures
        found_reports(feed_lines(ds)) == answered_queries(ds),
    decreases ds.len(),
{
    let lines = feed_lines(ds);
    if ds.len() == 0 {
    } else {
        let rest = ds.skip(1);
        lemma_reports_of_feed(rest);
        match ds[0] {
            Delivery::Failed { detail } => {
                assert(lines[0] == LogLine::HeaderError { detail });
                assert(lines.skip(1) =~= feed_lines(rest));
            },
            Delivery::Header { height, display, reply } => {
                let after = lines.skip(1);
                assert(lines[0] == LogLine::Header { display });
                assert(after[0] == reply_line(height, reply));
                assert(after.skip(1) =~= feed_lines(rest));
                assert(found_reports(after) == match reply {
                    Reply::Blobs { count } => seq![(count, height)] + answered_queries(rest),
                    Reply::Failed { .. } => answered_queries(rest),
                });
            },
        }
    }
}

/// The lines of a feed that is one delivery longer are the lines of the
/// feed followed by the lines of that delivery.
proof fn lemma_feed_lines_push(ds: Seq<Delivery>, d: Delivery)
    ensures
        feed_lines(ds.push(d)) == feed_lines(ds) + delivery_lines(d),
{
    let last = seq![d];
    lemma_feed_concat(ds, last);
    assert(ds.push(d) =~= ds + last);
    assert(last[0] == d);
    assert(last.skip(1) =~= Seq::<Delivery>::empty());
    assert(feed_lines(Seq::<Delivery>::empty()) =~= Seq::<LogLine>::empty());
    assert(feed_lines(last) =~= delivery_lines(d));
}

/// Runs a fresh driver over a recorded feed, event by event, and collects
/// the lines it reports. They are the lines of the feed's deliveries, in
/// order.
pub fn replay(feed: &Vec<Delivery>) -> (lines: Vec<LogLine>)
    ensures
        lines@ == feed_lines(feed@),
{
    let mut driver = Driver::new();
    let mut lines: Vec<LogLine> = Vec::new();
    let mut i: usize = 0;
    assert(feed@.take(0) =~= Seq::<Delivery>::empty());
    while i < feed.len()
        invariant
            i <= feed@.len(),
            driver.spec_phase() == Phase::AwaitingHeader,
            lines@ == feed_lines(feed@.take(i as int)),
        decreases feed@.len() - i,
    {
        proof {
            lemma_feed_lines_push(feed@.take(i as int), feed@[i as int]);
            assert(feed@.take(i + 1) =~= feed@.take(i as int).push(feed@[i as int]));
        }
        let ghost before = lines@;
        match &feed[i] {
            Delivery::Header { height, display, reply } => {
                let header = Event::Header { height: *height, display: display.clone() };
                if let Ok(step) = driver.step(header) {
                    if let Some(line) = step.line {
                        lines.push(line);
                    }
                }
                let answer = match reply {
                    Reply::Blobs { count } => Event::Blobs { count: *count },
                    Reply::Failed { detail } => Event::BlobsFailed { detail: detail.clone() },
                };
                if let Ok(step) = driver.step(answer) {
                    if let Some(line) = step.line {
                        lines.push(line);
                    }
                }
            },
            Delivery::Failed { detail } => {
                let failure = Event::HeaderFailed { detail: detail.clone() };
                if let Ok(step) = driver.step(failure) {
                    if let Some(line) = step.line {
                        lines.push(line);
                    }
                }
            },
        }
        assert(lines@ =~= before + delivery_lines(feed@[i as int]));
        i += 1;
    }
    assert(feed@.take(i as int) =~= feed@);
    lines
}

} // verus!
