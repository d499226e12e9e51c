//! The rebuild loop of the development server, as a state machine.
//!
//! The loop takes one change at a time from the watcher, has the site built,
//! and publishes how the build went. It never has the site built twice at
//! once: while a build runs it takes nothing from the watcher.

use crate::text::texts;
use vstd::prelude::*;

verus! {

/// The paths that changed within one quiet period of the file system.
#[derive(Debug, Clone)]
pub struct Change {
    pub paths: Vec<String>,
}

impl View for Change {
    type V = Seq<Seq<char>>;

    open spec fn view(&self) -> Seq<Seq<char>> {
        texts(self.paths@)
    }
}

/// How one attempt to rebuild the site went.
#[derive(Debug, Clone)]
pub enum Rebuild {
    Success { paths: Vec<String> },
    Failure { cause: String },
}

/// A `Rebuild` as plain text.
pub enum RebuildView {
    Success { paths: Seq<Seq<char>> },
    Failure { cause: Seq<char> },
}

impl View for Rebuild {
    type V = RebuildView;

    open spec fn view(&self) -> RebuildView {
        match self {
            Rebuild::Success { paths } => RebuildView::Success { paths: texts(paths@) },
            Rebuild::Failure { cause } => RebuildView::Failure { cause: cause@ },
        }
    }
}

/// Where the rebuild loop stands.
#[derive(Debug)]
pub enum LoopState {
    /// No build runs; the loop waits for the watcher.
    Idle,
    /// A build runs, started by a change of these paths.
    Building { paths: Vec<String> },
    /// The watcher is gone and the loop has ended.
    Stopped,
}

pub enum LoopStateView {
    Idle,
    Building { paths: Seq<Seq<char>> },
    Stopped,
}

impl View for LoopState {
    type V = LoopStateView;

    open spec fn view(&self) -> LoopStateView {
        match self {
            LoopState::Idle => LoopStateView::Idle,
            LoopState::Building { paths } => LoopStateView::Building { paths: texts(paths@) },
            LoopState::Stopped => LoopStateView::Stopped,
        }
    }
}

/// What can happen to the rebuild loop.
#[derive(Debug)]
pub enum LoopEvent {
    /// The watcher handed over a change.
    Changed(Change),
    /// The loop fell behind and this many changes were dropped unseen.
    Lagged { skipped: u64 },
    /// The watcher is gone: no change will come any more.
    Closed,
    /// The running build succeeded.
    Built,
    /// The running build failed.
    BuildFailed { cause: String },
}

pub enum LoopEventView {
    Changed { paths: Seq<Seq<char>> },
    Lagged { skipped: u64 },
    Closed,
    Built,
    BuildFailed { cause: Seq<char> },
}

impl View for LoopEvent {
    type V = LoopEventView;

    open spec fn view(&self) -> LoopEventView {
        match self {
            LoopEvent::Changed(change) => LoopEventView::Changed { paths: change@ },
            LoopEvent::Lagged { skipped } => LoopEventView::Lagged { skipped: *skipped },
            LoopEvent::Closed => LoopEventView::Closed,
            LoopEvent::Built => LoopEventView::Built,
            LoopEvent::BuildFailed { cause } => LoopEventView::BuildFailed { cause: cause@ },
        }
    }
}

/// What the rebuild loop asks of whoever drives it.
#[derive(Debug)]
pub enum LoopAction {
    /// Build the whole site now, and report `Built` or `BuildFailed`.
    StartBuild,
    /// Tell every subscriber how the build went.
    Publish(Rebuild),
    /// Log that changes were lost, and go on waiting.
    ReportLag { skipped: u64 },
    /// End the loop.
    Stop,
    /// A build runs: keep this event and hand it in again afterwards.
    Defer,
    /// The event means nothing here.
    Ignore,
}

pub enum LoopActionView {
    StartBuild,
    Publish(RebuildView),
    ReportLag { skipped: u64 },
    Stop,
    Defer,
    Ignore,
}

impl View for LoopAction {
    type V = LoopActionView;

    open spec fn view(&self) -> LoopActionView {
        match self {
            LoopAction::StartBuild => LoopActionView::StartBuild,
            LoopAction::Publish(rebuild) => LoopActionView::Publish(rebuild@),
            LoopAction::ReportLag { skipped } => LoopActionView::ReportLag { skipped: *skipped },
            LoopAction::Stop => LoopActionView::Stop,
            LoopAction::Defer => LoopActionView::Defer,
            LoopAction::Ignore => LoopActionView::Ignore,
        }
    }
}

/// One step of the rebuild loop: the state after an event, and what to do.
///
/// While idle, a change starts a build of the whole site, a lag is reported
/// and waited out, and the end of the watcher ends the loop. While a build
/// runs, only its end is taken: a success is published with the paths of the
/// change that started it, a failure with its cause, and anything from the
/// watcher is deferred. Once stopped, nothing happens any more.
pub open spec fn loop_step(state: LoopStateView, event: LoopEventView) -> (
    LoopStateView,
    LoopActionView,
) {
    match state {
        LoopStateView::Idle => match event {
            LoopEventView::Changed { paths } => (
                LoopStateView::Building { paths },
                LoopActionView::StartBuild,
            ),
            LoopEventView::Lagged { skipped } => (
                LoopStateView::Idle,
                LoopActionView::ReportLag { skipped },
            ),
            LoopEventView::Closed => (LoopStateView::Stopped, LoopActionView::Stop),
            _ => (LoopStateView::Idle, LoopActionView::Ignore),
        },
        LoopStateView::Building { paths } => match event {
            LoopEventView::Built => (
                LoopStateView::Idle,
                LoopActionView::Publish(RebuildView::Success { paths }),
            ),
            LoopEventView::BuildFailed { cause } => (
                LoopStateView::Idle,
                LoopActionView::Publish(RebuildView::Failure { cause }),
            ),
            _ => (state, LoopActionView::Defer),
        },
        LoopStateView::Stopped => (LoopStateView::Stopped, LoopActionView::Ignore),
    }
}

/// Takes the rebuild loop one step further.
pub fn step(state: LoopState, event: LoopEvent) -> (result: (LoopState, LoopAction))
    ensures
        (result.0@, result.1@) == loop_step(state@, event@),
{
    match state {
        LoopState::Idle => match event {
            LoopEvent::Changed(change) => (
                LoopState::Building { paths: change.paths },
                LoopAction::StartBuild,
            ),
            LoopEvent::Lagged { skipped } => (LoopState::Idle, LoopAction::ReportLag { skipped }),
            LoopEvent::Closed => (LoopState::Stopped, LoopAction::Stop),
            LoopEvent::Built => (LoopState::Idle, LoopAction::Ignore),
            LoopEvent::BuildFailed { cause: _ } => (LoopState::Idle, LoopAction::Ignore),
        },
        LoopState::Building { paths } => match event {
            LoopEvent::Built => (
                LoopState::Idle,
                LoopAction::Publish(Rebuild::Success { paths }),
            ),
            LoopEvent::BuildFailed { cause } => (
                LoopState::Idle,
                LoopAction::Publish(Rebuild::Failure { cause }),
            ),
            LoopEvent::Changed(_) => (LoopState::Building { paths }, LoopAction::Defer),
            LoopEvent::Lagged { skipped: _ } => (LoopState::Building { paths }, LoopAction::Defer),
            LoopEvent::Closed => (LoopState::Building { paths }, LoopAction::Defer),
        },
        LoopState::Stopped => (LoopState::Stopped, LoopAction::Ignore),
    }
}

/// The state of a loop that started idle and has seen these events, and
/// everything it asked for on the way.
pub open spec fn run(events: Seq<LoopEventView>) -> (LoopStateView, Seq<LoopActionView>)
    decreases events.len(),
{
    if events.len() == 0 {
        (LoopStateView::Idle, Seq::empty())
    } else {
        let before = run(events.drop_last());
        let next = loop_step(before.0, events.last());
        (next.0, before.1.push(next.1))
    }
}

/// How many builds a list of actions starts.
pub open spec fn builds_started(actions: Seq<LoopActionView>) -> nat
    decreases actions.len(),
{
    if actions.len() == 0 {
        0
    } else {
        builds_started(actions.drop_last()) + if actions.last() is StartBuild {
            1nat
        } else {
            0nat
        }
    }
}

/// How many finished builds a list of actions publishes.
pub open spec fn builds_published(actions: Seq<LoopActionView>) -> nat
    decreases actions.len(),
{
    if actions.len() == 0 {
        0
    } else {
        builds_published(actions.drop_last()) + if actions.last() is Publish {
            1nat
        } else {
            0nat
        }
    }
}

/// How many builds run in a state: one or none.
pub open spec fn builds_in_flight(state: LoopStateView) -> nat {
    if state is Building {
        1
    } else {
        0
    }
}

/// At most one build is ever in flight. Whatever events arrive and in
/// whatever order, the builds started so far are the builds published so
/// far, plus the one that runs now if one does. So no build starts before
/// the one before it has been published.
pub proof fn one_build_at_a_time(events: Seq<LoopEventView>)
    ensures
        builds_started(run(events).1) == builds_published(run(events).1) + builds_in_flight(
            run(events).0,
        ),
        builds_in_flight(run(events).0) <= 1,
        run(events).1.len() == events.len(),
    decreases events.len(),
{
    if events.len() > 0 {
        one_build_at_a_time(events.drop_last());
        let before = run(events.drop_last());
        let next = loop_step(before.0, events.last());
        assert(run(events).1.drop_last() =~= before.1);
        assert(run(events).1.last() == next.1);
    }
}

/// A loop that sees every prefix of a list of events asks, at each of them,
/// for the first actions of what it asks for in the end.
pub proof fn run_extends(events: Seq<LoopEventView>, n: int)
    requires
        0 <= n <= events.len(),
    ensures
        run(events.take(n)).1 == run(events).1.take(n),
    decreases events.len() - n,
{
    one_build_at_a_time(events);
    if n == events.len() {
        assert(events.take(n) =~= events);
        assert(run(events).1.take(n) =~= run(events).1);
    } else {
        run_extends(events, n + 1);
        let longer = events.take(n + 1);
        assert(longer.drop_last() =~= events.take(n));
        one_build_at_a_time(events.take(n));
        assert(run(longer).1.drop_last() =~= run(events.take(n)).1);
        assert(run(events).1.take(n) =~= run(events).1.take(n + 1).drop_last());
    }
}

/// Between two builds that a loop starts, it publishes one: a second build
/// never starts before the first has finished.
pub proof fn builds_are_serial(events: Seq<LoopEventView>, first: int, second: int)
    requires
        0 <= first < second < events.len(),
        run(events).1[first] is StartBuild,
        run(events).1[second] is StartBuild,
    ensures
        exists|between: int| first < between < second && run(events).1[between] is Publish,
{
    let actions = run(events).1;
    one_build_at_a_time(events);
    // After the first build has started, one is in flight.
    let upto_first = events.take(first + 1);
    run_extends(events, first + 1);
    one_build_at_a_time(upto_first);
    assert(upto_first.drop_last() =~= events.take(first));
    assert(run(upto_first).1.last() == actions[first]);
    assert(run(upto_first).0 is Building);
    // Just before the second build starts, none is.
    let upto_second = events.take(second + 1);
    run_extends(events, second + 1);
    one_build_at_a_time(upto_second);
    assert(upto_second.drop_last() =~= events.take(second));
    assert(run(upto_second).1.last() == actions[second]);
    assert(run(events.take(second)).0 is Idle);
    published_between(events, first + 1, second);
}

/// A loop that is building at one moment and idle at a later one has
/// published a build in between.
proof fn published_between(events: Seq<LoopEventView>, from: int, to: int)
    requires
        0 <= from <= to <= events.len(),
        run(events.take(from)).0 is Building,
        !(run(events.take(to)).0 is Building),
    ensures
        exists|between: int| from <= between < to && run(events).1[between] is Publish,
    decreases to - from,
{
    one_build_at_a_time(events);
    if from < to {
        let longer = events.take(from + 1);
        assert(longer.drop_last() =~= events.take(from));
        run_extends(events, from + 1);
        one_build_at_a_time(longer);
        assert(run(longer).1.last() == run(events).1[from]);
        if run(events).1[from] is Publish {
        } else {
            assert(run(longer).0 is Building);
            published_between(events, from + 1, to);
        }
    }
}

/// Falling behind never ends the loop: after a lag it stands where it stood,
/// and an idle loop reports the lag and waits again.
pub proof fn lag_is_survived(events: Seq<LoopEventView>, skipped: u64)
    ensures
        run(events.push(LoopEventView::Lagged { skipped })).0 == run(events).0,
        run(events).0 is Idle ==> run(events.push(LoopEventView::Lagged { skipped })).1.last()
            == (LoopActionView::ReportLag { skipped }),
{
    let longer = events.push(LoopEventView::Lagged { skipped });
    assert(longer.drop_last() =~= events);
}

/// A loop that is building was told of a change with the paths that it
/// builds for, started the build then, and has deferred everything since.
proof fn building_has_its_change(events: Seq<LoopEventView>)
    ensures
        run(events).0 matches LoopStateView::Building { paths } ==> exists|i: int|
            0 <= i < events.len() && events[i] == (LoopEventView::Changed { paths })
                && #[trigger] run(events).1[i] is StartBuild && forall|k: int|
                i < k < events.len() ==> #[trigger] run(events).1[k] is Defer,
    decreases events.len(),
{
    if events.len() > 0 {
        let init = events.drop_last();
        building_has_its_change(init);
        one_build_at_a_time(init);
        one_build_at_a_time(events);
        let before = run(init);
        let actions = run(events).1;
        assert(actions.drop_last() =~= before.1);
        if run(events).0 is Building {
            let paths = run(events).0->paths;
            if before.0 is Building {
                let i = choose|i: int|
                    0 <= i < init.len() && init[i] == (LoopEventView::Changed { paths })
                        && #[trigger] before.1[i] is StartBuild && forall|k: int|
                        i < k < init.len() ==> #[trigger] before.1[k] is Defer;
                assert(events[i] == init[i]);
                assert(actions[i] == before.1[i]);
                assert forall|k: int| i < k < events.len() implies #[trigger] actions[k]
                    is Defer by {
                    if k < init.len() {
                        assert(actions[k] == before.1[k]);
                    }
                }
            } else {
                let i = events.len() - 1;
                assert(events[i] == (LoopEventView::Changed { paths }));
                assert(actions[i] is StartBuild);
            }
        }
    }
}

/// A published success names the paths of one change: the change that
/// started the build. Between that change and the success nothing else was
/// taken from the watcher, so no path of a later change is named.
pub proof fn success_names_its_change(events: Seq<LoopEventView>, at: int, paths: Seq<Seq<char>>)
    requires
        0 <= at < events.len(),
        run(events).1[at] == LoopActionView::Publish(RebuildView::Success { paths }),
    ensures
        exists|i: int|
            0 <= i < at && events[i] == (LoopEventView::Changed { paths }) && #[trigger] run(
                events,
            ).1[i] is StartBuild && forall|k: int|
                i < k < at ==> #[trigger] run(events).1[k] is Defer,
{
    let earlier = events.take(at);
    let upto = events.take(at + 1);
    run_extends(events, at);
    run_extends(events, at + 1);
    one_build_at_a_time(events);
    one_build_at_a_time(earlier);
    one_build_at_a_time(upto);
    assert(upto.drop_last() =~= earlier);
    assert(run(upto).1.last() == run(events).1[at]);
    assert(run(earlier).0 == LoopStateView::Building { paths });
    building_has_its_change(earlier);
    let i = choose|i: int|
        0 <= i < earlier.len() && earlier[i] == (LoopEventView::Changed { paths })
            && #[trigger] run(earlier).1[i] is StartBuild && forall|k: int|
            i < k < earlier.len() ==> #[trigger] run(earlier).1[k] is Defer;
    assert(events[i] == earlier[i]);
    assert(run(events).1[i] == run(earlier).1[i]);
    assert forall|k: int| i < k < at implies #[trigger] run(events).1[k] is Defer by {
        assert(run(events).1[k] == run(earlier).1[k]);
    }
}

} // verus!
