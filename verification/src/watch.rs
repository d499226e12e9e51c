//! The file watcher of the development server: what it watches, and what
//! it makes of what it sees.

use crate::paths::{path_starts_with, path_strip_prefix};
use crate::rebuild::Change;
use crate::text::{first_occurrences, holds_text, texts};
use vstd::prelude::*;

verus! {

/// How long the file system has to be quiet before a change is reported,
/// in milliseconds.
pub const DEBOUNCE_MILLIS: u64 = 250;

/// How many changes, and how many rebuilds, wait for a reader that has
/// fallen behind before the oldest is dropped.
pub const CHANNEL_CAPACITY: usize = 8;

/// The name of the directory, directly below the site's directory, that
/// the site is built into.
pub open spec fn output_name() -> Seq<char> {
    "public"@
}

/// Whether a path below the root lies in the directory that the site is
/// built into.
pub open spec fn is_public_path(root: Seq<char>, path: Seq<char>) -> bool {
    path_starts_with(path_strip_prefix(path, root)->0, output_name())
}

/// Tells whether a path below the root lies in the directory that the site
/// is built into.
pub fn is_public(root: &str, desc: &str) -> (result: bool)
    requires
        path_strip_prefix(desc@, root@) is Some,
    ensures
        result == is_public_path(root@, desc@),
{
    match crate::paths::strip_prefix(desc, root) {
        Some(rest) => crate::paths::starts_with(rest.as_str(), "public"),
        None => false,
    }
}

/// Whether a path lies in the directory that the site is built into, which
/// may be any directory.
pub open spec fn is_output_path(output: Seq<char>, path: Seq<char>) -> bool {
    path_starts_with(path, output)
}

/// Tells whether a path lies in the directory that the site is built into.
pub fn is_output(output: &str, path: &str) -> (result: bool)
    ensures
        result == is_output_path(output@, path@),
{
    crate::paths::starts_with(path, output)
}

/// Whether an entry of the root directory is watched: it lies below the
/// root, and not in the directory that the site is built into.
pub open spec fn is_watched(root: Seq<char>, output: Seq<char>, entry: Seq<char>) -> bool {
    path_strip_prefix(entry, root) is Some && !is_output_path(output, entry)
}

/// The entries that are watched, in their order.
pub open spec fn watched(
    root: Seq<char>,
    output: Seq<char>,
    entries: Seq<Seq<char>>,
) -> Seq<Seq<char>>
    decreases entries.len(),
{
    if entries.len() == 0 {
        Seq::empty()
    } else if is_watched(root, output, entries.last()) {
        watched(root, output, entries.drop_last()).push(entries.last())
    } else {
        watched(root, output, entries.drop_last())
    }
}

/// Picks the entries of the root directory that are watched: all but what
/// lies in the directory that the site is built into, so that the watcher
/// does not see what the build writes.
pub fn watch_targets(root: &str, output: &str, entries: &Vec<String>) -> (result: Vec<String>)
    ensures
        texts(result@) == watched(root@, output@, texts(entries@)),
{
    let mut result: Vec<String> = Vec::new();
    let mut i: usize = 0;
    while i < entries.len()
        invariant
            i <= entries.len(),
            texts(result@) == watched(root@, output@, texts(entries@).take(i as int)),
        decreases entries.len() - i,
    {
        let ghost before = texts(result@);
        assert(texts(entries@).take(i + 1).drop_last() =~= texts(entries@).take(i as int));
        assert(texts(entries@).take(i + 1).last() == entries@[i as int]@);
        if crate::paths::strip_prefix(entries[i].as_str(), root).is_some() && !is_output(
            output,
            entries[i].as_str(),
        ) {
            result.push(entries[i].clone());
            assert(texts(result@) =~= before.push(entries@[i as int]@));
        }
        i += 1;
    }
    assert(texts(entries@).take(i as int) =~= texts(entries@));
    result
}

/// Whether a top-level entry of a site lies in the directory that a site is
/// built into where nothing says otherwise: the directory `public` of the
/// site. An entry that does not lie below the root lies in no such
/// directory.
pub fn is_public_entry(root: &str, entry: &str) -> (result: bool)
    ensures
        result == (path_strip_prefix(entry@, root@) is Some && is_public_path(root@, entry@)),
{
    if crate::paths::strip_prefix(entry, root).is_some() {
        is_public(root, entry)
    } else {
        false
    }
}

/// The paths of a list of events, one event after another.
pub open spec fn event_paths(events: Seq<Vec<String>>) -> Seq<Seq<char>>
    decreases events.len(),
{
    if events.len() == 0 {
        Seq::empty()
    } else {
        event_paths(events.drop_last()) + texts(events.last()@)
    }
}

/// The paths that the events of one quiet period touched: their union, each
/// path once, in the order in which the paths were first seen.
pub open spec fn union_of(events: Seq<Vec<String>>) -> Seq<Seq<char>> {
    first_occurrences(event_paths(events))
}

impl Change {
    /// Makes one change of the events of one quiet period.
    pub fn from_events(events: &Vec<Vec<String>>) -> (change: Change)
        ensures
            change@ == union_of(events@),
    {
        let mut paths: Vec<String> = Vec::new();
        let mut i: usize = 0;
        assert(events@.take(0) =~= Seq::empty());
        while i < events.len()
            invariant
                i <= events.len(),
                texts(paths@) == first_occurrences(event_paths(events@.take(i as int))),
            decreases events.len() - i,
        {
            let ghost seen = event_paths(events@.take(i as int));
            let event = &events[i];
            assert(events@.take(i + 1).drop_last() =~= events@.take(i as int));
            assert(events@.take(i + 1).last() == events@[i as int]);
            let mut j: usize = 0;
            assert(seen + texts(event@).take(0) =~= seen);
            while j < event.len()
                invariant
                    j <= event.len(),
                    texts(paths@) == first_occurrences(seen + texts(event@).take(j as int)),
                decreases event.len() - j,
            {
                let ghost before = seen + texts(event@).take(j as int);
                let ghost after = seen + texts(event@).take(j + 1);
                let ghost held = texts(paths@);
                assert(after.drop_last() =~= before);
                assert(after.last() == event@[j as int]@);
                if !holds_text(&paths, event[j].as_str()) {
                    paths.push(event[j].clone());
                    assert(texts(paths@) =~= held.push(event@[j as int]@));
                }
                j += 1;
            }
            assert(texts(event@).take(j as int) =~= texts(event@));
            i += 1;
        }
        assert(events@.take(i as int) =~= events@);
        Change { paths }
    }
}

/// What the watcher is told.
#[derive(Debug)]
pub enum WatchEvent {
    /// The file system has been quiet: these are the events since the last
    /// quiet period, each with the paths that it touched.
    Batch(Vec<Vec<String>>),
    /// Watching failed for some events.
    Errors(Vec<String>),
    /// Nothing will be reported any more.
    Closed,
}

/// What the watcher asks of whoever drives it.
#[derive(Debug)]
pub enum WatchAction {
    /// Hand this change to the rebuild loop, and go on.
    Publish(Change),
    /// Log these errors, and go on.
    Report(Vec<String>),
    /// End the watcher.
    Stop,
}

/// Decides what the watcher does about what it is told. A batch of events
/// becomes one change with the union of their paths. Errors are reported
/// and do not end the watcher; only the end of the reports does.
pub fn watch_step(event: WatchEvent) -> (action: WatchAction)
    ensures
        match event {
            WatchEvent::Batch(events) => action matches WatchAction::Publish(change) && change@
                == union_of(events@),
            WatchEvent::Errors(errors) => action matches WatchAction::Report(reported)
                && reported == errors,
            WatchEvent::Closed => action is Stop,
        },
{
    match event {
        WatchEvent::Batch(events) => WatchAction::Publish(Change::from_events(&events)),
        WatchEvent::Errors(errors) => WatchAction::Report(errors),
        WatchEvent::Closed => WatchAction::Stop,
    }
}

/// A change names no path twice, and names exactly the paths that its
/// events touched.
pub proof fn change_is_a_union(events: Seq<Vec<String>>, path: Seq<char>)
    ensures
        union_of(events).no_duplicates(),
        union_of(events).contains(path) <==> event_paths(events).contains(path),
{
    crate::text::first_occurrences_no_repeats(event_paths(events));
    crate::text::first_occurrences_keeps_items(event_paths(events), path);
}

} // verus!
