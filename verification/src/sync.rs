//! Carrying opacity changes from the stored configuration to the renderer:
//! the shared opacity cell and the change detection of the polling task.

use crate::config::{
    clamp_opacity, clamp_spec, clamped, config_of, in_opacity_range, is_valid_opacity,
    ConfigDocument, OverlayConfig, MIN_OPACITY,
};
use std::sync::atomic::AtomicU8;
use vstd::prelude::*;

verus! {

/// Opacity in force before the stored configuration has been read once.
pub const INITIAL_OPACITY: u8 = 100;

/// Time between two reads of the stored configuration, in milliseconds.
pub const POLL_PERIOD_MS: u64 = 100;

/// The opacity currently in force, shared between the polling task, which
/// writes it, and the renderer, which reads it. A single atomic byte: no lock
/// is taken on either side.
pub struct SharedOpacity {
    cell: AtomicU8,
}

impl SharedOpacity {
    /// A cell that holds `INITIAL_OPACITY`.
    pub fn new() -> (shared: Self) {
        SharedOpacity { cell: AtomicU8::new(INITIAL_OPACITY) }
    }

    /// The opacity in force. Whatever the cell holds, a reader only ever sees
    /// a value of the opacity range.
    pub fn current(&self) -> (opacity: u8)
        ensures
            is_valid_opacity(opacity),
    {
        clamp_opacity(self.cell.load(std::sync::atomic::Ordering::Relaxed))
    }

    /// Puts the clamped `opacity` in force, and returns the value that was
    /// written to the cell.
    pub fn publish(&self, opacity: u8) -> (written: u8)
        ensures
            written == clamped(opacity),
            is_valid_opacity(written),
    {
        let written = clamp_opacity(opacity);
        self.cell.store(written, std::sync::atomic::Ordering::Relaxed);
        written
    }
}

/// What one poll of the stored configuration found.
#[derive(Clone, Copy, Debug, PartialEq, Eq, Structural)]
pub enum PollOutcome {
    /// Nothing to publish: the read failed, or the opacity is the one already
    /// published.
    Unchanged,
    /// The opacity differs from the published one and has to be published.
    Changed { from: u8, to: u8 },
}

/// The opacity that a poll finds: that of the configuration the document
/// stands for, or nothing where the read failed.
pub open spec fn polled_opacity(read: Option<ConfigDocument>) -> Option<u8> {
    match read {
        Some(document) => Some(config_of(document).opacity),
        None => None,
    }
}

/// The outcome of a poll that finds `read` while `last` is published.
pub open spec fn poll_outcome(last: u8, read: Option<ConfigDocument>) -> PollOutcome {
    match polled_opacity(read) {
        Some(opacity) if opacity != last => PollOutcome::Changed { from: last, to: opacity },
        _ => PollOutcome::Unchanged,
    }
}

/// The opacity that is published after a poll that finds `read` while `last`
/// is published.
pub open spec fn published_after(last: u8, read: Option<ConfigDocument>) -> u8 {
    match polled_opacity(read) {
        Some(opacity) => opacity,
        None => last,
    }
}

/// The opacity published after each of a run of polls, in order, starting
/// with `last` published.
pub open spec fn published_trace(last: u8, reads: Seq<Option<ConfigDocument>>) -> Seq<u8>
    decreases reads.len(),
{
    if reads.len() == 0 {
        Seq::empty()
    } else {
        let next = published_after(last, reads[0]);
        seq![next] + published_trace(next, reads.subrange(1, reads.len() as int))
    }
}

/// The change detection of the polling task: it remembers the opacity that
/// was published last.
#[derive(Clone, Copy, Debug, PartialEq, Eq, Structural)]
pub struct OpacityWatcher {
    last: u8,
}

impl OpacityWatcher {
    /// The opacity published last.
    pub closed spec fn last(&self) -> u8 {
        self.last
    }

    /// A watcher that takes `published` as the opacity in force.
    pub fn new(published: u8) -> (watcher: Self)
        ensures
            watcher.last() == published,
    {
        OpacityWatcher { last: published }
    }

    /// The opacity published last.
    pub fn last_published(&self) -> (opacity: u8)
        ensures
            opacity == self.last(),
    {
        self.last
    }

    /// Takes the result of one read of the stored configuration (`None` for a
    /// read or a parse that failed) and says whether a new opacity has to be
    /// published. A failed read changes nothing.
    pub fn observe(&mut self, read: Option<ConfigDocument>) -> (outcome: PollOutcome)
        ensures
            outcome == poll_outcome(old(self).last(), read),
            final(self).last() == published_after(old(self).last(), read),
            read is Some ==> in_opacity_range(final(self).last() as int),
    {
        match read {
            Some(document) => {
                let opacity = OverlayConfig::from_document(&document).opacity;
                if opacity != self.last {
                    let from = self.last;
                    self.last = opacity;
                    PollOutcome::Changed { from, to: opacity }
                } else {
                    PollOutcome::Unchanged
                }
            },
            None => PollOutcome::Unchanged,
        }
    }

    /// One poll against the shared cell: observes `read` and, where the
    /// opacity changed, puts the new one in force.
    pub fn poll(&mut self, shared: &SharedOpacity, read: Option<ConfigDocument>) -> (outcome:
        PollOutcome)
        ensures
            outcome == poll_outcome(old(self).last(), read),
            final(self).last() == published_after(old(self).last(), read),
    {
        let outcome = self.observe(read);
        match outcome {
            PollOutcome::Changed { from: _, to } => {
                shared.publish(to);
            },
            PollOutcome::Unchanged => {},
        }
        outcome
    }
}

/// A poll reports a change exactly when the read succeeded and found an
/// opacity other than the published one; the change then leads from the
/// published opacity to the clamped stored one.
pub proof fn change_is_strict_inequality(last: u8, read: Option<ConfigDocument>)
    ensures
        poll_outcome(last, read) is Changed <==> (read is Some && config_of(read->0).opacity
            != last),
        poll_outcome(last, read) is Changed ==> poll_outcome(last, read) == (PollOutcome::Changed {
            from: last,
            to: published_after(last, read),
        }),
        poll_outcome(last, read) is Unchanged ==> published_after(last, read) == last,
{
}

/// Finding the same document at two polls in a row reports at most one
/// change: the second poll is silent.
pub proof fn repeated_write_is_silent(last: u8, read: Option<ConfigDocument>)
    ensures
        poll_outcome(published_after(last, read), read) == PollOutcome::Unchanged,
        published_after(published_after(last, read), read) == published_after(last, read),
{
}

/// A stored opacity that clamps to the published one reports no change,
/// however often it is written.
pub proof fn published_value_is_silent(last: u8, document: ConfigDocument, value: i64)
    requires
        document.opacity == Some(value),
        clamp_spec(value as int) == last as int,
    ensures
        poll_outcome(last, Some(document)) == PollOutcome::Unchanged,
        published_after(last, Some(document)) == last,
{
}

/// After a successful read, the published opacity is the clamped stored one
/// (the default where the document names none), whatever was published before.
pub proof fn published_is_clamped(last: u8, document: ConfigDocument)
    ensures
        in_opacity_range(published_after(last, Some(document)) as int),
        document.opacity matches Some(value) ==> published_after(last, Some(document)) as int
            == clamp_spec(value as int),
        document.opacity is None ==> published_after(last, Some(document)) == MIN_OPACITY,
{
}

/// Over any run of polls, the published opacities follow the reads in order:
/// each poll publishes what `published_after` gives for the opacity published
/// before it, so a successful read publishes the clamped stored opacity and a
/// failed read leaves the published one.
pub proof fn trace_follows_the_reads(last: u8, reads: Seq<Option<ConfigDocument>>, i: int)
    requires
        0 <= i < reads.len(),
    ensures
        published_trace(last, reads).len() == reads.len(),
        published_trace(last, reads)[i] == published_after(
            if i == 0 {
                last
            } else {
                published_trace(last, reads)[i - 1]
            },
            reads[i],
        ),
        reads[i] matches Some(document) ==> published_trace(last, reads)[i] == config_of(
            document,
        ).opacity,
    decreases reads.len(),
{
    let next = published_after(last, reads[0]);
    let rest = reads.subrange(1, reads.len() as int);
    trace_has_one_entry_per_read(next, rest);
    if i > 0 {
        trace_follows_the_reads(next, rest, i - 1);
        assert(published_trace(last, reads)[i] == published_trace(next, rest)[i - 1]);
        if i > 1 {
            assert(published_trace(last, reads)[i - 1] == published_trace(next, rest)[i - 2]);
        }
    }
}

/// A run of polls publishes once per poll.
pub proof fn trace_has_one_entry_per_read(last: u8, reads: Seq<Option<ConfigDocument>>)
    ensures
        published_trace(last, reads).len() == reads.len(),
    decreases reads.len(),
{
    if reads.len() > 0 {
        trace_has_one_entry_per_read(
            published_after(last, reads[0]),
            reads.subrange(1, reads.len() as int),
        );
    }
}

/// Over any run of polls that starts from an opacity of the range, every
/// published opacity is of the range: no unclamped value is ever in force.
pub proof fn trace_stays_in_range(last: u8, reads: Seq<Option<ConfigDocument>>, i: int)
    requires
        in_opacity_range(last as int),
        0 <= i < reads.len(),
    ensures
        in_opacity_range(published_trace(last, reads)[i] as int),
    decreases i,
{
    trace_follows_the_reads(last, reads, i);
    if i > 0 {
        trace_stays_in_range(last, reads, i - 1);
    }
}

} // verus!
