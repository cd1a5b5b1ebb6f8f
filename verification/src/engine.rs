//! The self-throttling state machine behind the decision stream.
//!
//! The stream engine repeatedly fetches decisions, never closer together
//! than a caller-chosen minimum interval, measured from when the
//! previous fetch was issued — so delay never compounds, and the very
//! first fetch waits for nothing. The decisions of that loop (how long
//! to wait, when to clear the `startup` flag, whether to go on after a
//! fetch) live here as verified functions; the unverified shell only
//! performs the waits and the fetches, one at a time, and drops the
//! state when the consumer stops pulling.

use vstd::prelude::*;

use crate::options::{DecisionsStreamOptions, DecisionsStreamOptionsV};

verus! {

/// The options as they stand after the first successful fetch: only the
/// cold-start flag is cleared.
pub open spec fn with_startup_cleared(o: DecisionsStreamOptionsV) -> DecisionsStreamOptionsV {
    DecisionsStreamOptionsV {
        startup: false,
        scopes: o.scopes,
        origins: o.origins,
        scenarios: o.scenarios,
    }
}

/// One stream invocation's own state: its copy of the options and the
/// instant (as milliseconds on the shell's monotonic clock) when the
/// last fetch was issued, if any.
pub struct StreamState {
    pub options: DecisionsStreamOptions,
    pub last_fetch: Option<u64>,
}

impl StreamState {
    /// A fresh stream: no fetch has happened, and the options are used
    /// exactly as the caller passed them — this invocation owns its own
    /// copy, so the caller's value is never written to.
    pub fn new(options: DecisionsStreamOptions) -> (r: StreamState)
        ensures
            r.options == options,
            r.last_fetch is None,
    {
        StreamState { options, last_fetch: None }
    }

    /// Milliseconds to wait before the next fetch: zero before the very
    /// first one, otherwise whatever is left of `min_interval` since the
    /// last fetch was issued. The wait never overshoots: issuing the next
    /// fetch at `now + w` keeps it at least `min_interval` after the
    /// last one.
    pub fn wait_before_fetch(&self, now: u64, min_interval: u64) -> (w: u64)
        requires
            self.last_fetch matches Some(t) ==> t <= now,
        ensures
            self.last_fetch is None ==> w == 0,
            self.last_fetch matches Some(t) ==> w == if now - t >= min_interval {
                0u64
            } else {
                (min_interval - (now - t)) as u64
            },
            self.last_fetch matches Some(t) ==> now + w >= t + min_interval,
    {
        match self.last_fetch {
            None => 0,
            Some(t) => {
                let elapsed = now - t;
                if elapsed >= min_interval {
                    0
                } else {
                    min_interval - elapsed
                }
            },
        }
    }

    /// Record that a fetch is being issued now. The options are not
    /// touched.
    pub fn note_fetch_issued(&mut self, now: u64)
        ensures
            final(self).last_fetch == Some(now),
            final(self).options == old(self).options,
    {
        self.last_fetch = Some(now);
    }

    /// Digest the outcome of a fetch, and say whether the stream goes
    /// on. After a success the cold-start flag is cleared, so every
    /// request after the first successful one asks only for deltas; a
    /// failure is yielded to the consumer and ends the stream, and the
    /// options are left as they were.
    pub fn note_fetch_outcome(&mut self, success: bool) -> (go_on: bool)
        ensures
            go_on == success,
            final(self).last_fetch == old(self).last_fetch,
            success ==> final(self).options@ == with_startup_cleared(old(self).options@),
            !success ==> final(self).options == old(self).options,
    {
        if success {
            if self.options.startup {
                self.options.startup = false;
            }
            true
        } else {
            false
        }
    }
}

/// Law: clearing the cold-start flag touches nothing else, and clearing
/// it again after a later success changes nothing more — so however the
/// caller set the first iteration's options, every iteration after the
/// first successful one runs with `startup` false and the other filters
/// exactly as passed in.
pub proof fn lemma_startup_cleared_once(o: DecisionsStreamOptionsV)
    ensures
        !with_startup_cleared(o).startup,
        with_startup_cleared(o).scopes == o.scopes,
        with_startup_cleared(o).origins == o.origins,
        with_startup_cleared(o).scenarios == o.scenarios,
        with_startup_cleared(with_startup_cleared(o)) == with_startup_cleared(o),
{
}

/// Law: two consecutive fetch instants respect the minimum interval.
/// If the last fetch was issued at `t` and the engine, asked at `now`,
/// answers a wait of `w`, then the next fetch instant `now + w` is at
/// least `min_interval` after `t` — and when a whole `min_interval` has
/// already elapsed, the engine does not wait at all.
pub proof fn lemma_min_interval_kept(t: u64, now: u64, min_interval: u64, w: u64)
    requires
        t <= now,
        w == if now - t >= min_interval {
            0u64
        } else {
            (min_interval - (now - t)) as u64
        },
    ensures
        now + w >= t + min_interval,
        now - t >= min_interval ==> w == 0,
{
}

} // verus!
