//! The playback session: what is loaded, whether it advances, and how much of
//! it has been played. Times are milliseconds on the caller's clock.

use vstd::prelude::*;

verus! {

/// The state of the playback session.
///
/// While `Playing`, the time played is `offset` plus the time that passed
/// since `started`; pause, resume and seek re-base these two once, so no
/// operation accumulates small differences.
#[derive(Clone, Copy, Debug, PartialEq, Eq, Structural)]
pub enum Playback {
    /// Nothing is loaded.
    Idle,
    /// The track advances.
    Playing { track_id: u128, started: u64, offset: u64 },
    /// The track is loaded and frozen.
    Paused { track_id: u128, elapsed: u64 },
}

/// `value` held into `[low, high]`.
pub open spec fn clamp(value: int, low: int, high: int) -> int {
    if value < low {
        low
    } else if value > high {
        high
    } else {
        value
    }
}

impl Playback {
    /// The track that is loaded, if any.
    pub open spec fn track(self) -> Option<u128> {
        match self {
            Playback::Idle => None,
            Playback::Playing { track_id, .. } => Some(track_id),
            Playback::Paused { track_id, .. } => Some(track_id),
        }
    }

    /// The time played at the instant `now`. A clock that runs backwards
    /// counts as standing still, and the sum stops at the largest `u64`.
    pub open spec fn elapsed_at(self, now: u64) -> u64 {
        match self {
            Playback::Idle => 0,
            Playback::Playing { started, offset, .. } => {
                let since: int = if now >= started {
                    now - started
                } else {
                    0
                };
                clamp(offset + since, 0, u64::MAX as int) as u64
            },
            Playback::Paused { elapsed, .. } => elapsed,
        }
    }

    /// The time played as a progress display shows it: never beyond the
    /// track's duration.
    pub open spec fn shown_at(self, now: u64, duration: u64) -> u64 {
        if self.elapsed_at(now) <= duration {
            self.elapsed_at(now)
        } else {
            duration
        }
    }

    /// The track advances and has reached its end.
    pub open spec fn finished_at(self, now: u64, duration: u64) -> bool {
        self is Playing && self.elapsed_at(now) >= duration
    }

    /// The session after a pause at `now`: a playing track freezes at the
    /// time it has played.
    pub open spec fn paused_at(self, now: u64) -> Playback {
        match self {
            Playback::Playing { track_id, .. } => Playback::Paused {
                track_id,
                elapsed: self.elapsed_at(now),
            },
            _ => self,
        }
    }

    /// The session after a resume at `now`: a paused track advances again
    /// from the time it had played.
    pub open spec fn resumed_at(self, now: u64) -> Playback {
        match self {
            Playback::Paused { track_id, elapsed } => Playback::Playing {
                track_id,
                started: now,
                offset: elapsed,
            },
            _ => self,
        }
    }

    /// Pause a playing track, resume a paused one, leave `Idle` alone.
    pub open spec fn toggled_at(self, now: u64) -> Playback {
        match self {
            Playback::Idle => self,
            Playback::Playing { .. } => self.paused_at(now),
            Playback::Paused { .. } => self.resumed_at(now),
        }
    }

    /// Where a seek by `delta` lands in a track of the given duration.
    pub open spec fn seek_target(self, delta: i64, duration: u64, now: u64) -> u64 {
        clamp(self.elapsed_at(now) + delta, 0, duration as int) as u64
    }

    /// The session after a seek by `delta` at `now`.
    pub open spec fn sought(self, delta: i64, duration: u64, now: u64) -> Playback {
        match self {
            Playback::Idle => self,
            Playback::Playing { track_id, .. } => Playback::Playing {
                track_id,
                started: now,
                offset: self.seek_target(delta, duration, now),
            },
            Playback::Paused { track_id, .. } => Playback::Paused {
                track_id,
                elapsed: self.seek_target(delta, duration, now),
            },
        }
    }

    /// The session after one toggle at each of `times`, in order.
    pub open spec fn after_toggles(self, times: Seq<u64>) -> Playback
        decreases times.len(),
    {
        if times.len() == 0 {
            self
        } else {
            self.toggled_at(times[0]).after_toggles(times.drop_first())
        }
    }

    /// A session that plays `track_id` from its beginning, started at `now`.
    pub fn start(track_id: u128, now: u64) -> (session: Playback)
        ensures
            session == (Playback::Playing { track_id, started: now, offset: 0 }),
            session.elapsed_at(now) == 0,
    {
        Playback::Playing { track_id, started: now, offset: 0 }
    }

    /// The track that is loaded, if any.
    pub fn current_track(&self) -> (id: Option<u128>)
        ensures
            id == self.track(),
    {
        match self {
            Playback::Idle => None,
            Playback::Playing { track_id, .. } => Some(*track_id),
            Playback::Paused { track_id, .. } => Some(*track_id),
        }
    }

    /// Whether a track advances.
    pub fn is_playing(&self) -> (playing: bool)
        ensures
            playing == (*self is Playing),
    {
        match self {
            Playback::Playing { .. } => true,
            _ => false,
        }
    }

    /// The time played at the instant `now`.
    pub fn elapsed(&self, now: u64) -> (ms: u64)
        ensures
            ms == self.elapsed_at(now),
    {
        match self {
            Playback::Idle => 0,
            Playback::Playing { started, offset, .. } => offset.saturating_add(
                now.saturating_sub(*started),
            ),
            Playback::Paused { elapsed, .. } => *elapsed,
        }
    }

    /// The time played, held to the track's duration for display.
    pub fn shown(&self, now: u64, duration: u64) -> (ms: u64)
        ensures
            ms == self.shown_at(now, duration),
            ms <= duration,
    {
        let played: u64 = self.elapsed(now);
        if played <= duration {
            played
        } else {
            duration
        }
    }

    /// Whether the track advances and has reached its end.
    pub fn is_finished(&self, now: u64, duration: u64) -> (done: bool)
        ensures
            done == self.finished_at(now, duration),
    {
        self.is_playing() && self.elapsed(now) >= duration
    }

    /// Freeze a playing track at the time it has played.
    pub fn pause(&self, now: u64) -> (next: Playback)
        ensures
            next == self.paused_at(now),
    {
        match self {
            Playback::Playing { track_id, .. } => Playback::Paused {
                track_id: *track_id,
                elapsed: self.elapsed(now),
            },
            _ => *self,
        }
    }

    /// Let a paused track advance again.
    pub fn resume(&self, now: u64) -> (next: Playback)
        ensures
            next == self.resumed_at(now),
    {
        match self {
            Playback::Paused { track_id, elapsed } => Playback::Playing {
                track_id: *track_id,
                started: now,
                offset: *elapsed,
            },
            _ => *self,
        }
    }

    /// Pause a playing track, resume a paused one.
    pub fn toggle(&self, now: u64) -> (next: Playback)
        ensures
            next == self.toggled_at(now),
    {
        match self {
            Playback::Idle => *self,
            Playback::Playing { .. } => self.pause(now),
            Playback::Paused { .. } => self.resume(now),
        }
    }

    /// Where a seek by `delta` lands: the time played plus `delta`, held
    /// into `[0, duration]`.
    pub fn target_of_seek(&self, delta: i64, duration: u64, now: u64) -> (target: u64)
        ensures
            target == self.seek_target(delta, duration, now),
            target <= duration,
    {
        let played: u64 = self.elapsed(now);
        let moved: u64 = if delta >= 0 {
            played.saturating_add(delta as u64)
        } else {
            let back: i128 = -(delta as i128);
            played.saturating_sub(back as u64)
        };
        if moved <= duration {
            moved
        } else {
            duration
        }
    }

    /// Move the position of the loaded track by `delta`.
    pub fn seek(&self, delta: i64, duration: u64, now: u64) -> (next: Playback)
        ensures
            next == self.sought(delta, duration, now),
    {
        match self {
            Playback::Idle => *self,
            Playback::Playing { track_id, .. } => Playback::Playing {
                track_id: *track_id,
                started: now,
                offset: self.target_of_seek(delta, duration, now),
            },
            Playback::Paused { track_id, .. } => Playback::Paused {
                track_id: *track_id,
                elapsed: self.target_of_seek(delta, duration, now),
            },
        }
    }
}

/// The time played never runs backwards as the clock advances, and stands
/// still while the session is paused.
pub proof fn lemma_elapsed_monotonic(session: Playback, earlier: u64, later: u64)
    requires
        earlier <= later,
    ensures
        session.elapsed_at(earlier) <= session.elapsed_at(later),
        session is Paused ==> session.elapsed_at(earlier) == session.elapsed_at(later),
{
}

/// While paused, the time played is the same at every instant.
pub proof fn lemma_paused_is_frozen(session: Playback, one: u64, other: u64)
    requires
        session is Paused,
    ensures
        session.elapsed_at(one) == session.elapsed_at(other),
{
}

/// Neither a pause nor a resume changes the time played at the instant it
/// happens; a resume in particular does not reset it to zero.
pub proof fn lemma_toggle_keeps_elapsed(session: Playback, now: u64)
    ensures
        session.paused_at(now).elapsed_at(now) == session.elapsed_at(now),
        session.resumed_at(now).elapsed_at(now) == session.elapsed_at(now),
        session.toggled_at(now).elapsed_at(now) == session.elapsed_at(now),
        session.toggled_at(now).track() == session.track(),
{
}

/// `times` never runs backwards and stays within `[from, until]`.
pub open spec fn ordered_within(times: Seq<u64>, from: u64, until: u64) -> bool {
    &&& from <= until
    &&& forall|i: int| 0 <= i < times.len() ==> from <= #[trigger] times[i] <= until
    &&& forall|i: int, j: int| 0 <= i <= j < times.len() ==> times[i] <= times[j]
}

/// Over any run of pauses and resumes at instants that do not run backwards,
/// the time played at the end is at least what it was at the beginning.
pub proof fn lemma_toggles_never_lose_time(session: Playback, times: Seq<u64>, from: u64, until: u64)
    requires
        ordered_within(times, from, until),
    ensures
        session.elapsed_at(from) <= session.after_toggles(times).elapsed_at(until),
        session.after_toggles(times).track() == session.track(),
    decreases times.len(),
{
    if times.len() > 0 {
        let first = times[0];
        let rest = times.drop_first();
        assert forall|i: int| 0 <= i < rest.len() implies first <= #[trigger] rest[i] <= until by {
            assert(rest[i] == times[i + 1]);
        }
        assert forall|i: int, j: int| 0 <= i <= j < rest.len() implies rest[i] <= rest[j] by {
            assert(rest[i] == times[i + 1]);
            assert(rest[j] == times[j + 1]);
        }
        lemma_elapsed_monotonic(session, from, first);
        lemma_toggle_keeps_elapsed(session, first);
        lemma_toggles_never_lose_time(session.toggled_at(first), rest, first, until);
    }
}

/// A seek lands within the track, and the time played right after it is
/// where it landed.
pub proof fn lemma_seek_is_clamped(session: Playback, delta: i64, duration: u64, now: u64)
    ensures
        session.seek_target(delta, duration, now) <= duration,
        session.seek_target(delta, duration, now) == clamp(
            session.elapsed_at(now) + delta,
            0,
            duration as int,
        ),
        !(session is Idle) ==> session.sought(delta, duration, now).elapsed_at(now)
            == session.seek_target(delta, duration, now),
        session.sought(delta, duration, now).track() == session.track(),
{
}

/// A playing track that is sought to its end or beyond counts as finished
/// from then on, exactly as one that played to its end.
pub proof fn lemma_seek_past_end_finishes(
    session: Playback,
    delta: i64,
    duration: u64,
    now: u64,
    later: u64,
)
    requires
        session is Playing,
        session.elapsed_at(now) + delta >= duration,
        now <= later,
    ensures
        session.sought(delta, duration, now).finished_at(later, duration),
{
}

} // verus!
