//! Per-guild playback session: the track queue, the play state of the
//! current track, and its loop setting. Commands are modelled as transitions
//! on this state; each reports a distinct outcome so callers can tell a
//! benign no-op from an action taken.

use vstd::prelude::*;

verus! {

/// Immutable description of one enqueued track, attached at enqueue time.
/// The duration is in whole seconds.
#[derive(Clone, Debug)]
pub struct TrackMetadata {
    pub title: String,
    pub thumbnail_url: Option<String>,
    pub duration: Option<u64>,
}

/// Whether the current track is playing or paused.
#[derive(Clone, Copy, Debug, PartialEq, Eq, Structural)]
pub enum PlayState {
    Playing,
    Paused,
}

/// Loop setting of the current track: replay it forever or not at all.
#[derive(Clone, Copy, Debug, PartialEq, Eq, Structural)]
pub enum LoopSetting {
    Disabled,
    Infinite,
}

/// Outcome of asking to clear the queue.
#[derive(Clone, Copy, Debug, PartialEq, Eq, Structural)]
pub enum ClearOutcome {
    NothingToClear,
    Cleared,
}

/// Outcome of asking to pause the current track.
#[derive(Clone, Copy, Debug, PartialEq, Eq, Structural)]
pub enum PauseOutcome {
    NoTrack,
    AlreadyPaused,
    Paused,
}

/// Outcome of asking to resume the current track.
#[derive(Clone, Copy, Debug, PartialEq, Eq, Structural)]
pub enum ResumeOutcome {
    NoTrack,
    AlreadyPlaying,
    Resumed,
}

/// Outcome of asking to skip the current track.
#[derive(Clone, Copy, Debug, PartialEq, Eq, Structural)]
pub enum SkipOutcome {
    NoTrack,
    Skipped,
}

/// Outcome of toggling the loop setting of the current track.
#[derive(Clone, Copy, Debug, PartialEq, Eq, Structural)]
pub enum LoopOutcome {
    NoTrack,
    LoopEnabled,
    LoopDisabled,
}

/// Outcome of enqueueing a track: it either starts at once on an empty
/// queue, or waits behind the tracks already queued.
#[derive(Clone, Copy, Debug, PartialEq, Eq, Structural)]
pub enum EnqueueOutcome {
    StartedPlaying,
    Queued,
}

/// Outcome of a track-end event: either more tracks follow, or the queue
/// has ended and the auto-disconnect coordinator should be armed.
#[derive(Clone, Copy, Debug, PartialEq, Eq, Structural)]
pub enum TrackEndOutcome {
    NextUp,
    QueueEnded,
}

/// One guild's active voice session. `text_channel_id` is where
/// notifications are posted. The first queued track is the current one;
/// `play_state` and `loop_setting` describe it and are meaningful only
/// while the queue is non-empty.
pub struct Session {
    pub text_channel_id: u64,
    pub queue: Vec<TrackMetadata>,
    pub play_state: PlayState,
    pub loop_setting: LoopSetting,
}

/// The metadata attached at enqueue time, from whatever the audio source
/// reported: a missing title becomes `Unknown Track Title`.
pub fn resolve_metadata(title: Option<String>, thumbnail_url: Option<String>,
    duration_seconds: Option<u64>) -> (r: TrackMetadata)
    ensures
        title matches Some(t) ==> r.title@ == t@,
        title is None ==> r.title@ == "Unknown Track Title"@,
        r.thumbnail_url == thumbnail_url,
        r.duration == duration_seconds,
{
    let resolved_title = match title {
        Some(t) => t,
        None => String::from_str("Unknown Track Title"),
    };
    TrackMetadata { title: resolved_title, thumbnail_url, duration: duration_seconds }
}

/// A reported title, or the given fallback where none was reported.
pub fn title_or(title: Option<String>, fallback: &str) -> (r: String)
    ensures
        title matches Some(t) ==> r@ == t@,
        title is None ==> r@ == fallback@,
{
    match title {
        Some(t) => t,
        None => String::from_str(fallback),
    }
}

impl Session {
    /// Whether a track is currently loaded.
    pub open spec fn has_current(self) -> bool {
        self.queue@.len() > 0
    }

    /// A fresh session created on join: empty queue, default settings.
    pub fn new(text_channel_id: u64) -> (s: Session)
        ensures
            s.text_channel_id == text_channel_id,
            s.queue@ =~= Seq::<TrackMetadata>::empty(),
            s.play_state == PlayState::Playing,
            s.loop_setting == LoopSetting::Disabled,
    {
        Session {
            text_channel_id,
            queue: Vec::new(),
            play_state: PlayState::Playing,
            loop_setting: LoopSetting::Disabled,
        }
    }

    /// Clears the queue. An empty queue is a benign no-op, reported
    /// distinctly; otherwise all tracks, current included, are discarded
    /// immediately.
    pub fn clear(&mut self) -> (r: ClearOutcome)
        ensures
            r == ClearOutcome::Cleared <==> old(self).queue@.len() > 0,
            r == ClearOutcome::NothingToClear <==> old(self).queue@.len() == 0,
            final(self).queue@.len() == 0,
            final(self).text_channel_id == old(self).text_channel_id,
            final(self).play_state == old(self).play_state,
            final(self).loop_setting == old(self).loop_setting,
    {
        if self.queue.len() == 0 {
            ClearOutcome::NothingToClear
        } else {
            self.queue.clear();
            ClearOutcome::Cleared
        }
    }

    /// Pauses the current track. Pausing an already paused track changes
    /// nothing and is reported as such, not as an error.
    pub fn pause(&mut self) -> (r: PauseOutcome)
        ensures
            final(self).queue == old(self).queue,
            final(self).text_channel_id == old(self).text_channel_id,
            final(self).loop_setting == old(self).loop_setting,
            r == PauseOutcome::NoTrack <==> !old(self).has_current(),
            r == PauseOutcome::Paused <==> old(self).has_current() && old(self).play_state
                == PlayState::Playing,
            r == PauseOutcome::AlreadyPaused <==> old(self).has_current() && old(self).play_state
                == PlayState::Paused,
            old(self).has_current() ==> final(self).play_state == PlayState::Paused,
            !old(self).has_current() ==> final(self).play_state == old(self).play_state,
            r == PauseOutcome::AlreadyPaused ==> final(self).play_state == old(self).play_state,
    {
        if self.queue.len() == 0 {
            PauseOutcome::NoTrack
        } else if matches!(self.play_state, PlayState::Paused) {
            PauseOutcome::AlreadyPaused
        } else {
            self.play_state = PlayState::Paused;
            PauseOutcome::Paused
        }
    }

    /// Resumes the current track. Resuming a track that is already playing
    /// changes nothing and is reported as such, not as an error.
    pub fn resume(&mut self) -> (r: ResumeOutcome)
        ensures
            final(self).queue == old(self).queue,
            final(self).text_channel_id == old(self).text_channel_id,
            final(self).loop_setting == old(self).loop_setting,
            r == ResumeOutcome::NoTrack <==> !old(self).has_current(),
            r == ResumeOutcome::Resumed <==> old(self).has_current() && old(self).play_state
                == PlayState::Paused,
            r == ResumeOutcome::AlreadyPlaying <==> old(self).has_current() && old(self).play_state == PlayState::Playing,
            old(self).has_current() ==> final(self).play_state == PlayState::Playing,
            !old(self).has_current() ==> final(self).play_state == old(self).play_state,
            r == ResumeOutcome::AlreadyPlaying ==> final(self).play_state == old(self).play_state,
    {
        if self.queue.len() == 0 {
            ResumeOutcome::NoTrack
        } else if matches!(self.play_state, PlayState::Playing) {
            ResumeOutcome::AlreadyPlaying
        } else {
            self.play_state = PlayState::Playing;
            ResumeOutcome::Resumed
        }
    }

    /// Skips the current track: it is removed and the queue advances to the
    /// next track, which starts playing with looping disabled.
    pub fn skip(&mut self) -> (r: SkipOutcome)
        ensures
            final(self).text_channel_id == old(self).text_channel_id,
            r == SkipOutcome::NoTrack <==> !old(self).has_current(),
            r == SkipOutcome::Skipped <==> old(self).has_current(),
            old(self).has_current() ==> final(self).queue@ == old(self).queue@.skip(1)
                && final(self).play_state == PlayState::Playing && final(self).loop_setting
                == LoopSetting::Disabled,
            !old(self).has_current() ==> final(self).queue == old(self).queue && final(self).play_state == old(self).play_state && final(self).loop_setting == old(self).loop_setting,
    {
        if self.queue.len() == 0 {
            SkipOutcome::NoTrack
        } else {
            self.queue.remove(0);
            self.play_state = PlayState::Playing;
            self.loop_setting = LoopSetting::Disabled;
            proof {
                assert(self.queue@ =~= old(self).queue@.skip(1));
            }
            SkipOutcome::Skipped
        }
    }

    /// Toggles the loop setting of the current track between infinite
    /// replay and no looping.
    pub fn toggle_loop(&mut self) -> (r: LoopOutcome)
        ensures
            final(self).queue == old(self).queue,
            final(self).text_channel_id == old(self).text_channel_id,
            final(self).play_state == old(self).play_state,
            r == LoopOutcome::NoTrack <==> !old(self).has_current(),
            r == LoopOutcome::LoopEnabled <==> old(self).has_current() && old(self).loop_setting
                == LoopSetting::Disabled,
            r == LoopOutcome::LoopDisabled <==> old(self).has_current() && old(self).loop_setting
                == LoopSetting::Infinite,
            r == LoopOutcome::LoopEnabled ==> final(self).loop_setting == LoopSetting::Infinite,
            r == LoopOutcome::LoopDisabled ==> final(self).loop_setting == LoopSetting::Disabled,
            r == LoopOutcome::NoTrack ==> final(self).loop_setting == old(self).loop_setting,
    {
        if self.queue.len() == 0 {
            LoopOutcome::NoTrack
        } else if matches!(self.loop_setting, LoopSetting::Infinite) {
            self.loop_setting = LoopSetting::Disabled;
            LoopOutcome::LoopDisabled
        } else {
            self.loop_setting = LoopSetting::Infinite;
            LoopOutcome::LoopEnabled
        }
    }

    /// Appends a track to the queue (insertion order is kept). On an empty
    /// queue it becomes the current track and starts playing at once.
    pub fn enqueue(&mut self, track: TrackMetadata) -> (r: EnqueueOutcome)
        ensures
            final(self).queue@ == old(self).queue@.push(track),
            final(self).text_channel_id == old(self).text_channel_id,
            r == EnqueueOutcome::StartedPlaying <==> !old(self).has_current(),
            r == EnqueueOutcome::Queued <==> old(self).has_current(),
            !old(self).has_current() ==> final(self).play_state == PlayState::Playing && final(self).loop_setting == LoopSetting::Disabled,
            old(self).has_current() ==> final(self).play_state == old(self).play_state && final(self).loop_setting == old(self).loop_setting,
    {
        let was_empty = self.queue.len() == 0;
        self.queue.push(track);
        if was_empty {
            self.play_state = PlayState::Playing;
            self.loop_setting = LoopSetting::Disabled;
            EnqueueOutcome::StartedPlaying
        } else {
            EnqueueOutcome::Queued
        }
    }

    /// Applies a track-end event: the ended track leaves the queue. Reports
    /// whether a next track is up or the queue has ended (the signal that
    /// arms the auto-disconnect coordinator).
    pub fn track_ended(&mut self) -> (r: TrackEndOutcome)
        requires
            old(self).has_current(),
        ensures
            final(self).queue@ == old(self).queue@.skip(1),
            final(self).text_channel_id == old(self).text_channel_id,
            final(self).play_state == PlayState::Playing,
            final(self).loop_setting == LoopSetting::Disabled,
            r == TrackEndOutcome::QueueEnded <==> old(self).queue@.len() == 1,
            r == TrackEndOutcome::NextUp <==> old(self).queue@.len() > 1,
    {
        self.queue.remove(0);
        self.play_state = PlayState::Playing;
        self.loop_setting = LoopSetting::Disabled;
        proof {
            assert(self.queue@ =~= old(self).queue@.skip(1));
        }
        if self.queue.len() == 0 {
            TrackEndOutcome::QueueEnded
        } else {
            TrackEndOutcome::NextUp
        }
    }

    /// The titles of the queued tracks, in queue order.
    pub fn queue_titles(&self) -> (r: Vec<String>)
        ensures
            r@.len() == self.queue@.len(),
            forall|i: int| 0 <= i < r@.len() ==> r@[i]@ == self.queue@[i].title@,
    {
        let mut titles: Vec<String> = Vec::new();
        let mut i: usize = 0;
        while i < self.queue.len()
            invariant
                i <= self.queue@.len(),
                titles@.len() == i,
                forall|j: int| 0 <= j < i ==> titles@[j]@ == self.queue@[j].title@,
            decreases self.queue@.len() - i,
        {
            titles.push(self.queue[i].title.clone());
            i = i + 1;
        }
        titles
    }

    /// The metadata of the current track, if any.
    pub fn current(&self) -> (r: Option<&TrackMetadata>)
        ensures
            self.has_current() <==> r is Some,
            r is Some ==> r->0 == &self.queue@[0],
    {
        if self.queue.len() == 0 {
            None
        } else {
            Some(&self.queue[0])
        }
    }
}

} // verus!
