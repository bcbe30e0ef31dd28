//! Process-wide registry of active voice sessions, one per guild. A session
//! enters the registry only on a join and leaves it only on a leave or an
//! auto-disconnect; playback commands act on the registered session of their
//! guild and report `None` when the guild has none.

use vstd::prelude::*;
use crate::session::ClearOutcome;
use crate::session::EnqueueOutcome;
use crate::session::LoopOutcome;
use crate::session::PauseOutcome;
use crate::session::ResumeOutcome;
use crate::session::Session;
use crate::session::SkipOutcome;
use crate::session::TrackMetadata;

verus! {

/// The mapping that a sequence of (guild id, session) entries stands for;
/// a later entry for the same guild would win, though well-formed
/// registries never hold two.
pub open spec fn map_of(entries: Seq<(u64, Session)>) -> Map<u64, Session>
    decreases entries.len(),
{
    if entries.len() == 0 {
        Map::empty()
    } else {
        map_of(entries.drop_last()).insert(entries.last().0, entries.last().1)
    }
}

/// Each guild id appears at most once.
pub open spec fn unique_guilds(entries: Seq<(u64, Session)>) -> bool {
    forall|i: int, j: int|
        0 <= i < j < entries.len() ==> entries[i].0 != entries[j].0
}

proof fn lemma_map_of_contains(entries: Seq<(u64, Session)>, g: u64)
    ensures
        map_of(entries).contains_key(g) <==> exists|i: int|
            0 <= i < entries.len() && entries[i].0 == g,
    decreases entries.len(),
{
    if entries.len() > 0 {
        lemma_map_of_contains(entries.drop_last(), g);
        if map_of(entries).contains_key(g) {
            if entries.last().0 != g {
                let i = choose|i: int| 0 <= i < entries.drop_last().len()
                    && entries.drop_last()[i].0 == g;
                assert(entries[i].0 == g);
            }
        }
        if exists|i: int| 0 <= i < entries.len() && entries[i].0 == g {
            let i = choose|i: int| 0 <= i < entries.len() && entries[i].0 == g;
            if i < entries.len() - 1 {
                assert(entries.drop_last()[i].0 == g);
            }
        }
    }
}

proof fn lemma_map_of_index(entries: Seq<(u64, Session)>, i: int)
    requires
        unique_guilds(entries),
        0 <= i < entries.len(),
    ensures
        map_of(entries).contains_key(entries[i].0),
        map_of(entries)[entries[i].0] == entries[i].1,
    decreases entries.len(),
{
    if i < entries.len() - 1 {
        assert(unique_guilds(entries.drop_last()));
        lemma_map_of_index(entries.drop_last(), i);
        assert(entries.drop_last()[i] == entries[i]);
        assert(entries[i].0 != entries.last().0);
    }
}

proof fn lemma_map_of_update(entries: Seq<(u64, Session)>, i: int, s: Session)
    requires
        unique_guilds(entries),
        0 <= i < entries.len(),
    ensures
        map_of(entries.update(i, (entries[i].0, s))) =~= map_of(entries).insert(entries[i].0, s),
    decreases entries.len(),
{
    let g = entries[i].0;
    let updated = entries.update(i, (g, s));
    if i == entries.len() - 1 {
        assert(updated.drop_last() =~= entries.drop_last());
    } else {
        assert(unique_guilds(entries.drop_last()));
        lemma_map_of_update(entries.drop_last(), i, s);
        assert(updated.drop_last() =~= entries.drop_last().update(i, (g, s)));
        assert(updated.last() == entries.last());
        assert(g != entries.last().0);
    }
}

proof fn lemma_map_of_push(entries: Seq<(u64, Session)>, g: u64, s: Session)
    ensures
        map_of(entries.push((g, s))) =~= map_of(entries).insert(g, s),
{
    assert(entries.push((g, s)).drop_last() =~= entries);
}

proof fn lemma_map_of_remove(entries: Seq<(u64, Session)>, i: int)
    requires
        unique_guilds(entries),
        0 <= i < entries.len(),
    ensures
        map_of(entries.remove(i)) =~= map_of(entries).remove(entries[i].0),
    decreases entries.len(),
{
    let g = entries[i].0;
    if i == entries.len() - 1 {
        assert(entries.remove(i) =~= entries.drop_last());
        lemma_map_of_contains(entries.drop_last(), g);
        assert(!map_of(entries.drop_last()).contains_key(g));
        assert(map_of(entries.drop_last()).remove(g) =~= map_of(entries.drop_last()));
        assert(map_of(entries).remove(g) =~= map_of(entries.drop_last()).insert(g,
            entries.last().1).remove(g));
    } else {
        assert(unique_guilds(entries.drop_last()));
        lemma_map_of_remove(entries.drop_last(), i);
        assert(entries.remove(i).drop_last() =~= entries.drop_last().remove(i));
        assert(entries.remove(i).last() == entries.last());
        assert(g != entries.last().0);
    }
}

/// Registry of the guilds with an active voice session.
pub struct SessionRegistry {
    entries: Vec<(u64, Session)>,
}

impl SessionRegistry {
    /// The guild-to-session mapping this registry holds.
    pub closed spec fn sessions(self) -> Map<u64, Session> {
        map_of(self.entries@)
    }

    /// Well-formed: at most one session per guild.
    pub closed spec fn wf(self) -> bool {
        unique_guilds(self.entries@)
    }

    /// An empty registry: no guild has a session.
    pub fn new() -> (r: SessionRegistry)
        ensures
            r.wf(),
            r.sessions() =~= Map::<u64, Session>::empty(),
    {
        SessionRegistry { entries: Vec::new() }
    }

    /// The position of the entry for `guild_id`, if present.
    fn find_index(&self, guild_id: u64) -> (r: Option<usize>)
        ensures
            match r {
                Some(i) => i < self.entries@.len() && self.entries@[i as int].0 == guild_id,
                None => forall|i: int|
                    0 <= i < self.entries@.len() ==> self.entries@[i].0 != guild_id,
            },
    {
        let mut i: usize = 0;
        while i < self.entries.len()
            invariant
                i <= self.entries@.len(),
                forall|j: int| 0 <= j < i ==> self.entries@[j].0 != guild_id,
            decreases self.entries@.len() - i,
        {
            if self.entries[i].0 == guild_id {
                return Some(i);
            }
            i = i + 1;
        }
        None
    }

    /// Whether `guild_id` has an active session.
    pub fn contains(&self, guild_id: u64) -> (r: bool)
        ensures
            r == self.sessions().contains_key(guild_id),
    {
        proof {
            lemma_map_of_contains(self.entries@, guild_id);
        }
        self.find_index(guild_id).is_some()
    }

    /// Registers the session created by a join. A guild that already had a
    /// session keeps its queue and playback state; only the text channel
    /// for notifications moves.
    pub fn join(&mut self, guild_id: u64, text_channel_id: u64)
        requires
            old(self).wf(),
        ensures
            final(self).wf(),
            final(self).sessions().contains_key(guild_id),
            !old(self).sessions().contains_key(guild_id) ==> final(self).sessions() =~= old(self).sessions().insert(guild_id, final(self).sessions()[guild_id]) && final(self).sessions()[guild_id].queue@.len() == 0 && final(self).sessions()[guild_id].text_channel_id == text_channel_id,
            old(self).sessions().contains_key(guild_id) ==> final(self).sessions() =~= old(self).sessions().insert(guild_id, final(self).sessions()[guild_id]) && final(self).sessions()[guild_id] == (Session {
                text_channel_id,
                ..old(self).sessions()[guild_id]
            }),
    {
        proof {
            lemma_map_of_contains(self.entries@, guild_id);
        }
        match self.find_index(guild_id) {
            Some(i) => {
                proof {
                    lemma_map_of_index(self.entries@, i as int);
                    lemma_map_of_update(self.entries@, i as int, (Session {
                        text_channel_id,
                        ..self.entries@[i as int].1
                    }));
                }
                let entry = &mut self.entries[i];
                entry.1.text_channel_id = text_channel_id;
            },
            None => {
                let session = Session::new(text_channel_id);
                proof {
                    lemma_map_of_push(self.entries@, guild_id, session);
                }
                self.entries.push((guild_id, session));
                proof {
                    assert(unique_guilds(self.entries@));
                }
            },
        }
    }

    /// The session of `guild_id`, if it has one.
    pub fn get(&self, guild_id: u64) -> (r: Option<&Session>)
        requires
            self.wf(),
        ensures
            r is Some <==> self.sessions().contains_key(guild_id),
            r is Some ==> *r->0 == self.sessions()[guild_id],
    {
        proof {
            lemma_map_of_contains(self.entries@, guild_id);
        }
        match self.find_index(guild_id) {
            Some(i) => {
                proof {
                    lemma_map_of_index(self.entries@, i as int);
                }
                Some(&self.entries[i].1)
            },
            None => None,
        }
    }

    /// Clears the queue of `guild_id`'s session; `None` when the guild has
    /// no session.
    pub fn clear_queue(&mut self, guild_id: u64) -> (r: Option<ClearOutcome>)
        requires
            old(self).wf(),
        ensures
            final(self).wf(),
            r is Some <==> old(self).sessions().contains_key(guild_id),
            r is None ==> final(self).sessions() == old(self).sessions(),
            r is Some ==> ({
                let s = old(self).sessions()[guild_id];
                let s2 = final(self).sessions()[guild_id];
                &&& final(self).sessions() =~= old(self).sessions().insert(guild_id, s2)
                &&& (r->0 == ClearOutcome::Cleared <==> s.queue@.len() > 0)
                &&& (r->0 == ClearOutcome::NothingToClear <==> s.queue@.len() == 0)
                &&& s2.queue@.len() == 0
                &&& s2.text_channel_id == s.text_channel_id
                &&& s2.play_state == s.play_state
                &&& s2.loop_setting == s.loop_setting
            }),
    {
        proof {
            lemma_map_of_contains(self.entries@, guild_id);
        }
        match self.find_index(guild_id) {
            Some(i) => {
                proof {
                    lemma_map_of_index(self.entries@, i as int);
                }
                let entry = &mut self.entries[i];
                let r = entry.1.clear();
                proof {
                    lemma_map_of_update(old(self).entries@, i as int,
                        self.entries@[i as int].1);
                    assert(unique_guilds(self.entries@));
                }
                Some(r)
            },
            None => None,
        }
    }

    /// Pauses the current track of `guild_id`'s session; `None` when the
    /// guild has no session.
    pub fn pause(&mut self, guild_id: u64) -> (r: Option<PauseOutcome>)
        requires
            old(self).wf(),
        ensures
            final(self).wf(),
            r is Some <==> old(self).sessions().contains_key(guild_id),
            r is None ==> final(self).sessions() == old(self).sessions(),
            r is Some ==> ({
                let s = old(self).sessions()[guild_id];
                let s2 = final(self).sessions()[guild_id];
                &&& final(self).sessions() =~= old(self).sessions().insert(guild_id, s2)
                &&& (r->0 == PauseOutcome::NoTrack <==> !s.has_current())
                &&& (r->0 == PauseOutcome::Paused <==> s.has_current() && s.play_state
                    == crate::session::PlayState::Playing)
                &&& (r->0 == PauseOutcome::AlreadyPaused <==> s.has_current() && s.play_state
                    == crate::session::PlayState::Paused)
                &&& s2.queue@ == s.queue@
                &&& s2.text_channel_id == s.text_channel_id
                &&& s2.loop_setting == s.loop_setting
                &&& (s.has_current() ==> s2.play_state == crate::session::PlayState::Paused)
                &&& (!s.has_current() ==> s2 == s)
                &&& (r->0 == PauseOutcome::AlreadyPaused ==> s2 == s)
            }),
    {
        proof {
            lemma_map_of_contains(self.entries@, guild_id);
        }
        match self.find_index(guild_id) {
            Some(i) => {
                proof {
                    lemma_map_of_index(self.entries@, i as int);
                }
                let entry = &mut self.entries[i];
                let r = entry.1.pause();
                proof {
                    lemma_map_of_update(old(self).entries@, i as int,
                        self.entries@[i as int].1);
                    assert(unique_guilds(self.entries@));
                }
                Some(r)
            },
            None => None,
        }
    }

    /// Resumes the current track of `guild_id`'s session; `None` when the
    /// guild has no session.
    pub fn resume(&mut self, guild_id: u64) -> (r: Option<ResumeOutcome>)
        requires
            old(self).wf(),
        ensures
            final(self).wf(),
            r is Some <==> old(self).sessions().contains_key(guild_id),
            r is None ==> final(self).sessions() == old(self).sessions(),
            r is Some ==> ({
                let s = old(self).sessions()[guild_id];
                let s2 = final(self).sessions()[guild_id];
                &&& final(self).sessions() =~= old(self).sessions().insert(guild_id, s2)
                &&& (r->0 == ResumeOutcome::NoTrack <==> !s.has_current())
                &&& (r->0 == ResumeOutcome::Resumed <==> s.has_current() && s.play_state
                    == crate::session::PlayState::Paused)
                &&& (r->0 == ResumeOutcome::AlreadyPlaying <==> s.has_current() && s.play_state
                    == crate::session::PlayState::Playing)
                &&& s2.queue@ == s.queue@
                &&& s2.text_channel_id == s.text_channel_id
                &&& s2.loop_setting == s.loop_setting
                &&& (s.has_current() ==> s2.play_state == crate::session::PlayState::Playing)
                &&& (!s.has_current() ==> s2 == s)
                &&& (r->0 == ResumeOutcome::AlreadyPlaying ==> s2 == s)
            }),
    {
        proof {
            lemma_map_of_contains(self.entries@, guild_id);
        }
        match self.find_index(guild_id) {
            Some(i) => {
                proof {
                    lemma_map_of_index(self.entries@, i as int);
                }
                let entry = &mut self.entries[i];
                let r = entry.1.resume();
                proof {
                    lemma_map_of_update(old(self).entries@, i as int,
                        self.entries@[i as int].1);
                    assert(unique_guilds(self.entries@));
                }
                Some(r)
            },
            None => None,
        }
    }

    /// Skips the current track of `guild_id`'s session; `None` when the
    /// guild has no session.
    pub fn skip(&mut self, guild_id: u64) -> (r: Option<SkipOutcome>)
        requires
            old(self).wf(),
        ensures
            final(self).wf(),
            r is Some <==> old(self).sessions().contains_key(guild_id),
            r is None ==> final(self).sessions() == old(self).sessions(),
            r is Some ==> ({
                let s = old(self).sessions()[guild_id];
                let s2 = final(self).sessions()[guild_id];
                &&& final(self).sessions() =~= old(self).sessions().insert(guild_id, s2)
                &&& (r->0 == SkipOutcome::Skipped <==> s.has_current())
                &&& (r->0 == SkipOutcome::NoTrack <==> !s.has_current())
                &&& s2.text_channel_id == s.text_channel_id
                &&& (s.has_current() ==> s2.queue@ == s.queue@.skip(1))
                &&& (!s.has_current() ==> s2 == s)
            }),
    {
        proof {
            lemma_map_of_contains(self.entries@, guild_id);
        }
        match self.find_index(guild_id) {
            Some(i) => {
                proof {
                    lemma_map_of_index(self.entries@, i as int);
                }
                let entry = &mut self.entries[i];
                let r = entry.1.skip();
                proof {
                    lemma_map_of_update(old(self).entries@, i as int,
                        self.entries@[i as int].1);
                    assert(unique_guilds(self.entries@));
                }
                Some(r)
            },
            None => None,
        }
    }

    /// Toggles looping of the current track of `guild_id`'s session;
    /// `None` when the guild has no session.
    pub fn toggle_loop(&mut self, guild_id: u64) -> (r: Option<LoopOutcome>)
        requires
            old(self).wf(),
        ensures
            final(self).wf(),
            r is Some <==> old(self).sessions().contains_key(guild_id),
            r is None ==> final(self).sessions() == old(self).sessions(),
            r is Some ==> ({
                let s = old(self).sessions()[guild_id];
                let s2 = final(self).sessions()[guild_id];
                &&& final(self).sessions() =~= old(self).sessions().insert(guild_id, s2)
                &&& (r->0 == LoopOutcome::NoTrack <==> !s.has_current())
                &&& (r->0 == LoopOutcome::LoopEnabled <==> s.has_current() && s.loop_setting
                    == crate::session::LoopSetting::Disabled)
                &&& (r->0 == LoopOutcome::LoopDisabled <==> s.has_current() && s.loop_setting
                    == crate::session::LoopSetting::Infinite)
                &&& s2.queue@ == s.queue@
                &&& s2.text_channel_id == s.text_channel_id
                &&& s2.play_state == s.play_state
                &&& (r->0 == LoopOutcome::LoopEnabled ==> s2.loop_setting
                    == crate::session::LoopSetting::Infinite)
                &&& (r->0 == LoopOutcome::LoopDisabled ==> s2.loop_setting
                    == crate::session::LoopSetting::Disabled)
                &&& (r->0 == LoopOutcome::NoTrack ==> s2 == s)
            }),
    {
        proof {
            lemma_map_of_contains(self.entries@, guild_id);
        }
        match self.find_index(guild_id) {
            Some(i) => {
                proof {
                    lemma_map_of_index(self.entries@, i as int);
                }
                let entry = &mut self.entries[i];
                let r = entry.1.toggle_loop();
                proof {
                    lemma_map_of_update(old(self).entries@, i as int,
                        self.entries@[i as int].1);
                    assert(unique_guilds(self.entries@));
                }
                Some(r)
            },
            None => None,
        }
    }

    /// Enqueues a track on `guild_id`'s session; `None` when the guild has
    /// no session.
    pub fn enqueue(&mut self, guild_id: u64, track: TrackMetadata) -> (r: Option<EnqueueOutcome>)
        requires
            old(self).wf(),
        ensures
            final(self).wf(),
            r is Some <==> old(self).sessions().contains_key(guild_id),
            r is None ==> final(self).sessions() == old(self).sessions(),
            r is Some ==> ({
                let s = old(self).sessions()[guild_id];
                let s2 = final(self).sessions()[guild_id];
                &&& final(self).sessions() =~= old(self).sessions().insert(guild_id, s2)
                &&& s2.queue@ == s.queue@.push(track)
                &&& s2.text_channel_id == s.text_channel_id
                &&& (r->0 == EnqueueOutcome::StartedPlaying <==> !s.has_current())
                &&& (r->0 == EnqueueOutcome::Queued <==> s.has_current())
            }),
    {
        proof {
            lemma_map_of_contains(self.entries@, guild_id);
        }
        match self.find_index(guild_id) {
            Some(i) => {
                proof {
                    lemma_map_of_index(self.entries@, i as int);
                }
                let entry = &mut self.entries[i];
                let r = entry.1.enqueue(track);
                proof {
                    lemma_map_of_update(old(self).entries@, i as int,
                        self.entries@[i as int].1);
                    assert(unique_guilds(self.entries@));
                }
                Some(r)
            },
            None => None,
        }
    }

    /// Applies a track-end event to `guild_id`'s session. `None` when the
    /// guild has no session or its queue is already empty (a stale event).
    pub fn track_ended(&mut self, guild_id: u64) -> (r: Option<crate::session::TrackEndOutcome>)
        requires
            old(self).wf(),
        ensures
            final(self).wf(),
            r is Some <==> old(self).sessions().contains_key(guild_id) && old(
                self,
            ).sessions()[guild_id].has_current(),
            r is None ==> final(self).sessions() == old(self).sessions(),
            r is Some ==> ({
                let s = old(self).sessions()[guild_id];
                let s2 = final(self).sessions()[guild_id];
                &&& final(self).sessions() =~= old(self).sessions().insert(guild_id, s2)
                &&& s2.queue@ == s.queue@.skip(1)
                &&& s2.text_channel_id == s.text_channel_id
                &&& (r->0 == crate::session::TrackEndOutcome::QueueEnded <==> s.queue@.len() == 1)
                &&& (r->0 == crate::session::TrackEndOutcome::NextUp <==> s.queue@.len() > 1)
            }),
    {
        proof {
            lemma_map_of_contains(self.entries@, guild_id);
        }
        match self.find_index(guild_id) {
            Some(i) => {
                proof {
                    lemma_map_of_index(self.entries@, i as int);
                }
                if self.entries[i].1.queue.len() == 0 {
                    return None;
                }
                let entry = &mut self.entries[i];
                let r = entry.1.track_ended();
                proof {
                    lemma_map_of_update(old(self).entries@, i as int,
                        self.entries@[i as int].1);
                    assert(unique_guilds(self.entries@));
                }
                Some(r)
            },
            None => None,
        }
    }

    /// Removes a guild's session on leave or auto-disconnect. Reports
    /// whether there was one; removal of an absent session is a no-op.
    pub fn leave(&mut self, guild_id: u64) -> (r: bool)
        requires
            old(self).wf(),
        ensures
            final(self).wf(),
            r == old(self).sessions().contains_key(guild_id),
            final(self).sessions() =~= old(self).sessions().remove(guild_id),
    {
        proof {
            lemma_map_of_contains(self.entries@, guild_id);
        }
        match self.find_index(guild_id) {
            Some(i) => {
                proof {
                    lemma_map_of_remove(self.entries@, i as int);
                }
                self.entries.remove(i);
                true
            },
            None => {
                proof {
                    assert(!map_of(self.entries@).contains_key(guild_id));
                    assert(map_of(self.entries@).remove(guild_id) =~= map_of(self.entries@));
                }
                false
            },
        }
    }
}

} // verus!
