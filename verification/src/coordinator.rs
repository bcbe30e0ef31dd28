//! Delayed auto-disconnect coordination. When a guild's queue empties, a
//! countdown is armed; there is no cancellation handle, so each countdown
//! re-reads the queue at its own expiry and tears the session down only if
//! the queue is still empty then. Several countdowns may be in flight for
//! one guild; each acts independently on what it observes at expiry.

use vstd::prelude::*;

verus! {

/// Countdown length used when no override is configured, in minutes.
pub const DEFAULT_DISCONNECT_MINUTES: u64 = 5;

/// An armed countdown: the guild it watches, the second it was armed, and
/// how many seconds it waits before re-checking the queue.
#[derive(Clone, Copy, Debug, PartialEq, Eq, Structural)]
pub struct DisconnectTimer {
    pub guild_id: u64,
    pub armed_at: u64,
    pub delay_secs: u64,
}

/// The countdown length in seconds: the configured number of minutes when
/// one is set, the default otherwise.
pub fn disconnect_delay_secs(configured_minutes: Option<u64>) -> (r: u64)
    requires
        configured_minutes matches Some(m) ==> m <= u64::MAX / 60,
    ensures
        r == 60 * (match configured_minutes {
            Some(m) => m,
            None => DEFAULT_DISCONNECT_MINUTES,
        }),
{
    match configured_minutes {
        Some(m) => m * 60,
        None => DEFAULT_DISCONNECT_MINUTES * 60,
    }
}

/// Arms a countdown after a track-end event: one is created exactly when
/// the post-end queue is empty.
pub fn arm_after_track_end(guild_id: u64, queue_len: usize, now: u64, delay_secs: u64) -> (r:
    Option<DisconnectTimer>)
    ensures
        r is Some <==> queue_len == 0,
        r matches Some(t) ==> t.guild_id == guild_id && t.armed_at == now && t.delay_secs
            == delay_secs,
{
    if queue_len == 0 {
        Some(DisconnectTimer { guild_id, armed_at: now, delay_secs })
    } else {
        None
    }
}

/// Whether a countdown that just expired disconnects, given the queue
/// length it re-reads at that moment.
pub open spec fn disconnects_at_expiry(len_at_expiry: nat) -> bool {
    len_at_expiry == 0
}

/// The re-check an expired countdown performs: disconnect only if the
/// queue is still empty; a queue that refilled in the meantime is left
/// alone, and the countdown simply lapses.
pub fn expiry_check(timer: &DisconnectTimer, queue_len_at_expiry: usize) -> (r: bool)
    ensures
        r == disconnects_at_expiry(queue_len_at_expiry as nat),
{
    queue_len_at_expiry == 0
}

/// One observable change of a guild's queue length between the arming of a
/// countdown and its expiry.
#[derive(Clone, Copy, Debug, PartialEq, Eq, Structural)]
pub enum QueueChange {
    /// A track was enqueued.
    Enqueue,
    /// The current track ended or was skipped and left the queue.
    TrackEnd,
    /// The queue was cleared outright.
    Clear,
}

/// The queue length after one change.
pub open spec fn apply_change(len: nat, c: QueueChange) -> nat {
    match c {
        QueueChange::Enqueue => len + 1,
        QueueChange::TrackEnd => if len > 0 {
            (len - 1) as nat
        } else {
            0
        },
        QueueChange::Clear => 0,
    }
}

/// The queue length after a sequence of changes, applied in order.
pub open spec fn len_after(init: nat, changes: Seq<QueueChange>) -> nat
    decreases changes.len(),
{
    if changes.len() == 0 {
        init
    } else {
        apply_change(len_after(init, changes.drop_last()), changes.last())
    }
}

/// A countdown armed on an empty queue disconnects at its expiry when the
/// queue stays empty: if nothing is enqueued between arming and expiry,
/// the re-check still sees an empty queue and the session is torn down.
pub proof fn lemma_idle_session_disconnects(changes: Seq<QueueChange>)
    requires
        forall|i: int| 0 <= i < changes.len() ==> changes[i] != QueueChange::Enqueue,
    ensures
        len_after(0, changes) == 0,
        disconnects_at_expiry(len_after(0, changes)),
    decreases changes.len(),
{
    if changes.len() > 0 {
        lemma_idle_session_disconnects(changes.drop_last());
    }
}

/// A session survives its countdown when a track is enqueued before the
/// expiry and still queued then: if some change is an enqueue and every
/// later change is also an enqueue, the re-check sees a non-empty queue
/// and no disconnect happens.
pub proof fn lemma_refilled_session_survives(changes: Seq<QueueChange>, i: int)
    requires
        0 <= i < changes.len(),
        changes[i] == QueueChange::Enqueue,
        forall|j: int| i < j < changes.len() ==> changes[j] == QueueChange::Enqueue,
    ensures
        len_after(0, changes) > 0,
        !disconnects_at_expiry(len_after(0, changes)),
{
    assert(changes.last() == QueueChange::Enqueue);
}

/// The session's own transitions move the queue length exactly as the
/// model here says: an enqueue adds one track, a track end removes the
/// current one, a clear empties the queue.
pub proof fn lemma_session_transitions_match_model(s: crate::session::Session,
    t: crate::session::TrackMetadata)
    ensures
        apply_change(s.queue@.len(), QueueChange::Enqueue) == s.queue@.push(t).len(),
        s.queue@.len() > 0 ==> apply_change(s.queue@.len(), QueueChange::TrackEnd)
            == s.queue@.skip(1).len(),
        apply_change(s.queue@.len(), QueueChange::Clear) == 0,
{
}

} // verus!
