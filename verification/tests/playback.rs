use poor_jimmy::TrackMetadata;
use poor_jimmy::messages::MessageColor;
use poor_jimmy::messages::clear_reply;
use poor_jimmy::messages::enqueue_reply;
use poor_jimmy::messages::join_reply;
use poor_jimmy::messages::leave_reply;
use poor_jimmy::messages::list_reply;
use poor_jimmy::messages::loop_reply;
use poor_jimmy::messages::pause_reply;
use poor_jimmy::messages::resume_reply;
use poor_jimmy::messages::skip_reply;
use poor_jimmy::messages::JoinOutcome;
use poor_jimmy::registry::SessionRegistry;
use poor_jimmy::session::ClearOutcome;
use poor_jimmy::session::EnqueueOutcome;
use poor_jimmy::session::LoopOutcome;
use poor_jimmy::session::PauseOutcome;
use poor_jimmy::session::PlayState;
use poor_jimmy::session::ResumeOutcome;
use poor_jimmy::session::Session;
use poor_jimmy::session::SkipOutcome;
use poor_jimmy::session::TrackEndOutcome;

fn track(title: &str) -> TrackMetadata {
    TrackMetadata { title: title.to_string(), thumbnail_url: None, duration: Some(180) }
}

#[test]
fn clear_empties_a_filled_queue_and_reports_cleared() {
    let mut session = Session::new(77);
    session.enqueue(track("one"));
    session.enqueue(track("two"));
    session.enqueue(track("three"));
    assert_eq!(session.queue.len(), 3);

    let outcome = session.clear();
    assert_eq!(outcome, ClearOutcome::Cleared);
    assert_eq!(session.queue.len(), 0);
    assert_eq!(clear_reply(Some(outcome)).0, "Queue **cleared!**");
}

#[test]
fn clear_on_empty_queue_is_a_distinct_no_op() {
    let mut session = Session::new(77);
    let outcome = session.clear();
    assert_eq!(outcome, ClearOutcome::NothingToClear);
    assert_eq!(session.queue.len(), 0);
    assert_eq!(clear_reply(Some(outcome)).0, "There is nothing to clear!");
}

#[test]
fn pause_when_already_paused_changes_nothing() {
    let mut session = Session::new(1);
    session.enqueue(track("one"));
    assert_eq!(session.pause(), PauseOutcome::Paused);
    assert_eq!(session.play_state, PlayState::Paused);

    let second = session.pause();
    assert_eq!(second, PauseOutcome::AlreadyPaused);
    assert_eq!(session.play_state, PlayState::Paused);
    assert_eq!(session.queue.len(), 1);
    assert_eq!(pause_reply(Some(second)).0, "The song is currently paused!");
}

#[test]
fn pause_without_track_reports_no_track() {
    let mut session = Session::new(1);
    assert_eq!(session.pause(), PauseOutcome::NoTrack);
    assert_eq!(pause_reply(Some(PauseOutcome::NoTrack)).0, "There is no song to pause!");
}

#[test]
fn resume_mirrors_pause() {
    let mut session = Session::new(1);
    session.enqueue(track("one"));
    assert_eq!(session.resume(), ResumeOutcome::AlreadyPlaying);
    session.pause();
    assert_eq!(session.resume(), ResumeOutcome::Resumed);
    assert_eq!(session.play_state, PlayState::Playing);
    assert_eq!(resume_reply(Some(ResumeOutcome::Resumed)).0, "Song **resumed!**");
    assert_eq!(resume_reply(None).1, MessageColor::DarkRed);
}

#[test]
fn skip_advances_to_the_next_track() {
    let mut session = Session::new(1);
    session.enqueue(track("one"));
    session.enqueue(track("two"));
    let outcome = session.skip();
    assert_eq!(outcome, SkipOutcome::Skipped);
    assert_eq!(session.queue.len(), 1);
    assert_eq!(session.queue[0].title, "two");
    assert_eq!(skip_reply(Some(outcome)).0, "Song **skipped!**");

    let mut empty = Session::new(1);
    assert_eq!(empty.skip(), SkipOutcome::NoTrack);
    assert_eq!(
        skip_reply(Some(SkipOutcome::NoTrack)).0,
        "There is no song currently playing!"
    );
}

#[test]
fn loop_toggle_flips_between_infinite_and_disabled() {
    let mut session = Session::new(1);
    session.enqueue(track("one"));
    assert_eq!(session.toggle_loop(), LoopOutcome::LoopEnabled);
    assert_eq!(session.toggle_loop(), LoopOutcome::LoopDisabled);
    assert_eq!(loop_reply(Some(LoopOutcome::NoTrack)).0, "There is no song to loop!");
    assert_eq!(
        loop_reply(Some(LoopOutcome::LoopEnabled)).0,
        "Enabled **looping!** Use **/loop** again to disable or **/skip** to skip"
    );
}

#[test]
fn enqueue_reports_playing_only_on_an_empty_queue() {
    let mut session = Session::new(1);
    assert_eq!(session.enqueue(track("one")), EnqueueOutcome::StartedPlaying);
    assert_eq!(session.enqueue(track("two")), EnqueueOutcome::Queued);
    let (text, color) = enqueue_reply(Some(EnqueueOutcome::Queued), "two".to_string());
    assert_eq!(text, "**Queued** two!");
    assert_eq!(color, MessageColor::DarkGreen);
    let (text, _) = enqueue_reply(Some(EnqueueOutcome::StartedPlaying), "one".to_string());
    assert_eq!(text, "**Playing** one!");
}

#[test]
fn track_end_reports_queue_ended_only_on_the_last_track() {
    let mut session = Session::new(1);
    session.enqueue(track("one"));
    session.enqueue(track("two"));
    assert_eq!(session.track_ended(), TrackEndOutcome::NextUp);
    assert_eq!(session.track_ended(), TrackEndOutcome::QueueEnded);
    assert_eq!(session.queue.len(), 0);
}

#[test]
fn current_track_is_the_queue_front() {
    let mut session = Session::new(1);
    assert!(session.current().is_none());
    session.enqueue(track("one"));
    session.enqueue(track("two"));
    assert_eq!(session.current().unwrap().title, "one");
}

#[test]
fn registry_applies_track_end_events() {
    let mut registry = SessionRegistry::new();
    registry.join(3, 300);
    assert_eq!(registry.track_ended(3), None);
    registry.enqueue(3, track("one"));
    assert_eq!(registry.track_ended(3), Some(TrackEndOutcome::QueueEnded));
    assert_eq!(registry.track_ended(4), None);
}

#[test]
fn registry_tracks_sessions_per_guild() {
    let mut registry = SessionRegistry::new();
    assert!(!registry.contains(5));
    registry.join(5, 500);
    registry.join(6, 600);
    assert!(registry.contains(5));
    assert!(registry.get(5).is_some());
    assert_eq!(registry.get(5).unwrap().text_channel_id, 500);

    assert_eq!(registry.enqueue(5, track("one")), Some(EnqueueOutcome::StartedPlaying));
    assert_eq!(registry.enqueue(7, track("one")), None);
    assert_eq!(registry.clear_queue(5), Some(ClearOutcome::Cleared));
    assert_eq!(registry.clear_queue(6), Some(ClearOutcome::NothingToClear));
    assert_eq!(registry.clear_queue(7), None);

    assert!(registry.leave(5));
    assert!(!registry.leave(5));
    assert!(!registry.contains(5));
    assert!(registry.contains(6));
}

#[test]
fn rejoining_moves_notifications_but_keeps_the_queue() {
    let mut registry = SessionRegistry::new();
    registry.join(5, 500);
    registry.enqueue(5, track("one"));
    registry.join(5, 501);
    let session = registry.get(5).unwrap();
    assert_eq!(session.text_channel_id, 501);
    assert_eq!(session.queue.len(), 1);
}

#[test]
fn session_listing_and_replies() {
    let mut registry = SessionRegistry::new();
    registry.join(9, 900);
    registry.enqueue(9, track("Alpha"));
    registry.enqueue(9, track("Beta"));
    let titles = registry.get(9).unwrap().queue_titles();
    let (text, color) = list_reply(Some(titles));
    assert_eq!(text, "**1:** Alpha\n**2:** Beta\n");
    assert_eq!(color, MessageColor::DarkGreen);
    let (text, _) = list_reply(Some(Vec::new()));
    assert_eq!(text, "The queue is **empty!**");
    let (text, color) = list_reply(None);
    assert!(text.contains("Error listing queue!"));
    assert_eq!(color, MessageColor::DarkRed);
}

#[test]
fn join_and_leave_replies_match_outcomes() {
    assert_eq!(join_reply(JoinOutcome::Joined).0, "Poor Jimmy **joined** the voice channel!");
    assert_eq!(join_reply(JoinOutcome::UserNotInVoice).0, "You're not in a voice channel!");
    assert_eq!(join_reply(JoinOutcome::JoinFailed).1, MessageColor::DarkRed);
    assert_eq!(leave_reply(true).0, "Poor Jimmy **left** the voice channel!");
    assert_eq!(leave_reply(false).1, MessageColor::DarkRed);
}
