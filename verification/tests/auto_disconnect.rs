use poor_jimmy::coordinator::DEFAULT_DISCONNECT_MINUTES;
use poor_jimmy::coordinator::arm_after_track_end;
use poor_jimmy::coordinator::disconnect_delay_secs;
use poor_jimmy::coordinator::expiry_check;
use poor_jimmy::messages::auto_disconnect_text;
use poor_jimmy::messages::now_playing_announcement;
use poor_jimmy::messages::now_playing_text;
use poor_jimmy::messages::Notice;
use poor_jimmy::messages::notice_reply;

#[test]
fn countdown_delay_defaults_to_five_minutes() {
    assert_eq!(DEFAULT_DISCONNECT_MINUTES, 5);
    assert_eq!(disconnect_delay_secs(None), 300);
    assert_eq!(disconnect_delay_secs(Some(2)), 120);
    assert_eq!(disconnect_delay_secs(Some(0)), 0);
}

#[test]
fn a_countdown_is_armed_exactly_when_the_queue_empties() {
    let timer = arm_after_track_end(42, 0, 1000, 300).unwrap();
    assert_eq!(timer.guild_id, 42);
    assert_eq!(timer.armed_at, 1000);
    assert_eq!(timer.delay_secs, 300);
    assert!(arm_after_track_end(42, 1, 1000, 300).is_none());
}

#[test]
fn expiry_recheck_disconnects_only_an_empty_queue() {
    let timer = arm_after_track_end(42, 0, 1000, 300).unwrap();
    assert!(expiry_check(&timer, 0));
    assert!(!expiry_check(&timer, 1));
    assert!(!expiry_check(&timer, 3));
}

#[test]
fn queue_end_and_disconnect_notifications() {
    assert_eq!(notice_reply(Notice::QueueEnded).0, "Queue has **ended!**");
    assert_eq!(
        auto_disconnect_text(5),
        "Left voice channel after 5 minutes of inactivity!"
    );
    assert_eq!(
        auto_disconnect_text(12),
        "Left voice channel after 12 minutes of inactivity!"
    );
}

#[test]
fn playable_track_announcements() {
    assert_eq!(now_playing_announcement("A Song"), "**Now playing:** A Song");
    let status = now_playing_text("A Song", 150, Some(300), 10);
    assert_eq!(status, "**Now Playing:**\nA Song\n\n[▓▓▓▓▓░░░░░] 02:30 / 05:00");
}
