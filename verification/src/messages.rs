//! The texts and embed colors of the bot's replies. Every outcome maps to
//! exactly one reply; errors are red, benign outcomes green, transient
//! notices blue.

use vstd::prelude::*;
use crate::format::decimal_digits;
use crate::format::format_queue_description;
use crate::format::format_description;
use crate::format::description_text;
use crate::format::progress_bar_text;
use crate::format::create_progress_bar;
use crate::format::queue_description_text;
use crate::format::title_views;
use crate::session::ClearOutcome;
use crate::session::EnqueueOutcome;
use crate::session::LoopOutcome;
use crate::session::PauseOutcome;
use crate::session::ResumeOutcome;
use crate::session::SkipOutcome;

verus! {

/// The embed colors replies use.
#[derive(Clone, Copy, Debug, PartialEq, Eq, Structural)]
pub enum MessageColor {
    DarkGreen,
    DarkRed,
    Blue,
}

/// How a join attempt went, as the caller observed it.
#[derive(Clone, Copy, Debug, PartialEq, Eq, Structural)]
pub enum JoinOutcome {
    Joined,
    UserNotInVoice,
    GuildUnavailable,
    JoinFailed,
}

/// A one-off notice with a fixed text.
#[derive(Clone, Copy, Debug, PartialEq, Eq, Structural)]
pub enum Notice {
    UrlMissing,
    UrlInvalidType,
    UrlNotWatch,
    TitleMissing,
    TitleInvalid,
    QueryMissing,
    QueryInvalid,
    SearchFailed,
    AddingTrack,
    InvalidSelection,
    ServerOnly,
    Pong,
    UnknownCommand,
    PauseFailed,
    ResumeFailed,
    LoopFailed,
    SkipFailed,
    TrackInfoFailed,
    QueueEnded,
}

/// The fixed text and color of each notice.
pub fn notice_reply(notice: Notice) -> (r: (&'static str, MessageColor))
    ensures
        notice == Notice::UrlMissing ==> r.0@ == "Please provide a URL to play!"@ && r.1
            == MessageColor::DarkRed,
        notice == Notice::UrlInvalidType ==> r.0@ == "Please provide a valid URL!"@ && r.1
            == MessageColor::DarkRed,
        notice == Notice::UrlNotWatch ==> r.0@
            == "Please provide a valid **/watch** Youtube URL"@ && r.1 == MessageColor::DarkRed,
        notice == Notice::TitleMissing ==> r.0@ == "Please provide a title to search!"@ && r.1
            == MessageColor::DarkRed,
        notice == Notice::TitleInvalid ==> r.0@ == "Please provide a valid title!"@ && r.1
            == MessageColor::DarkRed,
        notice == Notice::QueryMissing ==> r.0@ == "Please provide a search query!"@ && r.1
            == MessageColor::DarkRed,
        notice == Notice::QueryInvalid ==> r.0@ == "Please provide a valid search query!"@ && r.1
            == MessageColor::DarkRed,
        notice == Notice::SearchFailed ==> r.0@
            == "Failed to search YouTube. Please try again later."@ && r.1
            == MessageColor::DarkRed,
        notice == Notice::AddingTrack ==> r.0@ == "Adding track to queue..."@ && r.1
            == MessageColor::Blue,
        notice == Notice::InvalidSelection ==> r.0@ == "Invalid selection!"@ && r.1
            == MessageColor::DarkRed,
        notice == Notice::ServerOnly ==> r.0@ == "This command can only be used in a server!"@
            && r.1 == MessageColor::DarkRed,
        notice == Notice::Pong ==> r.0@ == "Pong!"@ && r.1 == MessageColor::DarkGreen,
        notice == Notice::UnknownCommand ==> r.0@ == "Unknown command!"@ && r.1
            == MessageColor::DarkRed,
        notice == Notice::PauseFailed ==> r.0@ == "Error pausing song!"@ && r.1
            == MessageColor::DarkRed,
        notice == Notice::ResumeFailed ==> r.0@ == "Error resuming song!"@ && r.1
            == MessageColor::DarkRed,
        notice == Notice::LoopFailed ==> r.0@ == "Error looping song!"@ && r.1
            == MessageColor::DarkRed,
        notice == Notice::SkipFailed ==> r.0@ == "Error skipping song!"@ && r.1
            == MessageColor::DarkRed,
        notice == Notice::TrackInfoFailed ==> r.0@ == "Error getting track information!"@ && r.1
            == MessageColor::DarkRed,
        notice == Notice::QueueEnded ==> r.0@ == "Queue has **ended!**"@ && r.1
            == MessageColor::DarkGreen,
{
    match notice {
        Notice::UrlMissing => ("Please provide a URL to play!", MessageColor::DarkRed),
        Notice::UrlInvalidType => ("Please provide a valid URL!", MessageColor::DarkRed),
        Notice::UrlNotWatch => (
            "Please provide a valid **/watch** Youtube URL",
            MessageColor::DarkRed,
        ),
        Notice::TitleMissing => ("Please provide a title to search!", MessageColor::DarkRed),
        Notice::TitleInvalid => ("Please provide a valid title!", MessageColor::DarkRed),
        Notice::QueryMissing => ("Please provide a search query!", MessageColor::DarkRed),
        Notice::QueryInvalid => ("Please provide a valid search query!", MessageColor::DarkRed),
        Notice::SearchFailed => (
            "Failed to search YouTube. Please try again later.",
            MessageColor::DarkRed,
        ),
        Notice::AddingTrack => ("Adding track to queue...", MessageColor::Blue),
        Notice::InvalidSelection => ("Invalid selection!", MessageColor::DarkRed),
        Notice::ServerOnly => ("This command can only be used in a server!", MessageColor::DarkRed),
        Notice::Pong => ("Pong!", MessageColor::DarkGreen),
        Notice::UnknownCommand => ("Unknown command!", MessageColor::DarkRed),
        Notice::PauseFailed => ("Error pausing song!", MessageColor::DarkRed),
        Notice::ResumeFailed => ("Error resuming song!", MessageColor::DarkRed),
        Notice::LoopFailed => ("Error looping song!", MessageColor::DarkRed),
        Notice::SkipFailed => ("Error skipping song!", MessageColor::DarkRed),
        Notice::TrackInfoFailed => ("Error getting track information!", MessageColor::DarkRed),
        Notice::QueueEnded => ("Queue has **ended!**", MessageColor::DarkGreen),
    }
}

/// The reply to a clear request; `None` means the guild had no session.
pub fn clear_reply(outcome: Option<ClearOutcome>) -> (r: (&'static str, MessageColor))
    ensures
        outcome is None ==> r.0@
            == "Error clearing queue! Ensure Poor Jimmy is in a voice channel with **/join**"@
            && r.1 == MessageColor::DarkRed,
        outcome == Some(ClearOutcome::NothingToClear) ==> r.0@ == "There is nothing to clear!"@
            && r.1 == MessageColor::DarkGreen,
        outcome == Some(ClearOutcome::Cleared) ==> r.0@ == "Queue **cleared!**"@ && r.1
            == MessageColor::DarkGreen,
{
    match outcome {
        None => (
            "Error clearing queue! Ensure Poor Jimmy is in a voice channel with **/join**",
            MessageColor::DarkRed,
        ),
        Some(ClearOutcome::NothingToClear) => ("There is nothing to clear!",
            MessageColor::DarkGreen),
        Some(ClearOutcome::Cleared) => ("Queue **cleared!**", MessageColor::DarkGreen),
    }
}

/// The reply to a pause request; `None` means the guild had no session.
pub fn pause_reply(outcome: Option<PauseOutcome>) -> (r: (&'static str, MessageColor))
    ensures
        outcome is None ==> r.0@
            == "Error pausing song! Ensure Poor Jimmy is in a voice channel with **/join**"@
            && r.1 == MessageColor::DarkRed,
        outcome == Some(PauseOutcome::NoTrack) ==> r.0@ == "There is no song to pause!"@ && r.1
            == MessageColor::DarkGreen,
        outcome == Some(PauseOutcome::AlreadyPaused) ==> r.0@
            == "The song is currently paused!"@ && r.1 == MessageColor::DarkGreen,
        outcome == Some(PauseOutcome::Paused) ==> r.0@
            == "Song **paused!** Use **/resume** to continue playback"@ && r.1
            == MessageColor::DarkGreen,
{
    match outcome {
        None => (
            "Error pausing song! Ensure Poor Jimmy is in a voice channel with **/join**",
            MessageColor::DarkRed,
        ),
        Some(PauseOutcome::NoTrack) => ("There is no song to pause!", MessageColor::DarkGreen),
        Some(PauseOutcome::AlreadyPaused) => ("The song is currently paused!",
            MessageColor::DarkGreen),
        Some(PauseOutcome::Paused) => (
            "Song **paused!** Use **/resume** to continue playback",
            MessageColor::DarkGreen,
        ),
    }
}

/// The reply to a resume request; `None` means the guild had no session.
pub fn resume_reply(outcome: Option<ResumeOutcome>) -> (r: (&'static str, MessageColor))
    ensures
        outcome is None ==> r.0@
            == "Error resuming song! Ensure Poor Jimmy is in a voice channel with **/join**"@
            && r.1 == MessageColor::DarkRed,
        outcome == Some(ResumeOutcome::NoTrack) ==> r.0@ == "There is no song to resume!"@ && r.1
            == MessageColor::DarkGreen,
        outcome == Some(ResumeOutcome::AlreadyPlaying) ==> r.0@
            == "The song is currently playing!"@ && r.1 == MessageColor::DarkGreen,
        outcome == Some(ResumeOutcome::Resumed) ==> r.0@ == "Song **resumed!**"@ && r.1
            == MessageColor::DarkGreen,
{
    match outcome {
        None => (
            "Error resuming song! Ensure Poor Jimmy is in a voice channel with **/join**",
            MessageColor::DarkRed,
        ),
        Some(ResumeOutcome::NoTrack) => ("There is no song to resume!", MessageColor::DarkGreen),
        Some(ResumeOutcome::AlreadyPlaying) => ("The song is currently playing!",
            MessageColor::DarkGreen),
        Some(ResumeOutcome::Resumed) => ("Song **resumed!**", MessageColor::DarkGreen),
    }
}

/// The reply to a skip request; `None` means the guild had no session.
pub fn skip_reply(outcome: Option<SkipOutcome>) -> (r: (&'static str, MessageColor))
    ensures
        outcome is None ==> r.0@
            == "Error skipping song! Ensure Poor Jimmy is in a voice channel with **/join**"@
            && r.1 == MessageColor::DarkRed,
        outcome == Some(SkipOutcome::NoTrack) ==> r.0@
            == "There is no song currently playing!"@ && r.1 == MessageColor::DarkRed,
        outcome == Some(SkipOutcome::Skipped) ==> r.0@ == "Song **skipped!**"@ && r.1
            == MessageColor::DarkGreen,
{
    match outcome {
        None => (
            "Error skipping song! Ensure Poor Jimmy is in a voice channel with **/join**",
            MessageColor::DarkRed,
        ),
        Some(SkipOutcome::NoTrack) => ("There is no song currently playing!",
            MessageColor::DarkRed),
        Some(SkipOutcome::Skipped) => ("Song **skipped!**", MessageColor::DarkGreen),
    }
}

/// The reply to a loop toggle; `None` means the guild had no session.
pub fn loop_reply(outcome: Option<LoopOutcome>) -> (r: (&'static str, MessageColor))
    ensures
        outcome is None ==> r.0@
            == "Error looping song! Ensure Poor Jimmy is in a voice channel with **/join**"@
            && r.1 == MessageColor::DarkRed,
        outcome == Some(LoopOutcome::NoTrack) ==> r.0@ == "There is no song to loop!"@ && r.1
            == MessageColor::DarkGreen,
        outcome == Some(LoopOutcome::LoopEnabled) ==> r.0@
            == "Enabled **looping!** Use **/loop** again to disable or **/skip** to skip"@
            && r.1 == MessageColor::DarkGreen,
        outcome == Some(LoopOutcome::LoopDisabled) ==> r.0@ == "Disabled **looping!**"@ && r.1
            == MessageColor::DarkGreen,
{
    match outcome {
        None => (
            "Error looping song! Ensure Poor Jimmy is in a voice channel with **/join**",
            MessageColor::DarkRed,
        ),
        Some(LoopOutcome::NoTrack) => ("There is no song to loop!", MessageColor::DarkGreen),
        Some(LoopOutcome::LoopEnabled) => (
            "Enabled **looping!** Use **/loop** again to disable or **/skip** to skip",
            MessageColor::DarkGreen,
        ),
        Some(LoopOutcome::LoopDisabled) => ("Disabled **looping!**", MessageColor::DarkGreen),
    }
}

/// The reply to a list request; `None` means the guild had no session,
/// otherwise the queued titles are listed in order, or the queue reported
/// empty.
pub fn list_reply(titles: Option<Vec<String>>) -> (r: (String, MessageColor))
    ensures
        titles is None ==> r.0@
            == "Error listing queue! Ensure Poor Jimmy is in a voice channel with **/join**"@
            && r.1 == MessageColor::DarkRed,
        titles matches Some(t) ==> (t@.len() == 0 ==> r.0@ == "The queue is **empty!**"@) && (
        t@.len() > 0 ==> r.0@ == queue_description_text(title_views(t@), 1)) && r.1
            == MessageColor::DarkGreen,
{
    match titles {
        None => (
            String::from_str(
                "Error listing queue! Ensure Poor Jimmy is in a voice channel with **/join**",
            ),
            MessageColor::DarkRed,
        ),
        Some(t) => {
            if t.len() == 0 {
                (String::from_str("The queue is **empty!**"), MessageColor::DarkGreen)
            } else {
                (format_queue_description(t), MessageColor::DarkGreen)
            }
        },
    }
}

/// The reply to a join attempt.
pub fn join_reply(outcome: JoinOutcome) -> (r: (&'static str, MessageColor))
    ensures
        outcome == JoinOutcome::Joined ==> r.0@
            == "Poor Jimmy **joined** the voice channel!"@ && r.1 == MessageColor::DarkGreen,
        outcome == JoinOutcome::UserNotInVoice ==> r.0@ == "You're not in a voice channel!"@
            && r.1 == MessageColor::DarkRed,
        outcome == JoinOutcome::GuildUnavailable ==> r.0@ == "Error joining voice channel"@
            && r.1 == MessageColor::DarkRed,
        outcome == JoinOutcome::JoinFailed ==> r.0@ == "Error joining voice channel!"@ && r.1
            == MessageColor::DarkRed,
{
    match outcome {
        JoinOutcome::Joined => (
            "Poor Jimmy **joined** the voice channel!",
            MessageColor::DarkGreen,
        ),
        JoinOutcome::UserNotInVoice => ("You're not in a voice channel!", MessageColor::DarkRed),
        JoinOutcome::GuildUnavailable => ("Error joining voice channel", MessageColor::DarkRed),
        JoinOutcome::JoinFailed => ("Error joining voice channel!", MessageColor::DarkRed),
    }
}

/// The reply to a leave request: whether the bot left a channel or had
/// none to leave.
pub fn leave_reply(left: bool) -> (r: (&'static str, MessageColor))
    ensures
        left ==> r.0@ == "Poor Jimmy **left** the voice channel!"@ && r.1
            == MessageColor::DarkGreen,
        !left ==> r.0@
            == "Error leaving voice channel! Ensure Poor Jimmy is in a voice channel with **/join**"@
            && r.1 == MessageColor::DarkRed,
{
    if left {
        ("Poor Jimmy **left** the voice channel!", MessageColor::DarkGreen)
    } else {
        (
            "Error leaving voice channel! Ensure Poor Jimmy is in a voice channel with **/join**",
            MessageColor::DarkRed,
        )
    }
}

/// The reply to an enqueue: the error when the guild had no session, else
/// whether the track was queued behind others or started playing.
pub fn enqueue_reply(outcome: Option<EnqueueOutcome>, title: String) -> (r: (String, MessageColor))
    ensures
        outcome is None ==> r.0@
            == "Error playing song! Ensure Poor Jimmy is in a voice channel with **/join**"@
            && r.1 == MessageColor::DarkRed,
        outcome == Some(EnqueueOutcome::Queued) ==> r.0@ == description_text(title@, true) && r.1
            == MessageColor::DarkGreen,
        outcome == Some(EnqueueOutcome::StartedPlaying) ==> r.0@ == description_text(title@,
            false) && r.1 == MessageColor::DarkGreen,
{
    match outcome {
        None => (
            String::from_str(
                "Error playing song! Ensure Poor Jimmy is in a voice channel with **/join**",
            ),
            MessageColor::DarkRed,
        ),
        Some(EnqueueOutcome::Queued) => (format_description(title, true), MessageColor::DarkGreen),
        Some(EnqueueOutcome::StartedPlaying) => (format_description(title, false),
            MessageColor::DarkGreen),
    }
}

/// The error reply when a playback command finds no session for the
/// guild during the now-playing inquiry.
pub fn now_playing_error_reply(has_session: bool) -> (r: (&'static str, MessageColor))
    ensures
        !has_session ==> r.0@
            == "Error! Ensure Poor Jimmy is in a voice channel with **/join**"@ && r.1
            == MessageColor::DarkRed,
        has_session ==> r.0@ == "No song is currently playing!"@ && r.1
            == MessageColor::DarkGreen,
{
    if !has_session {
        (
            "Error! Ensure Poor Jimmy is in a voice channel with **/join**",
            MessageColor::DarkRed,
        )
    } else {
        ("No song is currently playing!", MessageColor::DarkGreen)
    }
}

/// The body of the now-playing status: the title, then the progress bar of
/// `bar_length` cells over the track position and duration.
pub fn now_playing_text(title: &str, position_seconds: u64, duration: Option<u64>,
    bar_length: usize) -> (r: String)
    ensures
        r@ == "**Now Playing:**\n"@ + title@ + "\n\n"@ + progress_bar_text(
            position_seconds as int, (match duration {
                Some(d) => d,
                None => position_seconds,
            }) as int, bar_length as int),
{
    let mut out = String::new();
    out.append("**Now Playing:**\n");
    out.append(title);
    out.append("\n\n");
    let bar = create_progress_bar(position_seconds, duration, bar_length);
    out.append(bar.as_str());
    proof {
        assert(out@ =~= "**Now Playing:**\n"@ + title@ + "\n\n"@ + progress_bar_text(
            position_seconds as int, (match duration {
                Some(d) => d,
                None => position_seconds,
            }) as int, bar_length as int));
    }
    out
}

/// The announcement posted when a track becomes playable.
pub fn now_playing_announcement(title: &str) -> (r: String)
    ensures
        r@ == "**Now playing:** "@ + title@,
{
    let mut out = String::new();
    out.append("**Now playing:** ");
    out.append(title);
    out
}

/// The notification posted after an auto-disconnect, naming the countdown
/// length in minutes.
pub fn auto_disconnect_text(minutes: u64) -> (r: String)
    ensures
        r@ == "Left voice channel after "@ + decimal_digits(minutes as int)
            + " minutes of inactivity!"@,
{
    let mut out = String::new();
    out.append("Left voice channel after ");
    crate::format::push_decimal(&mut out, minutes);
    out.append(" minutes of inactivity!");
    out
}

/// The search reply when no result could be used: `No results found for
/// "<query>"`.
pub fn no_results_text(query: &str) -> (r: String)
    ensures
        r@ == "No results found for \""@ + query@ + "\""@,
{
    let mut out = String::new();
    out.append("No results found for \"");
    out.append(query);
    out.append("\"");
    out
}

} // verus!
