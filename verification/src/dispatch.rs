//! Routing of inbound interactions: slash-command names and button
//! identifiers map onto a fixed set of command variants, with an explicit
//! unknown variant for anything unmatched.

use vstd::prelude::*;
use crate::url::has_prefix;
use crate::url::starts_with_str;
use crate::url::str_eq;

verus! {

/// The slash commands the bot answers.
#[derive(Clone, Copy, Debug, PartialEq, Eq, Structural)]
pub enum Command {
    Clear,
    Help,
    Join,
    Leave,
    List,
    LoopToggle,
    Pause,
    Ping,
    PlayTitle,
    PlayUrl,
    Resume,
    Search,
    Skip,
    Unknown,
}

/// The button interactions the bot answers: the fixed controls under the
/// "now playing" message, and the per-result buttons of a search reply,
/// which carry the chosen video id.
#[derive(Debug, PartialEq, Eq)]
pub enum ButtonAction {
    Clear,
    LoopToggle,
    Pause,
    Resume,
    Skip,
    SearchPlay(String),
    Unknown,
}

/// Maps a slash-command name to its command, `Unknown` for any other name.
pub fn parse_command(name: &str) -> (r: Command)
    ensures
        r == Command::Clear <==> name@ == "clear"@,
        r == Command::Help <==> name@ == "help"@,
        r == Command::Join <==> name@ == "join"@,
        r == Command::Leave <==> name@ == "leave"@,
        r == Command::List <==> name@ == "list"@,
        r == Command::LoopToggle <==> name@ == "loop"@,
        r == Command::Pause <==> name@ == "pause"@,
        r == Command::Ping <==> name@ == "ping"@,
        r == Command::PlayTitle <==> name@ == "play-title"@,
        r == Command::PlayUrl <==> name@ == "play-url"@,
        r == Command::Resume <==> name@ == "resume"@,
        r == Command::Search <==> name@ == "search"@,
        r == Command::Skip <==> name@ == "skip"@,
{
    proof {
        reveal_strlit("clear");
        reveal_strlit("help");
        reveal_strlit("join");
        reveal_strlit("leave");
        reveal_strlit("list");
        reveal_strlit("loop");
        reveal_strlit("pause");
        reveal_strlit("ping");
        reveal_strlit("play-title");
        reveal_strlit("play-url");
        reveal_strlit("resume");
        reveal_strlit("search");
        reveal_strlit("skip");
        assert("clear"@.len() == 5 && "clear"@[0] == 'c');
        assert("help"@.len() == 4 && "help"@[0] == 'h');
        assert("join"@.len() == 4 && "join"@[0] == 'j');
        assert("leave"@.len() == 5 && "leave"@[0] == 'l');
        assert("list"@.len() == 4 && "list"@[1] == 'i');
        assert("loop"@.len() == 4 && "loop"@[0] == 'l' && "loop"@[1] == 'o');
        assert("pause"@.len() == 5 && "pause"@[0] == 'p');
        assert("ping"@.len() == 4 && "ping"@[0] == 'p');
        assert("play-title"@.len() == 10);
        assert("play-url"@.len() == 8);
        assert("resume"@.len() == 6 && "resume"@[0] == 'r');
        assert("search"@.len() == 6 && "search"@[0] == 's');
        assert("skip"@.len() == 4 && "skip"@[0] == 's');
    }
    if str_eq(name, "clear") {
        Command::Clear
    } else if str_eq(name, "help") {
        Command::Help
    } else if str_eq(name, "join") {
        Command::Join
    } else if str_eq(name, "leave") {
        Command::Leave
    } else if str_eq(name, "list") {
        Command::List
    } else if str_eq(name, "loop") {
        Command::LoopToggle
    } else if str_eq(name, "pause") {
        Command::Pause
    } else if str_eq(name, "ping") {
        Command::Ping
    } else if str_eq(name, "play-title") {
        Command::PlayTitle
    } else if str_eq(name, "play-url") {
        Command::PlayUrl
    } else if str_eq(name, "resume") {
        Command::Resume
    } else if str_eq(name, "search") {
        Command::Search
    } else if str_eq(name, "skip") {
        Command::Skip
    } else {
        Command::Unknown
    }
}

/// Maps a button identifier to its action. An identifier of the form
/// `search_play_` followed by a video id selects that search result; the
/// carried id is exactly what follows the prefix.
pub fn parse_button(custom_id: &str) -> (r: ButtonAction)
    ensures
        r == ButtonAction::Clear <==> custom_id@ == "clear"@,
        r == ButtonAction::LoopToggle <==> custom_id@ == "loop"@,
        r == ButtonAction::Pause <==> custom_id@ == "pause"@,
        r == ButtonAction::Resume <==> custom_id@ == "resume"@,
        r == ButtonAction::Skip <==> custom_id@ == "skip"@,
        r matches ButtonAction::SearchPlay(id) <==> custom_id@ != "clear"@ && custom_id@
            != "loop"@ && custom_id@ != "pause"@ && custom_id@ != "resume"@ && custom_id@
            != "skip"@ && has_prefix(custom_id@, "search_play_"@),
        r matches ButtonAction::SearchPlay(id) ==> id@ == custom_id@.subrange(
            "search_play_"@.len() as int, custom_id@.len() as int),
{
    proof {
        reveal_strlit("clear");
        reveal_strlit("loop");
        reveal_strlit("pause");
        reveal_strlit("resume");
        reveal_strlit("skip");
        reveal_strlit("search_play_");
        assert("clear"@.len() == 5 && "clear"@[0] == 'c');
        assert("loop"@.len() == 4 && "loop"@[0] == 'l');
        assert("pause"@.len() == 5 && "pause"@[0] == 'p');
        assert("resume"@.len() == 6 && "resume"@[0] == 'r');
        assert("skip"@.len() == 4 && "skip"@[0] == 's');
        assert("search_play_"@.len() == 12);
    }
    if str_eq(custom_id, "clear") {
        ButtonAction::Clear
    } else if str_eq(custom_id, "loop") {
        ButtonAction::LoopToggle
    } else if str_eq(custom_id, "pause") {
        ButtonAction::Pause
    } else if str_eq(custom_id, "resume") {
        ButtonAction::Resume
    } else if str_eq(custom_id, "skip") {
        ButtonAction::Skip
    } else if starts_with_str(custom_id, "search_play_") {
        let n = custom_id.unicode_len();
        let id = custom_id.substring_char(12, n);
        ButtonAction::SearchPlay(String::from_str(id))
    } else {
        ButtonAction::Unknown
    }
}

} // verus!
