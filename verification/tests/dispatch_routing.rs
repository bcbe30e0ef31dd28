use poor_jimmy::dispatch::ButtonAction;
use poor_jimmy::dispatch::Command;
use poor_jimmy::dispatch::parse_button;
use poor_jimmy::dispatch::parse_command;
use poor_jimmy::messages::Notice;
use poor_jimmy::messages::MessageColor;
use poor_jimmy::messages::notice_reply;

#[test]
fn every_command_name_routes_to_its_command() {
    assert_eq!(parse_command("clear"), Command::Clear);
    assert_eq!(parse_command("help"), Command::Help);
    assert_eq!(parse_command("join"), Command::Join);
    assert_eq!(parse_command("leave"), Command::Leave);
    assert_eq!(parse_command("list"), Command::List);
    assert_eq!(parse_command("loop"), Command::LoopToggle);
    assert_eq!(parse_command("pause"), Command::Pause);
    assert_eq!(parse_command("ping"), Command::Ping);
    assert_eq!(parse_command("play-title"), Command::PlayTitle);
    assert_eq!(parse_command("play-url"), Command::PlayUrl);
    assert_eq!(parse_command("resume"), Command::Resume);
    assert_eq!(parse_command("search"), Command::Search);
    assert_eq!(parse_command("skip"), Command::Skip);
}

#[test]
fn unmatched_command_names_are_unknown() {
    assert_eq!(parse_command("stop"), Command::Unknown);
    assert_eq!(parse_command(""), Command::Unknown);
    assert_eq!(parse_command("Clear"), Command::Unknown);
    assert_eq!(notice_reply(Notice::UnknownCommand).0, "Unknown command!");
    assert_eq!(notice_reply(Notice::UnknownCommand).1, MessageColor::DarkRed);
}

#[test]
fn fixed_button_ids_route_to_their_actions() {
    assert_eq!(parse_button("clear"), ButtonAction::Clear);
    assert_eq!(parse_button("loop"), ButtonAction::LoopToggle);
    assert_eq!(parse_button("pause"), ButtonAction::Pause);
    assert_eq!(parse_button("resume"), ButtonAction::Resume);
    assert_eq!(parse_button("skip"), ButtonAction::Skip);
}

#[test]
fn search_buttons_carry_the_video_id() {
    assert_eq!(
        parse_button("search_play_dQw4w9WgXcQ"),
        ButtonAction::SearchPlay("dQw4w9WgXcQ".to_string())
    );
    assert_eq!(parse_button("search_play_"), ButtonAction::SearchPlay("".to_string()));
    assert_eq!(parse_button("search_pla"), ButtonAction::Unknown);
    assert_eq!(parse_button("other"), ButtonAction::Unknown);
}
