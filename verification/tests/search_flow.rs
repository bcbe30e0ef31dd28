use poor_jimmy::search::SearchReply;
use poor_jimmy::search::build_result_cards;
use poor_jimmy::search::parse_search_line;
use poor_jimmy::search::parse_whole_seconds;
use poor_jimmy::search::search_reply;
use poor_jimmy::search::search_results_from_output;
use poor_jimmy::search::split_lines;
use poor_jimmy::search::watch_url;
use poor_jimmy::messages::no_results_text;

#[test]
fn parses_a_search_line_with_all_fields() {
    let line = "{\"id\":\"abc123\",\"title\":\"A Song\",\"duration\":212.5,\
                \"thumbnails\":[{\"url\":\"https://example.com/small.jpg\"},\
                {\"url\":\"https://example.com/large.jpg\"}]}";
    let result = parse_search_line(line).unwrap();
    assert_eq!(result.id, "abc123");
    assert_eq!(result.title, "A Song");
    assert_eq!(result.duration_seconds, Some(212));
    assert_eq!(result.thumbnail_url, Some("https://example.com/large.jpg".to_string()));
}

#[test]
fn parses_a_search_line_with_missing_optionals() {
    let line = "{\"id\":\"xyz\",\"title\":\"Live\"}";
    let result = parse_search_line(line).unwrap();
    assert_eq!(result.id, "xyz");
    assert_eq!(result.duration_seconds, None);
    assert_eq!(result.thumbnail_url, None);
}

#[test]
fn rejects_unusable_search_lines() {
    assert!(parse_search_line("").is_none());
    assert!(parse_search_line("not json").is_none());
    assert!(parse_search_line("{\"title\":\"no id\"}").is_none());
    assert!(parse_search_line("{\"id\":7,\"title\":\"numeric id\"}").is_none());
}

#[test]
fn a_malformed_optional_field_spoils_the_whole_line() {
    assert!(parse_search_line("{\"id\":\"x\",\"title\":\"t\",\"duration\":\"3:25\"}").is_none());
    assert!(parse_search_line("{\"id\":\"x\",\"title\":\"t\",\"thumbnails\":\"no\"}").is_none());
    assert!(parse_search_line("{\"id\":\"x\",\"title\":\"t\",\"thumbnails\":[{\"width\":1}]}").is_none());
    assert!(parse_search_line("{\"id\":\"x\",\"title\":\"t\",\"thumbnails\":null}").is_none());

    let ok = parse_search_line("{\"id\":\"x\",\"title\":\"t\",\"duration\":null,\"thumbnails\":[]}")
        .unwrap();
    assert_eq!(ok.duration_seconds, None);
    assert_eq!(ok.thumbnail_url, None);
}

#[test]
fn whole_seconds_truncate_fractions() {
    assert_eq!(parse_whole_seconds("212.5"), Some(212));
    assert_eq!(parse_whole_seconds("212"), Some(212));
    assert_eq!(parse_whole_seconds("0.9"), Some(0));
    assert_eq!(parse_whole_seconds(""), None);
    assert_eq!(parse_whole_seconds(".5"), None);
    assert_eq!(parse_whole_seconds("-3"), None);
    assert_eq!(parse_whole_seconds("99999999999999999999999"), None);
}

#[test]
fn output_lines_split_as_printed() {
    let lines = split_lines("a\nbb\n\nccc");
    assert_eq!(lines, vec!["a".to_string(), "bb".to_string(), "".to_string(), "ccc".to_string()]);
    assert_eq!(split_lines(""), Vec::<String>::new());
    assert_eq!(split_lines("one\n"), vec!["one".to_string()]);
}

#[test]
fn collects_at_most_five_usable_results_in_order() {
    let mut output = String::new();
    for i in 0..7 {
        output.push_str(&format!("{{\"id\":\"v{}\",\"title\":\"T{}\"}}\n", i, i));
        output.push_str("garbage line\n");
    }
    let results = search_results_from_output(&output);
    assert_eq!(results.len(), 5);
    for (i, result) in results.iter().enumerate() {
        assert_eq!(result.id, format!("v{}", i));
    }
}

#[test]
fn result_cards_number_and_link_the_results() {
    let output = "{\"id\":\"aa\",\"title\":\"First\",\"duration\":3665}\n\
                  {\"id\":\"bb\",\"title\":\"Second\",\"duration\":59}\n";
    let results = search_results_from_output(output);
    let cards = build_result_cards(&results);
    assert_eq!(cards.len(), 2);
    assert_eq!(cards[0].heading, "1. First");
    assert_eq!(cards[0].duration_line, "Duration: 61:05");
    assert_eq!(cards[0].watch_url, "https://www.youtube.com/watch?v=aa");
    assert_eq!(cards[0].button_id, "search_play_aa");
    assert_eq!(cards[0].button_label, "Option 1");
    assert_eq!(cards[1].heading, "2. Second");
    assert_eq!(cards[1].duration_line, "Duration: 0:59");
    assert_eq!(cards[1].button_label, "Option 2");
}

#[test]
fn empty_results_report_the_query_and_offer_no_buttons() {
    let reply = search_reply("some song", Vec::new());
    match reply {
        SearchReply::NoResults(text) => {
            assert_eq!(text, "No results found for \"some song\"");
        }
        SearchReply::Results(_) => panic!("expected no results"),
    }
    assert_eq!(no_results_text("q"), "No results found for \"q\"");
}

#[test]
fn watch_urls_embed_the_video_id() {
    assert_eq!(watch_url("dQw4w9WgXcQ"), "https://www.youtube.com/watch?v=dQw4w9WgXcQ");
}
