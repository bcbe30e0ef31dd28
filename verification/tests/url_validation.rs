use poor_jimmy::is_valid_youtube_url;
use poor_jimmy::url::contains_str;

#[test]
fn it_validates_valid_youtube_urls() {
    let valid_watch_url = String::from("https://www.youtube.com/watch?id=12345");
    let valid_share_url = String::from("https://youtu.be/e7qtC_e8Jxc?si=mtCnq8iVc253P89M");

    assert_eq!(true, is_valid_youtube_url(&valid_watch_url));
    assert_eq!(true, is_valid_youtube_url(&valid_share_url));
}

#[test]
fn it_validates_invalid_youtube_urls() {
    let invalid_url = String::from("https://www.you.tube.com/watch?id=12345");
    let another_invalid_url = String::from("https://www.youtube.com/results?search_query=title");

    assert_eq!(false, is_valid_youtube_url(&invalid_url));
    assert_eq!(false, is_valid_youtube_url(&another_invalid_url));
}

#[test]
fn it_validates_youtube_url_edge_cases() {
    // Empty string
    assert_eq!(false, is_valid_youtube_url(&String::from("")));

    // Non-YouTube URLs
    assert_eq!(false, is_valid_youtube_url(&String::from("https://vimeo.com/12345")));
    assert_eq!(false, is_valid_youtube_url(&String::from("https://www.google.com")));

    // YouTube URLs without watch or youtu.be
    assert_eq!(false, is_valid_youtube_url(&String::from("https://www.youtube.com/")));
    assert_eq!(
        false,
        is_valid_youtube_url(&String::from("https://www.youtube.com/channel/test"))
    );

    // Valid variations
    assert_eq!(
        true,
        is_valid_youtube_url(&String::from("https://youtube.com/watch?v=abc123"))
    );
    assert_eq!(
        true,
        is_valid_youtube_url(&String::from("http://www.youtube.com/watch?v=test"))
    );
}

#[test]
fn it_validates_youtube_mobile_urls() {
    let mobile_url = String::from("https://m.youtube.com/watch?v=12345");
    assert_eq!(true, is_valid_youtube_url(&mobile_url));
}

#[test]
fn substring_search_finds_needles() {
    assert!(contains_str("hello world", "o wo"));
    assert!(contains_str("hello", "hello"));
    assert!(contains_str("hello", ""));
    assert!(!contains_str("hello", "hello!"));
    assert!(!contains_str("abcabc", "cb"));
}
