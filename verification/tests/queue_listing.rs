use poor_jimmy::format_queue_description;

#[test]
fn test_format_queue_description_empty() {
    let titles = vec![];
    let result = format_queue_description(titles);
    assert_eq!(result, "");
}

#[test]
fn test_format_queue_description_single() {
    let titles = vec!["Song One".to_string()];
    let result = format_queue_description(titles);
    assert_eq!(result, "**1:** Song One\n");
}

#[test]
fn test_format_queue_description_multiple() {
    let titles = vec![
        "First Song".to_string(),
        "Second Song".to_string(),
        "Third Song".to_string(),
    ];
    let result = format_queue_description(titles);
    assert_eq!(
        result,
        "**1:** First Song\n**2:** Second Song\n**3:** Third Song\n"
    );
}

#[test]
fn test_format_queue_description_with_special_characters() {
    let titles = vec![
        "Song with emoji 🎵".to_string(),
        "Song with **markdown**".to_string(),
    ];
    let result = format_queue_description(titles);
    assert!(result.contains("🎵"));
    assert!(result.contains("**markdown**"));
}

#[test]
fn test_format_queue_description_double_digit_positions() {
    let titles: Vec<String> = (0..12).map(|i| format!("Song {}", i)).collect();
    let result = format_queue_description(titles);
    assert!(result.contains("**10:** Song 9\n"));
    assert!(result.contains("**12:** Song 11\n"));
}
