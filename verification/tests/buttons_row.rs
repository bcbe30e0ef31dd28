use poor_jimmy::buttons::ButtonStyleKind;
use poor_jimmy::buttons::music_buttons;

#[test]
fn music_buttons_form_one_row_of_five() {
    let row = music_buttons();
    assert_eq!(row.len(), 5);
    let ids: Vec<&str> = row.iter().map(|b| b.id).collect();
    assert_eq!(ids, vec!["clear", "resume", "pause", "skip", "loop"]);
}

#[test]
fn music_buttons_carry_labels_and_styles() {
    let row = music_buttons();
    assert_eq!(row[0].label, "📋 Clear");
    assert_eq!(row[0].style, ButtonStyleKind::Danger);
    assert_eq!(row[1].label, "▶️ Resume");
    assert_eq!(row[1].style, ButtonStyleKind::Success);
    assert_eq!(row[2].style, ButtonStyleKind::Primary);
    assert_eq!(row[3].label, "⏭️ Skip");
    assert_eq!(row[4].label, "🔄 Loop");
}
