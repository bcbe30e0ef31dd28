//! The control buttons attached to playback messages: one row of five,
//! with fixed identifiers that the button dispatch recognises.

use vstd::prelude::*;

verus! {

/// The visual style of a control button.
#[derive(Clone, Copy, Debug, PartialEq, Eq, Structural)]
pub enum ButtonStyleKind {
    Danger,
    Success,
    Primary,
}

/// One control button: its identifier, its label, and its style.
#[derive(Clone, Copy, Debug)]
pub struct ButtonSpec {
    pub id: &'static str,
    pub label: &'static str,
    pub style: ButtonStyleKind,
}

/// The single row of playback controls: clear, resume, pause, skip and
/// loop, in that order.
pub fn music_buttons() -> (r: Vec<ButtonSpec>)
    ensures
        r@.len() == 5,
        r@[0].id@ == "clear"@ && r@[0].label@ == "\u{1F4CB} Clear"@ && r@[0].style
            == ButtonStyleKind::Danger,
        r@[1].id@ == "resume"@ && r@[1].label@ == "\u{25B6}\u{FE0F} Resume"@ && r@[1].style
            == ButtonStyleKind::Success,
        r@[2].id@ == "pause"@ && r@[2].label@ == "\u{23F8}\u{FE0F} Pause"@ && r@[2].style
            == ButtonStyleKind::Primary,
        r@[3].id@ == "skip"@ && r@[3].label@ == "\u{23ED}\u{FE0F} Skip"@ && r@[3].style
            == ButtonStyleKind::Primary,
        r@[4].id@ == "loop"@ && r@[4].label@ == "\u{1F504} Loop"@ && r@[4].style
            == ButtonStyleKind::Primary,
{
    let mut row: Vec<ButtonSpec> = Vec::new();
    row.push(ButtonSpec {
        id: "clear",
        label: "\u{1F4CB} Clear",
        style: ButtonStyleKind::Danger,
    });
    row.push(ButtonSpec {
        id: "resume",
        label: "\u{25B6}\u{FE0F} Resume",
        style: ButtonStyleKind::Success,
    });
    row.push(ButtonSpec {
        id: "pause",
        label: "\u{23F8}\u{FE0F} Pause",
        style: ButtonStyleKind::Primary,
    });
    row.push(ButtonSpec {
        id: "skip",
        label: "\u{23ED}\u{FE0F} Skip",
        style: ButtonStyleKind::Primary,
    });
    row.push(ButtonSpec {
        id: "loop",
        label: "\u{1F504} Loop",
        style: ButtonStyleKind::Primary,
    });
    row
}

} // verus!
