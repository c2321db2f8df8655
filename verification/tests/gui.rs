use andromeda::gui::{highlight_flags, stroke_actions, toolbar_choice, PointerDrag, StrokeActions, ToolButton};

fn no_drag() -> PointerDrag {
    PointerDrag {
        started_primary: false,
        started_secondary: false,
        released_primary: false,
        released_secondary: false,
        dragged_primary: false,
        dragged_secondary: false,
    }
}

#[test]
fn tool_button_keeps_label_and_tool() {
    let button = ToolButton::new("Height brush".to_owned(), 3u8);
    assert_eq!(button.label, "Height brush");
    assert_eq!(button.tool, 3);
}

#[test]
fn last_clicked_tool_wins() {
    assert_eq!(toolbar_choice(None, &vec![false, true, true], false), Some(2));
    assert_eq!(toolbar_choice(Some(0), &vec![false, false], false), Some(0));
    assert_eq!(toolbar_choice(Some(0), &vec![true], true), None);
    assert_eq!(toolbar_choice(None, &vec![], false), None);
}

#[test]
fn primary_drag_strokes_normally() {
    let drag = PointerDrag { started_primary: true, started_secondary: true, ..no_drag() };
    assert_eq!(
        stroke_actions(false, true, drag),
        StrokeActions {
            deselect: false,
            set_invert: Some(false),
            begin_stroke: true,
            end_stroke: false,
            drag: false,
        }
    );
}

#[test]
fn secondary_drag_strokes_inverted() {
    let drag = PointerDrag { started_secondary: true, dragged_secondary: true, ..no_drag() };
    let actions = stroke_actions(false, true, drag);
    assert_eq!(actions.set_invert, Some(true));
    assert!(actions.begin_stroke);
    assert!(actions.drag);
}

#[test]
fn escape_deselects_before_the_stroke_starts() {
    let drag = PointerDrag { started_primary: true, ..no_drag() };
    let actions = stroke_actions(true, true, drag);
    assert!(actions.deselect);
    assert_eq!(actions.set_invert, Some(false));
    assert!(!actions.begin_stroke);
    let none = stroke_actions(false, false, drag);
    assert!(!none.begin_stroke);
}

#[test]
fn release_ends_the_stroke() {
    let drag = PointerDrag { released_secondary: true, ..no_drag() };
    let actions = stroke_actions(false, true, drag);
    assert!(actions.end_stroke);
    assert_eq!(actions.set_invert, None);
    assert!(!actions.drag);
}

#[test]
fn highlight_flags_follow_active_kind() {
    assert_eq!(highlight_flags(Some(1), &vec![0, 1, 2, 1]), vec![false, true, false, true]);
    assert_eq!(highlight_flags(None, &vec![0, 1]), vec![false, false]);
    assert!(highlight_flags(Some(3), &vec![]).is_empty());
}
