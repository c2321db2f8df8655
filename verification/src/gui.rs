//! Editor widget logic that does not depend on the UI toolkit: the toolbar's
//! choice of tool and the brush widget's reaction to pointer drags.
use vstd::prelude::*;

verus! {

/// A labelled button of a toolbar that selects `tool` when clicked.
pub struct ToolButton<T> {
    pub label: String,
    pub tool: T,
}

impl<T> ToolButton<T> {
    pub fn new(label: String, tool: T) -> (button: Self)
        ensures
            button.label@ == label@,
            button.tool == tool,
    {
        ToolButton { label, tool }
    }
}

/// The position of the last `true` in `clicked`, if any.
pub open spec fn last_clicked(clicked: Seq<bool>) -> Option<int>
    decreases clicked.len(),
{
    if clicked.len() == 0 {
        None
    } else if clicked.last() {
        Some(clicked.len() - 1)
    } else {
        last_clicked(clicked.drop_last())
    }
}

/// The tool that is active after one frame of the toolbar: the buttons are shown
/// in order and each click selects its tool, so the last clicked tool wins; a
/// click on the clear button, shown after the tools, deselects everything.
pub open spec fn toolbar_result(active: Option<usize>, clicked: Seq<bool>, clear_clicked: bool) -> Option<usize> {
    if clear_clicked {
        None
    } else {
        match last_clicked(clicked) {
            Some(i) => Some(i as usize),
            None => active,
        }
    }
}

/// The index of the tool that is active after the toolbar was shown, given which
/// tool buttons and whether the clear button were clicked.
pub fn toolbar_choice(active: Option<usize>, clicked: &Vec<bool>, clear_clicked: bool) -> (chosen: Option<usize>)
    ensures
        chosen == toolbar_result(active, clicked@, clear_clicked),
{
    let mut chosen = active;
    let mut i: usize = 0;
    while i < clicked.len()
        invariant
            i <= clicked.len(),
            chosen == match last_clicked(clicked@.take(i as int)) {
                Some(j) => Some(j as usize),
                None => active,
            },
        decreases clicked.len() - i,
    {
        assert(clicked@.take(i + 1).drop_last() =~= clicked@.take(i as int));
        if clicked[i] {
            chosen = Some(i);
        }
        i = i + 1;
    }
    assert(clicked@.take(clicked.len() as int) =~= clicked@);
    if clear_clicked {
        chosen = None;
    }
    chosen
}

/// Which tool buttons are drawn as active: those whose tool is of the same kind
/// (enum variant, given by its number) as the active tool. Nothing is active
/// when no tool is selected. The clear button is never drawn as active.
pub open spec fn highlighted(active_kind: Option<u32>, kinds: Seq<u32>) -> Seq<bool> {
    Seq::new(kinds.len(), |i: int| active_kind == Some(kinds[i]))
}

/// Decide, for each tool button in order, whether it is drawn as active.
pub fn highlight_flags(active_kind: Option<u32>, kinds: &Vec<u32>) -> (flags: Vec<bool>)
    ensures
        flags@ == highlighted(active_kind, kinds@),
{
    let mut flags: Vec<bool> = Vec::new();
    let mut i: usize = 0;
    while i < kinds.len()
        invariant
            i <= kinds.len(),
            flags@ == highlighted(active_kind, kinds@.take(i as int)),
        decreases kinds.len() - i,
    {
        let lit = match active_kind {
            Some(kind) => kind == kinds[i],
            None => false,
        };
        flags.push(lit);
        assert(flags@ =~= highlighted(active_kind, kinds@.take(i + 1)));
        i = i + 1;
    }
    assert(kinds@.take(kinds.len() as int) =~= kinds@);
    flags
}

/// What the pointer did over the world view in one frame, per button.
#[derive(Debug, Clone, Copy)]
pub struct PointerDrag {
    pub started_primary: bool,
    pub started_secondary: bool,
    pub released_primary: bool,
    pub released_secondary: bool,
    pub dragged_primary: bool,
    pub dragged_secondary: bool,
}

/// What the brush widget does in response to one frame of pointer input.
#[derive(Debug, Clone, Copy, PartialEq, Eq, Structural)]
pub struct StrokeActions {
    /// Deselect the active brush (escape was pressed).
    pub deselect: bool,
    /// A drag started: the new value of the brush's invert setting.
    pub set_invert: Option<bool>,
    /// Publish the start of a stroke with the active brush.
    pub begin_stroke: bool,
    /// Clear the brush decal and publish the end of the stroke.
    pub end_stroke: bool,
    /// Publish a drag over the world view at the pointer position.
    pub drag: bool,
}

/// The brush widget's response: escape deselects the brush; a drag started with
/// the primary button strokes normally and one with the secondary button (when
/// the primary did not start one) strokes inverted, and the stroke is only
/// published if a brush is still selected; releasing either button ends the
/// stroke, and dragging with either button moves it.
pub open spec fn stroke_response(escape_pressed: bool, brush_selected: bool, drag: PointerDrag) -> StrokeActions {
    let set_invert = if drag.started_primary {
        Some(false)
    } else if drag.started_secondary {
        Some(true)
    } else {
        None
    };
    StrokeActions {
        deselect: escape_pressed,
        set_invert,
        begin_stroke: set_invert is Some && brush_selected && !escape_pressed,
        end_stroke: drag.released_primary || drag.released_secondary,
        drag: drag.dragged_primary || drag.dragged_secondary,
    }
}

/// Decide the brush widget's actions for one frame of pointer input.
pub fn stroke_actions(escape_pressed: bool, brush_selected: bool, drag: PointerDrag) -> (actions: StrokeActions)
    ensures
        actions == stroke_response(escape_pressed, brush_selected, drag),
        actions.end_stroke == (drag.released_primary || drag.released_secondary),
        actions.drag == (drag.dragged_primary || drag.dragged_secondary),
        actions.deselect == escape_pressed,
        drag.started_primary ==> actions.set_invert == Some(false),
        !drag.started_primary && drag.started_secondary ==> actions.set_invert == Some(true),
        !drag.started_primary && !drag.started_secondary ==> actions.set_invert is None,
        actions.begin_stroke == ((drag.started_primary || drag.started_secondary) && brush_selected
            && !escape_pressed),
{
    let selected = brush_selected && !escape_pressed;
    let set_invert = if drag.started_primary {
        Some(false)
    } else if drag.started_secondary {
        Some(true)
    } else {
        None
    };
    let begin_stroke = match set_invert {
        Some(_) => selected,
        None => false,
    };
    StrokeActions {
        deselect: escape_pressed,
        set_invert,
        begin_stroke,
        end_stroke: drag.released_primary || drag.released_secondary,
        drag: drag.dragged_primary || drag.dragged_secondary,
    }
}

/// Clicking the clear button deselects the tool, whichever tool buttons were
/// clicked in the same frame; without any click the active tool stays.
pub proof fn law_toolbar_clear_and_idle(active: Option<usize>, clicked: Seq<bool>)
    ensures
        toolbar_result(active, clicked, true) is None,
        (forall|i: int| 0 <= i < clicked.len() ==> !clicked[i]) ==> toolbar_result(
            active,
            clicked,
            false,
        ) == active,
    decreases clicked.len(),
{
    if clicked.len() > 0 {
        law_toolbar_clear_and_idle(active, clicked.drop_last());
    }
}

/// A stroke never begins in the frame in which escape deselects the brush, nor
/// while no brush is selected.
pub proof fn law_no_stroke_without_brush(escape_pressed: bool, brush_selected: bool, drag: PointerDrag)
    ensures
        escape_pressed || !brush_selected ==> !stroke_response(escape_pressed, brush_selected, drag).begin_stroke,
{
}

/// The tool just selected is drawn as active, and with no tool selected no
/// button is.
pub proof fn law_selected_tool_is_highlighted(kinds: Seq<u32>, i: int)
    requires
        0 <= i < kinds.len(),
    ensures
        highlighted(Some(kinds[i]), kinds)[i],
        forall|j: int| 0 <= j < kinds.len() ==> !#[trigger] highlighted(None, kinds)[j],
{
}

/// Releasing either pointer button ends the stroke, and nothing else does;
/// dragging with either button moves it, and nothing else does.
pub proof fn law_release_ends_stroke(escape_pressed: bool, brush_selected: bool, drag: PointerDrag)
    ensures
        drag.released_primary ==> stroke_response(escape_pressed, brush_selected, drag).end_stroke,
        drag.released_secondary ==> stroke_response(escape_pressed, brush_selected, drag).end_stroke,
        stroke_response(escape_pressed, brush_selected, drag).end_stroke ==> drag.released_primary
            || drag.released_secondary,
        stroke_response(escape_pressed, brush_selected, drag).drag <==> drag.dragged_primary
            || drag.dragged_secondary,
{
}

/// A drag started with the primary button strokes normally, one started with
/// the secondary button alone strokes inverted, and a stroke begins exactly when
/// a drag starts while a brush stays selected.
pub proof fn law_stroke_begins(escape_pressed: bool, brush_selected: bool, drag: PointerDrag)
    ensures
        drag.started_primary ==> stroke_response(escape_pressed, brush_selected, drag).set_invert
            == Some(false),
        !drag.started_primary && drag.started_secondary ==> stroke_response(
            escape_pressed,
            brush_selected,
            drag,
        ).set_invert == Some(true),
        stroke_response(escape_pressed, brush_selected, drag).begin_stroke <==> (
        drag.started_primary || drag.started_secondary) && brush_selected && !escape_pressed,
{
}

} // verus!
