//! The keyboard's own state: the visible page, the shift toggle and the
//! title-bar drag gesture.

use vstd::prelude::*;
use crate::layout::KeyboardPage;

verus! {

/// The phase of a touch event.
#[derive(Clone, Copy, PartialEq, Eq, Debug, Structural)]
pub enum TouchPhase {
    Started,
    Moved,
    Ended,
    Cancelled,
}

/// What a touch event did to the title-bar drag gesture.
#[derive(Clone, Copy, PartialEq, Eq, Debug, Structural)]
pub enum DragUpdate {
    /// The event does not belong to a drag; it is passed on.
    Ignored,
    /// A drag started: the caller records where the touch and the window were.
    Started,
    /// The dragging touch moved: the caller moves the window.
    Moved,
    /// The dragging touch was lifted or cancelled.
    Ended,
}

/// The keyboard's state apart from its geometry.
#[derive(Clone, Copy, PartialEq, Eq, Debug, Structural)]
pub struct KeyboardState {
    pub page: KeyboardPage,
    pub shifted: bool,
    pub dragging: bool,
    pub drag_touch_id: Option<i32>,
}

/// The state a keyboard starts in: letters page, unshifted, not dragging.
pub open spec fn spec_initial_state() -> KeyboardState {
    KeyboardState { page: KeyboardPage::Letters, shifted: false, dragging: false, drag_touch_id: None }
}

/// The state after a touch event with the given phase and id; `in_title_bar`
/// tells whether the touch started inside the title bar.
pub open spec fn spec_touch(s: KeyboardState, phase: TouchPhase, id: i32, in_title_bar: bool) -> (KeyboardState, DragUpdate) {
    match phase {
        TouchPhase::Started => if in_title_bar {
            (KeyboardState { dragging: true, drag_touch_id: Some(id), ..s }, DragUpdate::Started)
        } else {
            (s, DragUpdate::Ignored)
        },
        TouchPhase::Moved => if s.dragging && s.drag_touch_id == Some(id) {
            (s, DragUpdate::Moved)
        } else {
            (s, DragUpdate::Ignored)
        },
        TouchPhase::Ended | TouchPhase::Cancelled => if s.drag_touch_id == Some(id) {
            (KeyboardState { dragging: false, drag_touch_id: None, ..s }, DragUpdate::Ended)
        } else {
            (s, DragUpdate::Ignored)
        },
    }
}

impl KeyboardState {
    /// A keyboard on the letters page, unshifted, not dragging.
    pub fn new() -> (s: KeyboardState)
        ensures
            s == spec_initial_state(),
    {
        KeyboardState { page: KeyboardPage::Letters, shifted: false, dragging: false, drag_touch_id: None }
    }

    /// Toggle the shift state.
    pub fn toggle_shift(&mut self)
        ensures
            *final(self) == (KeyboardState { shifted: !old(self).shifted, ..*old(self) }),
    {
        self.shifted = !self.shifted;
    }

    /// Show another page.
    pub fn set_page(&mut self, page: KeyboardPage)
        ensures
            *final(self) == (KeyboardState { page, ..*old(self) }),
    {
        self.page = page;
    }

    /// Feed a touch event to the title-bar drag gesture. A touch that starts in
    /// the title bar starts a drag; only that touch moves or ends it.
    pub fn handle_touch(&mut self, phase: TouchPhase, id: i32, in_title_bar: bool) -> (u: DragUpdate)
        ensures
            (*final(self), u) == spec_touch(*old(self), phase, id, in_title_bar),
    {
        match phase {
            TouchPhase::Started => {
                if in_title_bar {
                    self.dragging = true;
                    self.drag_touch_id = Some(id);
                    DragUpdate::Started
                } else {
                    DragUpdate::Ignored
                }
            },
            TouchPhase::Moved => {
                let same = match self.drag_touch_id {
                    Some(t) => t == id,
                    None => false,
                };
                if self.dragging && same {
                    DragUpdate::Moved
                } else {
                    DragUpdate::Ignored
                }
            },
            TouchPhase::Ended | TouchPhase::Cancelled => {
                let same = match self.drag_touch_id {
                    Some(t) => t == id,
                    None => false,
                };
                if same {
                    self.dragging = false;
                    self.drag_touch_id = None;
                    DragUpdate::Ended
                } else {
                    DragUpdate::Ignored
                }
            },
        }
    }
}

/// Lifting or cancelling the touch that drags the title bar ends the drag:
/// the keyboard stops dragging and forgets the touch, keeping its page and
/// shift state. Lifting and cancelling a touch always have the same effect.
pub proof fn lemma_lifting_ends_drag(s: KeyboardState, id: i32, in_title_bar: bool)
    ensures
        s.drag_touch_id == Some(id) ==> spec_touch(s, TouchPhase::Ended, id, in_title_bar) == (
            KeyboardState { page: s.page, shifted: s.shifted, dragging: false, drag_touch_id: None },
            DragUpdate::Ended,
        ),
        spec_touch(s, TouchPhase::Ended, id, in_title_bar) == spec_touch(s, TouchPhase::Cancelled, id, in_title_bar),
{
}

/// Only the touch that started the drag moves or ends it: a touch with another
/// id leaves a dragging keyboard as it is and is passed on, unless it starts
/// in the title bar.
pub proof fn lemma_other_touches_ignored(s: KeyboardState, phase: TouchPhase, id: i32, in_title_bar: bool)
    requires
        s.drag_touch_id != Some(id),
        !(phase == TouchPhase::Started && in_title_bar),
    ensures
        spec_touch(s, phase, id, in_title_bar) == (s, DragUpdate::Ignored),
{
}

/// A touch that starts in the title bar starts a drag owned by that touch, and
/// while it is held, moving it moves the keyboard.
pub proof fn lemma_title_bar_touch_drags(s: KeyboardState, id: i32)
    ensures
        ({
            let (dragged, u) = spec_touch(s, TouchPhase::Started, id, true);
            &&& u == DragUpdate::Started
            &&& dragged.dragging && dragged.drag_touch_id == Some(id)
            &&& dragged.page == s.page && dragged.shifted == s.shifted
            &&& spec_touch(dragged, TouchPhase::Moved, id, false) == (dragged, DragUpdate::Moved)
        }),
{
}

} // verus!
