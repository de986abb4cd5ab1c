use vstd::prelude::*;

verus! {

/// How the window holds the mouse cursor.
#[derive(Clone, Copy, Debug, PartialEq, Eq, Structural)]
pub enum CursorGrab {
    /// The cursor moves freely and may leave the window.
    Free,
    /// The cursor is held in place inside the window.
    Locked,
}

/// The cursor settings that the window is given.
#[derive(Clone, Copy, Debug, PartialEq, Eq, Structural)]
pub struct CursorSettings {
    pub visible: bool,
    pub grab: CursorGrab,
}

/// Cursor while the camera is being dragged: hidden and locked.
pub open spec fn dragging_cursor() -> CursorSettings {
    CursorSettings { visible: false, grab: CursorGrab::Locked }
}

/// Cursor while the camera is left alone: shown and free.
pub open spec fn released_cursor() -> CursorSettings {
    CursorSettings { visible: true, grab: CursorGrab::Free }
}

/// Starts and stops dragging the camera: the left mouse button starts a
/// drag, and releasing it or pressing Escape ends one.
///
/// A press of the left button in this frame starts a drag and asks for a
/// hidden, locked cursor; a release of it, or a press of Escape, in this
/// frame ends the drag and asks for a shown, free cursor.  Ending is handled
/// after starting, so when both come in one frame the drag ends.  In a frame
/// with none of these, nothing changes and the window is left as it is
/// (`None`).
pub fn grab_mouse(
    moving_camera: &mut bool,
    just_pressed: bool,
    just_released: bool,
    escape_pressed: bool,
) -> (cursor: Option<CursorSettings>)
    ensures
        *final(moving_camera) == if just_released || escape_pressed {
            false
        } else if just_pressed {
            true
        } else {
            *old(moving_camera)
        },
        cursor == if just_released || escape_pressed {
            Some(released_cursor())
        } else if just_pressed {
            Some(dragging_cursor())
        } else {
            None::<CursorSettings>
        },
{
    let mut cursor: Option<CursorSettings> = None;
    if just_pressed {
        *moving_camera = true;
        cursor = Some(CursorSettings { visible: false, grab: CursorGrab::Locked });
    }
    if just_released || escape_pressed {
        *moving_camera = false;
        cursor = Some(CursorSettings { visible: true, grab: CursorGrab::Free });
    }
    cursor
}

/// The value left behind by a frame's events when each event overwrites
/// it in turn: the last event, or `current` when the frame had none.
pub fn latest_or<T: Copy>(events: &Vec<T>, current: T) -> (r: T)
    ensures
        r == if events@.len() == 0 {
            current
        } else {
            events@.last()
        },
{
    if events.len() == 0 {
        current
    } else {
        events[events.len() - 1]
    }
}

} // verus!
