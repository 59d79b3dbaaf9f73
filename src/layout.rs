use vstd::prelude::*;

verus! {

/// The tallest the window grows before its list scrolls.
pub const MAX_WINDOW_HEIGHT: i32 = 1000;

/// How the window is sized for the height its content asks for.
#[derive(Clone, Copy, Debug, PartialEq, Eq, Structural)]
pub struct WindowFit {
    /// A fixed height, where the content is too tall.
    pub height_request: Option<i32>,
    /// Whether the window grows with its content.
    pub vexpand: bool,
    /// Whether the list always shows a vertical scroll bar.
    pub always_scroll: bool,
}

/// Caps the window at the tallest height and lets the list scroll beyond it;
/// below it the window grows with the content and shows no scroll bar.
pub fn resize_window(height: i32) -> (r: WindowFit)
    ensures
        height >= MAX_WINDOW_HEIGHT ==> r == (WindowFit {
            height_request: Some(MAX_WINDOW_HEIGHT),
            vexpand: false,
            always_scroll: true,
        }),
        height < MAX_WINDOW_HEIGHT ==> r == (WindowFit {
            height_request: None,
            vexpand: true,
            always_scroll: false,
        }),
{
    if height >= MAX_WINDOW_HEIGHT {
        WindowFit { height_request: Some(MAX_WINDOW_HEIGHT), vexpand: false, always_scroll: true }
    } else {
        WindowFit { height_request: None, vexpand: true, always_scroll: false }
    }
}

} // verus!
