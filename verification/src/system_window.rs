//! The host window that a surface presents to, as the engine sees it: two
//! handles and a title. Windows are made and destroyed by the embedding
//! program.
use vstd::prelude::*;

verus! {

/// Width of the window's client area, in pixels.
pub const DISPLAY_WIDTH: i32 = 1920;

/// Height of the window's client area, in pixels.
pub const DISPLAY_HEIGHT: i32 = 1080;

/// Left edge and top edge of a new window on the desktop.
pub const WINDOW_ORIGIN: i32 = 100;

/// A window of the host: the module instance that owns it, the window
/// itself, and its title. The pair of handles must stay valid for as long
/// as a surface is bound to it.
#[derive(Debug)]
pub struct WindowParameters {
    pub Hinstance: u64,
    pub Hwnd: u64,
    pub Title: String,
}

/// The rectangle of a window's client area on the desktop.
#[derive(Clone, Copy, Debug, PartialEq, Eq, Structural)]
pub struct WindowRect {
    pub left: i32,
    pub top: i32,
    pub right: i32,
    pub bottom: i32,
}

impl WindowParameters {
    /// Name of the window class of a window with the given title.
    pub open spec fn class_name_of(title: Seq<char>) -> Seq<char> {
        title + "_Window_Class"@
    }

    /// Name of the window class that a window with the given title is
    /// registered under.
    pub fn class_name(title: &str) -> (name: String)
        ensures
            name@ == Self::class_name_of(title@),
    {
        String::from_str(title).concat("_Window_Class")
    }

    /// The client rectangle that a new window is asked for: the display
    /// size, placed at the window origin.
    pub fn client_rect() -> (rect: WindowRect)
        ensures
            rect.left == WINDOW_ORIGIN,
            rect.top == WINDOW_ORIGIN,
            rect.right == WINDOW_ORIGIN + DISPLAY_WIDTH,
            rect.bottom == WINDOW_ORIGIN + DISPLAY_HEIGHT,
    {
        WindowRect {
            left: WINDOW_ORIGIN,
            top: WINDOW_ORIGIN,
            right: WINDOW_ORIGIN + DISPLAY_WIDTH,
            bottom: WINDOW_ORIGIN + DISPLAY_HEIGHT,
        }
    }

    /// The record of a window that the host made.
    pub fn new(window_title: String, h_instance: u64, h_wnd: u64) -> (window: Self)
        ensures
            window.Hinstance == h_instance,
            window.Hwnd == h_wnd,
            window.Title == window_title,
    {
        WindowParameters { Hinstance: h_instance, Hwnd: h_wnd, Title: window_title }
    }
}

} // verus!
