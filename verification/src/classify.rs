//! Classification of raw OS events: key-hook events, foreground-window
//! class names, shell notifications, tray messages, and the routing of
//! window messages to the decision core.

use vstd::prelude::*;
use crate::decision::Event;

verus! {

/// Virtual key code of the left trigger key.
pub const VK_LWIN_CODE: u16 = 0x5B;

/// Virtual key code of the right trigger key.
pub const VK_RWIN_CODE: u16 = 0x5C;

/// Raw key-event codes carried by the low-level key hook.
pub const WM_KEYDOWN_CODE: usize = 0x100;

pub const WM_KEYUP_CODE: usize = 0x101;

pub const WM_SYSKEYDOWN_CODE: usize = 0x104;

pub const WM_SYSKEYUP_CODE: usize = 0x105;

/// Classification of one raw key-hook event: `Some(KeyDown)` or
/// `Some(KeyUp)` when the hook may act (`code >= 0`), the key is one of
/// the two trigger-key variants, and the event code marks a press or a
/// release; `None` for everything else, which must pass through untouched.
pub open spec fn key_event_spec(code: i32, vk: u16, wparam: usize) -> Option<Event> {
    if code >= 0 && (vk == VK_LWIN_CODE || vk == VK_RWIN_CODE) {
        if wparam == WM_KEYDOWN_CODE || wparam == WM_SYSKEYDOWN_CODE {
            Some(Event::KeyDown)
        } else if wparam == WM_KEYUP_CODE || wparam == WM_SYSKEYUP_CODE {
            Some(Event::KeyUp)
        } else {
            None
        }
    } else {
        None
    }
}

/// Classifies one raw key-hook event into a core event, or `None` when the
/// event is not the trigger key going down or up.
pub fn classify_key_event(code: i32, vk: u16, wparam: usize) -> (r: Option<Event>)
    ensures
        r == key_event_spec(code, vk, wparam),
{
    if code >= 0 && (vk == VK_LWIN_CODE || vk == VK_RWIN_CODE) {
        if wparam == WM_KEYDOWN_CODE || wparam == WM_SYSKEYDOWN_CODE {
            Some(Event::KeyDown)
        } else if wparam == WM_KEYUP_CODE || wparam == WM_SYSKEYUP_CODE {
            Some(Event::KeyUp)
        } else {
            None
        }
    } else {
        None
    }
}

/// Whether `s` is one of the window class names whose foreground presence
/// keeps the taskbar visible. The set is a fixed, case-sensitive contract
/// with the host shell.
pub open spec fn overlay_class_spec(s: Seq<char>) -> bool {
    ||| s == "Windows.UI.Core.CoreWindow"@
    ||| s == "Shell_TrayWnd"@
    ||| s == "Shell_SecondaryTrayWnd"@
    ||| s == "TopLevelWindowForOverflowXamlIsland"@
    ||| s == "XamlExplorerHostIslandWindow"@
}

/// Exact, case-sensitive string equality.
fn str_eq(a: &str, b: &str) -> (r: bool)
    ensures
        r == (a@ == b@),
{
    let oa: String = a.to_owned();
    let ob: String = b.to_owned();
    oa == ob
}

/// Whether the queried window class name keeps the taskbar visible.
pub fn is_overlay_class(name: &str) -> (r: bool)
    ensures
        r == overlay_class_spec(name@),
{
    str_eq(name, "Windows.UI.Core.CoreWindow")
        || str_eq(name, "Shell_TrayWnd")
        || str_eq(name, "Shell_SecondaryTrayWnd")
        || str_eq(name, "TopLevelWindowForOverflowXamlIsland")
        || str_eq(name, "XamlExplorerHostIslandWindow")
}

/// Shell notification code: a window was activated.
pub const HSHELL_WINDOWACTIVATED: u32 = 4;

/// Shell notification code: a full-screen ("rude") app was activated.
pub const HSHELL_RUDEAPPACTIVATED: u32 = 0x8004;

/// Whether a shell notification code reports a foreground-window
/// activation, the only codes on which the foreground is reclassified.
pub open spec fn shell_activation_spec(code: u32) -> bool {
    code == HSHELL_WINDOWACTIVATED || code == HSHELL_RUDEAPPACTIVATED
}

/// Whether `code` is a foreground-activation shell notification.
pub fn is_shell_activation(code: u32) -> (r: bool)
    ensures
        r == shell_activation_spec(code),
{
    code == HSHELL_WINDOWACTIVATED || code == HSHELL_RUDEAPPACTIVATED
}

/// The overlay classification a shell notification yields: `true` exactly
/// when the code reports an activation and the activated window's class
/// name was retrieved and is a recognized overlay class. A failed class
/// query (`None`) classifies as `false`: a window that cannot be
/// identified is never treated as a trigger.
pub open spec fn shell_event_spec(code: u32, class_name: Option<Seq<char>>) -> bool {
    shell_activation_spec(code) && match class_name {
        Some(s) => overlay_class_spec(s),
        None => false,
    }
}

/// Classifies one shell notification. `class_name` is the activated
/// window's queried class name, or `None` when the query failed.
pub fn handle_shell_message(code: u32, class_name: Option<&str>) -> (r: bool)
    ensures
        r == shell_event_spec(
            code,
            match class_name {
                Some(s) => Some(s@),
                None => None,
            },
        ),
{
    if is_shell_activation(code) {
        match class_name {
            Some(s) => is_overlay_class(s),
            None => false,
        }
    } else {
        false
    }
}

/// Message code posted to the main window by the tray icon.
pub const WM_TRAYICON: u32 = 0x400 + 1;

/// Menu command identifier of the tray menu's quit entry.
pub const IDM_QUIT: usize = 1001;

/// Mouse-event code for a right-button release, carried in the low word
/// of a tray message's `lparam`.
pub const WM_RBUTTONUP_CODE: isize = 0x205;

/// Whether a tray-icon message asks for the context menu: its low word is
/// a right-button release.
pub open spec fn tray_menu_spec(lparam: isize) -> bool {
    lparam & 0xFFFF == WM_RBUTTONUP_CODE
}

/// Whether the tray message `lparam` asks for the context menu.
pub fn handle_tray_message(lparam: isize) -> (r: bool)
    ensures
        r == tray_menu_spec(lparam),
{
    lparam & 0xFFFF == WM_RBUTTONUP_CODE
}

/// Message code posted by the key hook for a trigger-key press.
pub const WM_WINKEY_DOWN: u32 = 0x400 + 100;

/// Message code posted by the key hook for a trigger-key release.
pub const WM_WINKEY_UP: u32 = 0x400 + 101;

/// Window message code of a menu command.
pub const WM_COMMAND_CODE: u32 = 0x111;

/// Window message code of a timer expiry.
pub const WM_TIMER_CODE: u32 = 0x113;

/// Window message code sent when the window is being destroyed.
pub const WM_DESTROY_CODE: u32 = 2;

/// Identifier of the single debounce timer.
pub const TIMER_ID_HIDE_TASKBAR: usize = 1;

/// What the main window must do with one incoming message.
#[derive(Clone, Copy, PartialEq, Eq, Debug)]
pub enum Route {
    /// Show the tray context menu.
    TrayMenu,
    /// Quit was chosen from the tray menu: shut down.
    Quit,
    /// Deliver `Event::KeyDown` to the decision core.
    WinKeyDown,
    /// Deliver `Event::KeyUp` to the decision core.
    WinKeyUp,
    /// The debounce timer fired: kill it and deliver `Event::TimerExpired`.
    HideTimer,
    /// A timer other than the debounce timer fired: consume, do nothing.
    OtherTimer,
    /// A shell notification arrived: reclassify the foreground window and
    /// deliver `Event::OverlayChanged` to the decision core.
    ShellEvent,
    /// The shell was restarted: re-run taskbar initialization and re-add
    /// the tray icon.
    TaskbarCreated,
    /// The window is being destroyed: end the message loop.
    Destroy,
    /// Not ours: hand the message to the default window procedure.
    Unhandled,
}

/// Where one window message goes. `shell_hook_msg` and
/// `taskbar_created_msg` are the two codes the process registered at
/// startup (0 when registration failed, which disables their arms). The
/// arms are tried in the order the main window tries them.
pub open spec fn route_spec(
    msg: u32,
    wparam: usize,
    lparam: isize,
    shell_hook_msg: u32,
    taskbar_created_msg: u32,
) -> Route {
    if msg == WM_TRAYICON {
        if tray_menu_spec(lparam) {
            Route::TrayMenu
        } else {
            Route::Unhandled
        }
    } else if msg == WM_COMMAND_CODE {
        if wparam == IDM_QUIT {
            Route::Quit
        } else {
            Route::Unhandled
        }
    } else if msg == WM_WINKEY_DOWN {
        Route::WinKeyDown
    } else if msg == WM_WINKEY_UP {
        Route::WinKeyUp
    } else if msg == WM_TIMER_CODE {
        if wparam == TIMER_ID_HIDE_TASKBAR {
            Route::HideTimer
        } else {
            Route::OtherTimer
        }
    } else if shell_hook_msg != 0 && msg == shell_hook_msg {
        Route::ShellEvent
    } else if taskbar_created_msg != 0 && msg == taskbar_created_msg {
        Route::TaskbarCreated
    } else if msg == WM_DESTROY_CODE {
        Route::Destroy
    } else {
        Route::Unhandled
    }
}

/// Routes one window message to the action the main window must take.
pub fn route_message(
    msg: u32,
    wparam: usize,
    lparam: isize,
    shell_hook_msg: u32,
    taskbar_created_msg: u32,
) -> (r: Route)
    ensures
        r == route_spec(msg, wparam, lparam, shell_hook_msg, taskbar_created_msg),
{
    if msg == WM_TRAYICON {
        if handle_tray_message(lparam) {
            Route::TrayMenu
        } else {
            Route::Unhandled
        }
    } else if msg == WM_COMMAND_CODE {
        if wparam == IDM_QUIT {
            Route::Quit
        } else {
            Route::Unhandled
        }
    } else if msg == WM_WINKEY_DOWN {
        Route::WinKeyDown
    } else if msg == WM_WINKEY_UP {
        Route::WinKeyUp
    } else if msg == WM_TIMER_CODE {
        if wparam == TIMER_ID_HIDE_TASKBAR {
            Route::HideTimer
        } else {
            Route::OtherTimer
        }
    } else if shell_hook_msg != 0 && msg == shell_hook_msg {
        Route::ShellEvent
    } else if taskbar_created_msg != 0 && msg == taskbar_created_msg {
        Route::TaskbarCreated
    } else if msg == WM_DESTROY_CODE {
        Route::Destroy
    } else {
        Route::Unhandled
    }
}

} // verus!
