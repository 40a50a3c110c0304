use vstd::prelude::*;
use crate::wide::wide_string;

verus! {

/// The first message number free for an application's own use.
pub const WM_APP: u32 = 0x8000;

/// The message by which the tray icon reports mouse and keyboard events.
pub const TRAY_CALLBACK_MESSAGE: u32 = WM_APP + 1;

/// Identifier of the program's tray icon.
pub const TRAY_ICON_ID: u32 = 1;

/// The window is being destroyed.
pub const WM_DESTROY: u32 = 2;

/// A context menu was asked for.
pub const WM_CONTEXTMENU: u32 = 0x7B;

/// The tray icon was selected with the mouse.
pub const NIN_SELECT: u32 = 0x400;

/// The tray icon was selected with the keyboard.
pub const NIN_KEYSELECT: u32 = NIN_SELECT + 1;

/// Menu command of the start-up entry.
pub const MENU_STARTUP: usize = 1001;

/// Menu command of the exit entry.
pub const MENU_EXIT: usize = 1002;

/// Menu entry flag: a text entry.
pub const MF_STRING: u32 = 0x0;

/// Menu entry flag: shown greyed out, cannot be chosen.
pub const MF_GRAYED: u32 = 0x1;

/// Menu entry flag: shown with a check mark.
pub const MF_CHECKED: u32 = 0x8;

/// Menu entry flag: a separator line.
pub const MF_SEPARATOR: u32 = 0x800;

/// What the window procedure does with a message.
#[derive(Clone, Copy, Debug, PartialEq, Eq, Structural)]
pub enum WindowAction {
    /// The taskbar was re-created: add the tray icon again, answer 0.
    RestoreTrayIcon,
    /// The tray icon asked for its menu: show it, answer 0.
    ShowContextMenu,
    /// Another tray icon event: answer 0.
    Ignore,
    /// The window is going away: remove the tray icon, end the message
    /// loop, answer 0.
    Destroy,
    /// Leave the message to the default window procedure.
    Default,
}

/// The tray event that a tray callback message carries in its `lparam`.
pub open spec fn tray_event(lparam: isize) -> u32 {
    (lparam % 0x10000) as u32
}

/// What the window procedure does with `message`, `taskbar_created` being
/// the message number that announces a re-created taskbar.
pub open spec fn window_action(message: u32, lparam: isize, taskbar_created: u32) -> WindowAction {
    if message == taskbar_created {
        WindowAction::RestoreTrayIcon
    } else if message == TRAY_CALLBACK_MESSAGE {
        let event = tray_event(lparam);
        if event == WM_CONTEXTMENU || event == NIN_SELECT || event == NIN_KEYSELECT {
            WindowAction::ShowContextMenu
        } else {
            WindowAction::Ignore
        }
    } else if message == WM_DESTROY {
        WindowAction::Destroy
    } else {
        WindowAction::Default
    }
}

/// What the window procedure does with `message`, `taskbar_created` being
/// the message number that announces a re-created taskbar.
pub fn window_message_action(message: u32, lparam: isize, taskbar_created: u32) -> (action: WindowAction)
    ensures
        action == window_action(message, lparam, taskbar_created),
{
    if message == taskbar_created {
        return WindowAction::RestoreTrayIcon;
    }
    if message == TRAY_CALLBACK_MESSAGE {
        let event: u32 = (lparam as u32) & 0xffffu32;
        assert(((lparam as u32) & 0xffffu32) == (lparam % 0x10000) as u32) by (bit_vector);
        if event == WM_CONTEXTMENU || event == NIN_SELECT || event == NIN_KEYSELECT {
            WindowAction::ShowContextMenu
        } else {
            WindowAction::Ignore
        }
    } else if message == WM_DESTROY {
        WindowAction::Destroy
    } else {
        WindowAction::Default
    }
}

/// Which messages the window acts on: only the taskbar announcement
/// re-adds the icon, only WM_DESTROY tears the program down, only tray
/// callbacks carrying a select or context-menu event open the menu, other
/// tray callbacks are answered without action, and every other message
/// goes to the default window procedure.
pub proof fn lemma_window_dispatch(message: u32, lparam: isize, taskbar_created: u32)
    ensures
        window_action(message, lparam, taskbar_created) == WindowAction::RestoreTrayIcon
            <==> message == taskbar_created,
        window_action(message, lparam, taskbar_created) == WindowAction::Destroy <==> (message
            == WM_DESTROY && message != taskbar_created),
        window_action(message, lparam, taskbar_created) == WindowAction::ShowContextMenu <==> (
        message == TRAY_CALLBACK_MESSAGE && message != taskbar_created && (tray_event(lparam)
            == WM_CONTEXTMENU || tray_event(lparam) == NIN_SELECT || tray_event(lparam)
            == NIN_KEYSELECT)),
        window_action(message, lparam, taskbar_created) == WindowAction::Ignore ==> message
            == TRAY_CALLBACK_MESSAGE,
        message != taskbar_created && message != TRAY_CALLBACK_MESSAGE && message != WM_DESTROY
            ==> window_action(message, lparam, taskbar_created) == WindowAction::Default,
{
}

/// The tray event is the low 16 bits of `lparam`: the high word (the icon's
/// identifier) never changes it, and it is always below 0x10000.
pub proof fn lemma_tray_event_low_word(lparam: isize, high: isize)
    requires
        isize::MIN <= lparam + high * 0x10000 <= isize::MAX,
    ensures
        tray_event(lparam) < 0x10000,
        tray_event((lparam + high * 0x10000) as isize) == tray_event(lparam),
        0 <= lparam < 0x10000 ==> tray_event(lparam) == lparam,
{
    assert((lparam + high * 0x10000) % 0x10000 == lparam % 0x10000) by (nonlinear_arith);
}

/// One entry of the tray icon's context menu.
pub struct MenuItem {
    /// The entry's flags (`MF_*`).
    pub flags: u32,
    /// The command the entry returns when chosen (0 for a separator).
    pub id: usize,
    /// The entry's text, UTF-16 and zero-terminated; `None` for a separator.
    pub label: Option<Vec<u16>>,
}

/// The text of the start-up entry.
pub open spec fn startup_label(startup_enabled: Option<bool>) -> Seq<char> {
    match startup_enabled {
        None => "Start with Windows (unavailable)"@,
        Some(_) => "Start with Windows"@,
    }
}

/// The flags of the start-up entry: checked when start-up is enabled,
/// greyed when its state could not be read.
pub open spec fn startup_flags(startup_enabled: Option<bool>) -> u32 {
    match startup_enabled {
        Some(true) => MF_STRING | MF_CHECKED,
        Some(false) => MF_STRING,
        None => MF_STRING | MF_GRAYED,
    }
}

/// `item` has the given flags, command and text (`None`: no text).
pub open spec fn item_is(item: MenuItem, flags: u32, id: usize, text: Option<Seq<char>>) -> bool {
    &&& item.flags == flags
    &&& item.id == id
    &&& match (item.label, text) {
        (Some(label), Some(t)) => label@ == crate::wide::utf16_encode(t).push(0),
        (None, None) => true,
        _ => false,
    }
}

/// The entries of the tray icon's context menu, top to bottom: the
/// start-up switch, a separator, and Exit.
pub fn context_menu_items(startup_enabled: Option<bool>) -> (items: Vec<MenuItem>)
    ensures
        items@.len() == 3,
        item_is(items@[0], startup_flags(startup_enabled), MENU_STARTUP, Some(startup_label(startup_enabled))),
        item_is(items@[1], MF_SEPARATOR, 0, None),
        item_is(items@[2], MF_STRING, MENU_EXIT, Some("Exit"@)),
{
    let (flags, label) = match startup_enabled {
        Some(true) => (MF_STRING | MF_CHECKED, wide_string("Start with Windows")),
        Some(false) => (MF_STRING, wide_string("Start with Windows")),
        None => (MF_STRING | MF_GRAYED, wide_string("Start with Windows (unavailable)")),
    };
    let mut items: Vec<MenuItem> = Vec::new();
    items.push(MenuItem { flags, id: MENU_STARTUP, label: Some(label) });
    items.push(MenuItem { flags: MF_SEPARATOR, id: 0, label: None });
    items.push(MenuItem { flags: MF_STRING, id: MENU_EXIT, label: Some(wide_string("Exit")) });
    items
}

/// What choosing a context menu entry asks for.
#[derive(Clone, Copy, Debug, PartialEq, Eq, Structural)]
pub enum MenuCommand {
    /// Enable (`true`) or disable start at log-in.
    SetStartup(bool),
    /// Destroy the window, which ends the program.
    Exit,
    /// Nothing (the menu was dismissed, or the entry cannot act).
    Nothing,
}

/// What choosing the menu command `command` asks for, `startup_enabled`
/// being the start-up state shown in the menu.
pub open spec fn menu_action(command: usize, startup_enabled: Option<bool>) -> MenuCommand {
    if command == MENU_STARTUP {
        match startup_enabled {
            Some(enabled) => MenuCommand::SetStartup(!enabled),
            None => MenuCommand::Nothing,
        }
    } else if command == MENU_EXIT {
        MenuCommand::Exit
    } else {
        MenuCommand::Nothing
    }
}

/// What choosing the menu command `command` asks for, `startup_enabled`
/// being the start-up state shown in the menu.
pub fn menu_command(command: usize, startup_enabled: Option<bool>) -> (chosen: MenuCommand)
    ensures
        chosen == menu_action(command, startup_enabled),
{
    if command == MENU_STARTUP {
        match startup_enabled {
            Some(enabled) => MenuCommand::SetStartup(!enabled),
            None => MenuCommand::Nothing,
        }
    } else if command == MENU_EXIT {
        MenuCommand::Exit
    } else {
        MenuCommand::Nothing
    }
}

/// What each menu command does, whatever the start-up state: Exit always
/// exits; the start-up entry asks for the opposite of the state it showed,
/// and nothing when that state is unknown; any other command (such as 0, a
/// dismissed menu) does nothing.
pub proof fn lemma_menu_commands(command: usize, startup_enabled: Option<bool>)
    ensures
        menu_action(MENU_EXIT, startup_enabled) == MenuCommand::Exit,
        menu_action(command, startup_enabled) == MenuCommand::Exit <==> command == MENU_EXIT,
        forall|enabled: bool|
            menu_action(command, startup_enabled) == MenuCommand::SetStartup(enabled) <==> (command
                == MENU_STARTUP && startup_enabled == Some(!enabled)),
        command != MENU_STARTUP && command != MENU_EXIT ==> menu_action(command, startup_enabled)
            == MenuCommand::Nothing,
        startup_enabled is None ==> menu_action(MENU_STARTUP, startup_enabled)
            == MenuCommand::Nothing,
{
}

/// The start-up entry shows the state it toggles: checked exactly when
/// start-up is enabled, greyed exactly when its state is unknown.
pub proof fn lemma_startup_entry_flags(startup_enabled: Option<bool>)
    ensures
        startup_flags(startup_enabled) == (if startup_enabled == Some(true) { MF_CHECKED } else if startup_enabled is None { MF_GRAYED } else { MF_STRING }),
        startup_enabled is None <==> startup_label(startup_enabled) == "Start with Windows (unavailable)"@,
{
    assert(MF_STRING | MF_CHECKED == MF_CHECKED) by (bit_vector);
    assert(MF_STRING | MF_GRAYED == MF_GRAYED) by (bit_vector);
    if startup_enabled is Some {
        reveal_strlit("Start with Windows");
        reveal_strlit("Start with Windows (unavailable)");
        assert("Start with Windows"@.len() != "Start with Windows (unavailable)"@.len());
    }
}

/// What the message loop does after fetching a message.
#[derive(Clone, Copy, Debug, PartialEq, Eq, Structural)]
pub enum LoopStep {
    /// Fetching failed: stop with the system's error.
    Fail,
    /// The quit message arrived: stop successfully.
    Quit,
    /// Translate and dispatch the message, then fetch the next.
    Dispatch,
}

/// What the message loop does when fetching a message returned `result`.
pub open spec fn loop_step(result: i32) -> LoopStep {
    if result == -1 {
        LoopStep::Fail
    } else if result == 0 {
        LoopStep::Quit
    } else {
        LoopStep::Dispatch
    }
}

/// What the message loop does when fetching a message returned `result`.
pub fn message_loop_step(result: i32) -> (step: LoopStep)
    ensures
        step == loop_step(result),
{
    if result == -1 {
        LoopStep::Fail
    } else if result == 0 {
        LoopStep::Quit
    } else {
        LoopStep::Dispatch
    }
}

/// The message loop stops with an error only on -1, stops cleanly only on
/// 0 (the quit message), and dispatches every other result.
pub proof fn lemma_loop_steps(result: i32)
    ensures
        loop_step(result) == LoopStep::Fail <==> result == -1,
        loop_step(result) == LoopStep::Quit <==> result == 0,
        loop_step(result) == LoopStep::Dispatch <==> (result != -1 && result != 0),
{
}

/// The steps that set up the tray icon, in order.
#[derive(Clone, Copy, Debug, PartialEq, Eq, Structural)]
pub enum SetupStep {
    /// Create the icon image.
    CreateIcon,
    /// Create the hidden window that receives the icon's messages.
    CreateWindow,
    /// Add the icon to the notification area.
    AddNotifyIcon,
    /// Ask for the current notification behaviour.
    SetNotifyVersion,
}

/// Position of a step in the set-up order.
pub open spec fn step_index(step: SetupStep) -> int {
    match step {
        SetupStep::CreateIcon => 0,
        SetupStep::CreateWindow => 1,
        SetupStep::AddNotifyIcon => 2,
        SetupStep::SetNotifyVersion => 3,
    }
}

fn index_of(step: SetupStep) -> (index: usize)
    ensures
        index == step_index(step),
{
    match step {
        SetupStep::CreateIcon => 0,
        SetupStep::CreateWindow => 1,
        SetupStep::AddNotifyIcon => 2,
        SetupStep::SetNotifyVersion => 3,
    }
}

fn step_at(index: usize) -> (step: SetupStep)
    requires
        index < 4,
    ensures
        step_index(step) == index,
{
    if index == 0 {
        SetupStep::CreateIcon
    } else if index == 1 {
        SetupStep::CreateWindow
    } else if index == 2 {
        SetupStep::AddNotifyIcon
    } else {
        SetupStep::SetNotifyVersion
    }
}

/// The steps to undo when `failed` fails in a set-up that began with
/// `first`: every step from `first` on that completed, newest first.
pub fn rollback(first: SetupStep, failed: SetupStep) -> (undo: Vec<SetupStep>)
    requires
        step_index(first) <= step_index(failed),
    ensures
        undo@.len() == step_index(failed) - step_index(first),
        forall|i: int| 0 <= i < undo@.len() ==> step_index(#[trigger] undo@[i]) == step_index(failed) - 1 - i,
{
    let start = index_of(first);
    let mut next = index_of(failed);
    let mut undo: Vec<SetupStep> = Vec::new();
    while next > start
        invariant
            start == step_index(first),
            start <= next <= step_index(failed),
            step_index(failed) < 4,
            undo@.len() == step_index(failed) - next,
            forall|i: int| 0 <= i < undo@.len() ==> step_index(#[trigger] undo@[i]) == step_index(failed) - 1 - i,
        decreases next,
    {
        next = next - 1;
        undo.push(step_at(next));
    }
    undo
}

} // verus!
