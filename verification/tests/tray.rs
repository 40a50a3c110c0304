use missing_ctrl::tray::{
    context_menu_items, menu_command, message_loop_step, rollback, window_message_action,
    LoopStep, MenuCommand, SetupStep, WindowAction, MENU_EXIT, MENU_STARTUP, MF_CHECKED,
    MF_GRAYED, MF_SEPARATOR, MF_STRING, NIN_KEYSELECT, NIN_SELECT, TRAY_CALLBACK_MESSAGE,
    WM_CONTEXTMENU, WM_DESTROY,
};

fn wide(text: &str) -> Vec<u16> {
    text.encode_utf16().chain(Some(0)).collect()
}

const TASKBAR_CREATED: u32 = 0xC123;

#[test]
fn window_messages() {
    assert_eq!(window_message_action(TASKBAR_CREATED, 0, TASKBAR_CREATED), WindowAction::RestoreTrayIcon);
    assert_eq!(
        window_message_action(TRAY_CALLBACK_MESSAGE, WM_CONTEXTMENU as isize, TASKBAR_CREATED),
        WindowAction::ShowContextMenu
    );
    assert_eq!(
        window_message_action(TRAY_CALLBACK_MESSAGE, NIN_SELECT as isize, TASKBAR_CREATED),
        WindowAction::ShowContextMenu
    );
    assert_eq!(
        window_message_action(TRAY_CALLBACK_MESSAGE, NIN_KEYSELECT as isize, TASKBAR_CREATED),
        WindowAction::ShowContextMenu
    );
    // The icon id sits in the high word of lparam and is ignored.
    assert_eq!(
        window_message_action(TRAY_CALLBACK_MESSAGE, 0x0001_0400, TASKBAR_CREATED),
        WindowAction::ShowContextMenu
    );
    assert_eq!(window_message_action(TRAY_CALLBACK_MESSAGE, 0x200, TASKBAR_CREATED), WindowAction::Ignore);
    assert_eq!(window_message_action(WM_DESTROY, 0, TASKBAR_CREATED), WindowAction::Destroy);
    assert_eq!(window_message_action(0x0010, 0, TASKBAR_CREATED), WindowAction::Default);
    assert_eq!(TRAY_CALLBACK_MESSAGE, 0x8001);
}

#[test]
fn menu_entries() {
    let items = context_menu_items(Some(true));
    assert_eq!(items.len(), 3);
    assert_eq!(items[0].flags, MF_STRING | MF_CHECKED);
    assert_eq!(items[0].id, MENU_STARTUP);
    assert_eq!(items[0].label, Some(wide("Start with Windows")));
    assert_eq!(items[1].flags, MF_SEPARATOR);
    assert_eq!(items[1].id, 0);
    assert_eq!(items[1].label, None);
    assert_eq!(items[2].flags, MF_STRING);
    assert_eq!(items[2].id, MENU_EXIT);
    assert_eq!(items[2].label, Some(wide("Exit")));

    let items = context_menu_items(Some(false));
    assert_eq!(items[0].flags, MF_STRING);
    assert_eq!(items[0].label, Some(wide("Start with Windows")));

    let items = context_menu_items(None);
    assert_eq!(items[0].flags, MF_STRING | MF_GRAYED);
    assert_eq!(items[0].label, Some(wide("Start with Windows (unavailable)")));
    assert_eq!(MF_STRING | MF_CHECKED, 8);
    assert_eq!(MF_STRING | MF_GRAYED, 1);
}

#[test]
fn menu_commands() {
    assert_eq!(menu_command(MENU_STARTUP, Some(true)), MenuCommand::SetStartup(false));
    assert_eq!(menu_command(MENU_STARTUP, Some(false)), MenuCommand::SetStartup(true));
    assert_eq!(menu_command(MENU_STARTUP, None), MenuCommand::Nothing);
    assert_eq!(menu_command(MENU_EXIT, None), MenuCommand::Exit);
    assert_eq!(menu_command(0, Some(true)), MenuCommand::Nothing);
    assert_eq!(MENU_STARTUP, 1001);
    assert_eq!(MENU_EXIT, 1002);
}

#[test]
fn message_loop() {
    assert_eq!(message_loop_step(-1), LoopStep::Fail);
    assert_eq!(message_loop_step(0), LoopStep::Quit);
    assert_eq!(message_loop_step(1), LoopStep::Dispatch);
    assert_eq!(message_loop_step(-2), LoopStep::Dispatch);
}

#[test]
fn rollback_undoes_completed_steps_newest_first() {
    assert_eq!(rollback(SetupStep::CreateIcon, SetupStep::CreateIcon), vec![]);
    assert_eq!(rollback(SetupStep::CreateIcon, SetupStep::CreateWindow), vec![SetupStep::CreateIcon]);
    assert_eq!(
        rollback(SetupStep::CreateIcon, SetupStep::AddNotifyIcon),
        vec![SetupStep::CreateWindow, SetupStep::CreateIcon]
    );
    assert_eq!(
        rollback(SetupStep::AddNotifyIcon, SetupStep::SetNotifyVersion),
        vec![SetupStep::AddNotifyIcon]
    );
    assert_eq!(
        rollback(SetupStep::CreateIcon, SetupStep::SetNotifyVersion),
        vec![SetupStep::AddNotifyIcon, SetupStep::CreateWindow, SetupStep::CreateIcon]
    );
}
