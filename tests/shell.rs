use zed::{
    after_credentials_check, app_menus, auth_step, display_for_window, dock_menu,
    window_decorations, AuthStep, MenuAction, UiTextFieldStory, WindowDecorations,
};

#[test]
fn decorations_from_environment() {
    assert_eq!(window_decorations(Some("server")), WindowDecorations::Server);
    assert_eq!(window_decorations(Some("client")), WindowDecorations::Client);
    assert_eq!(window_decorations(Some("Server")), WindowDecorations::Client);
    assert_eq!(window_decorations(None), WindowDecorations::Client);
}

#[test]
fn display_lookup() {
    let ids = vec![Some(5u128), None, Some(9), Some(9)];
    assert_eq!(display_for_window(&ids, Some(9)), Some(2));
    assert_eq!(display_for_window(&ids, Some(4)), None);
    assert_eq!(display_for_window(&ids, None), None);
}

#[test]
fn sign_in_from_terminal() {
    assert_eq!(auth_step(true, true, true), AuthStep::Connect { try_provider: true });
    assert_eq!(auth_step(true, false, true), AuthStep::Connect { try_provider: false });
    assert_eq!(auth_step(true, false, false), AuthStep::Skip);
}

#[test]
fn sign_in_from_desktop() {
    assert_eq!(auth_step(false, true, true), AuthStep::CheckCredentials);
    assert_eq!(after_credentials_check(true), AuthStep::Connect { try_provider: true });
    assert_eq!(after_credentials_check(false), AuthStep::Skip);
}

#[test]
fn menu_bar() {
    let menus = app_menus();
    assert_eq!(menus.len(), 1);
    assert_eq!(menus[0].name, "Zed");
    assert_eq!(menus[0].items.len(), 2);
    assert_eq!(menus[0].items[0].label, "About Zed…");
    assert_eq!(menus[0].items[0].action, MenuAction::About);
    assert_eq!(menus[0].items[1].label, "Quit");
    assert_eq!(menus[0].items[1].action, MenuAction::Quit);
}

#[test]
fn dock_menu_has_new_window() {
    let items = dock_menu();
    assert_eq!(items.len(), 1);
    assert_eq!(items[0].label, "New Window");
    assert_eq!(items[0].action, MenuAction::NewWindow);
}

#[test]
fn text_field_story_has_no_state() {
    assert_eq!(UiTextFieldStory, UiTextFieldStory);
}
