use vstd::prelude::*;
use vstd::string::*;

verus! {

/// The action that a menu item dispatches.
#[derive(Clone, Copy, Debug, PartialEq, Eq, Structural)]
pub enum MenuAction {
    About,
    Quit,
    NewWindow,
}

/// An entry of a menu.
#[derive(Debug)]
pub struct MenuItem {
    pub label: String,
    pub action: MenuAction,
}

/// A menu of the application's menu bar.
#[derive(Debug)]
pub struct Menu {
    pub name: String,
    pub items: Vec<MenuItem>,
}

/// Whether `item` shows `label` and dispatches `action`.
pub open spec fn item_is(item: MenuItem, label: Seq<char>, action: MenuAction) -> bool {
    item.label@ == label && item.action == action
}

fn menu_item(label: &str, action: MenuAction) -> (r: MenuItem)
    ensures
        item_is(r, label@, action),
{
    MenuItem { label: String::from_str(label), action }
}

/// The application's menu bar: one menu, "Zed", with "About Zed…" and
/// "Quit".
pub fn app_menus() -> (r: Vec<Menu>)
    ensures
        r@.len() == 1,
        r@[0].name@ == "Zed"@,
        r@[0].items@.len() == 2,
        item_is(r@[0].items@[0], "About Zed…"@, MenuAction::About),
        item_is(r@[0].items@[1], "Quit"@, MenuAction::Quit),
{
    let mut items: Vec<MenuItem> = Vec::new();
    items.push(menu_item("About Zed…", MenuAction::About));
    items.push(menu_item("Quit", MenuAction::Quit));
    let mut menus: Vec<Menu> = Vec::new();
    menus.push(Menu { name: String::from_str("Zed"), items });
    menus
}

/// The menu of the application's dock icon: "New Window".
pub fn dock_menu() -> (r: Vec<MenuItem>)
    ensures
        r@.len() == 1,
        item_is(r@[0], "New Window"@, MenuAction::NewWindow),
{
    let mut items: Vec<MenuItem> = Vec::new();
    items.push(menu_item("New Window", MenuAction::NewWindow));
    items
}

} // verus!
