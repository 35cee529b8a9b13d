use wups::config::{
    OpenStep,
    Attachable,
    callback_status, close, range_changed, select_changed, toggle_changed, ConfigNode, Label, Menu,
    MenuRoot, MenuUI, Range, Select, Toggle, CALLBACK_ERROR, CALLBACK_SUCCESS,
};
use wups::error::{MenuError, StorageError};
use wups::item_store::ItemStore;
use wups::storage::{load, reload, store};

fn toggle_value(node: &ConfigNode) -> bool {
    match node {
        ConfigNode::Toggle(_, v) => *v,
        _ => panic!("not a toggle"),
    }
}

fn range_value(node: &ConfigNode) -> i32 {
    match node {
        ConfigNode::Range(_, v) => *v,
        _ => panic!("not a range"),
    }
}

fn select_value(node: &ConfigNode) -> u32 {
    match node {
        ConfigNode::Select(_, v) => *v,
        _ => panic!("not a select"),
    }
}

fn my_toggle() -> Toggle {
    Toggle::new("Toggle", "my_toggle_id", true, "On", "Off")
}

#[test]
fn toggle_first_attach_stores_default() {
    let mut s = ItemStore::new();
    let node = my_toggle().attach(&mut s).unwrap();
    assert!(toggle_value(&node));
    assert_eq!(load::<bool>(&s, "my_toggle_id").unwrap(), true);
}

#[test]
fn toggle_change_then_reattach_shows_new_value() {
    let mut s = ItemStore::new();
    let _ = my_toggle().attach(&mut s).unwrap();
    toggle_changed(&mut s, "my_toggle_id", false);
    assert_eq!(load::<bool>(&s, "my_toggle_id").unwrap(), false);
    let node = my_toggle().attach(&mut s).unwrap();
    assert!(!toggle_value(&node));
    if let ConfigNode::Toggle(t, _) = node {
        assert_eq!(t.text, "Toggle");
        assert_eq!(t.id, "my_toggle_id");
        assert!(t.default);
        assert_eq!(t.true_value, "On");
        assert_eq!(t.false_value, "Off");
    }
}

#[test]
fn toggle_with_other_stored_type_fails() {
    let mut s = ItemStore::new();
    store::<i32>(&mut s, "my_toggle_id", 1).unwrap();
    let r = my_toggle().attach(&mut s);
    assert!(matches!(r, Err(MenuError::Storage(StorageError::UnexpectedDataType))));
    assert_eq!(load::<i32>(&s, "my_toggle_id").unwrap(), 1);
}

#[test]
fn toggle_with_null_byte_fails() {
    let mut s = ItemStore::new();
    let t = Toggle::new("Toggle", "id", true, "O\0n", "Off");
    assert!(matches!(t.attach(&mut s), Err(MenuError::InternalNullByte)));
    assert_eq!(load::<bool>(&s, "id"), Err(StorageError::NotFound));
}

#[test]
fn range_first_attach_stores_default() {
    let mut s = ItemStore::new();
    let node = Range::new("Range", "my_range_id", 0, -5, 5).attach(&mut s).unwrap();
    assert_eq!(range_value(&node), 0);
    assert_eq!(load::<i32>(&s, "my_range_id").unwrap(), 0);
    range_changed(&mut s, "my_range_id", 1);
    let node = Range::new("Range", "my_range_id", 0, -5, 5).attach(&mut s).unwrap();
    assert_eq!(range_value(&node), 1);
}

#[test]
fn range_out_of_bounds_shows_default() {
    let mut s = ItemStore::new();
    store::<i32>(&mut s, "r", 9).unwrap();
    let node = Range::new("Range", "r", 2, -5, 5).attach(&mut s).unwrap();
    assert_eq!(range_value(&node), 2);
    assert_eq!(load::<i32>(&s, "r").unwrap(), 9);
    store::<i32>(&mut s, "r", -6).unwrap();
    let node = Range::new("Range", "r", 2, -5, 5).attach(&mut s).unwrap();
    assert_eq!(range_value(&node), 2);
}

#[test]
fn range_bounds_are_inclusive() {
    let mut s = ItemStore::new();
    store::<i32>(&mut s, "r", 5).unwrap();
    let node = Range::new("Range", "r", 0, -5, 5).attach(&mut s).unwrap();
    assert_eq!(range_value(&node), 5);
    store::<i32>(&mut s, "r", -5).unwrap();
    let node = Range::new("Range", "r", 0, -5, 5).attach(&mut s).unwrap();
    assert_eq!(range_value(&node), -5);
}

#[test]
fn select_first_attach_stores_default() {
    let mut s = ItemStore::new();
    let node = Select::new("Select", "my_select_id", 0, vec!["A", "B", "C"]).attach(&mut s).unwrap();
    assert_eq!(select_value(&node), 0);
    assert_eq!(load::<u32>(&s, "my_select_id").unwrap(), 0);
    select_changed(&mut s, "my_select_id", 2);
    let node = Select::new("Select", "my_select_id", 0, vec!["A", "B", "C"]).attach(&mut s).unwrap();
    assert_eq!(select_value(&node), 2);
    if let ConfigNode::Select(sel, _) = node {
        assert_eq!(sel.options, vec!["A".to_string(), "B".to_string(), "C".to_string()]);
    }
}

#[test]
fn select_index_past_options_shows_default() {
    let mut s = ItemStore::new();
    store::<u32>(&mut s, "sel", 3).unwrap();
    let node = Select::new("Select", "sel", 1, vec!["A", "B", "C"]).attach(&mut s).unwrap();
    assert_eq!(select_value(&node), 1);
    assert_eq!(load::<u32>(&s, "sel").unwrap(), 3);
}

#[test]
fn select_stored_zero_is_kept() {
    let mut s = ItemStore::new();
    store::<u32>(&mut s, "sel", 0).unwrap();
    let node = Select::new("Select", "sel", 1, vec!["A", "B"]).attach(&mut s).unwrap();
    assert_eq!(select_value(&node), 0);
}

#[test]
fn select_option_with_null_byte_fails() {
    let mut s = ItemStore::new();
    let sel = Select::new("Select", "sel", 0, vec!["A", "B\0"]);
    assert!(matches!(sel.attach(&mut s), Err(MenuError::InternalNullByte)));
}

#[test]
fn label_and_menu_tree() {
    let mut s = ItemStore::new();
    let mut sub = Menu::new("Menu 1").unwrap();
    assert_eq!(sub.text(), "Menu 1");
    sub.push(Label::new("Label 1").attach().unwrap());
    sub.push(Label::new("Label 2").attach().unwrap());
    sub.push(my_toggle().attach(&mut s).unwrap());
    let mut root = MenuRoot::new();
    root.push(Label::new("Label").attach().unwrap());
    root.push(sub.attach());
    assert_eq!(root.items.len(), 2);
    match &root.items[1] {
        ConfigNode::Category(m) => {
            assert_eq!(m.text, "Menu 1");
            assert_eq!(m.items.len(), 3);
        }
        _ => panic!("expected a category"),
    }
}

#[test]
fn null_bytes_in_label_or_menu_fail() {
    assert!(matches!(Label::new("a\0").attach(), Err(MenuError::InternalNullByte)));
    assert!(matches!(Menu::new("a\0"), Err(MenuError::InternalNullByte)));
}

#[test]
fn menu_ui_needs_category_root() {
    let none: Option<MenuUI> = None;
    let root = Menu::new("Plugin").unwrap().attach();
    let ui = MenuUI::new(&none, root).unwrap();
    assert_eq!(ui.root.text, "Plugin");
    let label = Label::new("x").attach().unwrap();
    assert!(matches!(MenuUI::new(&none, label), Err(MenuError::MustContainRoot)));
}

#[test]
fn menu_ui_registers_once() {
    let mut registered: Option<MenuUI> = None;
    let ui = MenuUI::new(&registered, Menu::new("Plugin").unwrap().attach()).unwrap();
    let failed = MenuUI::new(&registered, Menu::new("Plugin").unwrap().attach()).unwrap();
    assert_eq!(MenuUI::commit(&mut registered, failed, -0x84), Err(MenuError::LibUninitialized));
    assert!(registered.is_none());
    assert_eq!(MenuUI::commit(&mut registered, ui, 0), Ok(()));
    assert!(registered.is_some());
    let again = Menu::new("Other").unwrap().attach();
    assert!(matches!(MenuUI::new(&registered, again), Err(MenuError::AlreadyInitialized)));
    let other = MenuUI { root: Menu::new("Other").unwrap() };
    assert_eq!(MenuUI::commit(&mut registered, other, 0), Err(MenuError::AlreadyInitialized));
    assert_eq!(registered.unwrap().root.text, "Plugin");
}

#[test]
fn menu_ui_open_steps() {
    let mut s = ItemStore::new();
    let mut m = Menu::new("Plugin").unwrap();
    m.push(Label::new("a").attach().unwrap());
    m.push(my_toggle().attach(&mut s).unwrap());
    let ui = MenuUI::new(&None, m.attach()).unwrap();
    assert_eq!(ui.open_step(0, 0), OpenStep::Attach(0));
    assert_eq!(ui.open_step(1, 0), OpenStep::Attach(1));
    assert_eq!(ui.open_step(2, 0), OpenStep::Finish(CALLBACK_SUCCESS));
    assert_eq!(ui.open_step(1, -1), OpenStep::Finish(CALLBACK_ERROR));
}

#[test]
fn open_callback_status() {
    assert_eq!(callback_status(&Ok(())), CALLBACK_SUCCESS);
    assert_eq!(callback_status(&Err(MenuError::NotFound)), CALLBACK_ERROR);
    assert_eq!(CALLBACK_SUCCESS, 0);
    assert_eq!(CALLBACK_ERROR, -1);
}

#[test]
fn close_saves_pending_writes() {
    let mut s = ItemStore::new();
    let _ = my_toggle().attach(&mut s).unwrap();
    close(&mut s).unwrap();
    toggle_changed(&mut s, "my_toggle_id", false);
    reload(&mut s).unwrap();
    assert_eq!(load::<bool>(&s, "my_toggle_id").unwrap(), true);
}

#[test]
fn change_callback_swallows_errors() {
    let mut s = ItemStore::new();
    toggle_changed(&mut s, "bad\0id", true);
    assert_eq!(load::<bool>(&s, "bad"), Err(StorageError::NotFound));
}

#[test]
fn attachable_add_attaches_items() {
    let mut s = ItemStore::new();
    let mut root = MenuRoot::new();
    root.add(Label::new("Label"), &mut s).unwrap();
    let mut sub = Menu::new("Sub").unwrap();
    sub.add(Range::new("Range", "r", 3, 0, 10), &mut s).unwrap();
    root.add(sub, &mut s).unwrap();
    assert!(matches!(root.add(Label::new("bad\0"), &mut s), Err(MenuError::InternalNullByte)));
    assert_eq!(root.items.len(), 2);
    assert_eq!(load::<i32>(&s, "r").unwrap(), 3);
}

#[test]
fn attachable_add_reports_item_error() {
    let mut s = ItemStore::new();
    store::<i32>(&mut s, "t", 1).unwrap();
    let mut m = Menu::new("Sub").unwrap();
    let r = m.add(Toggle::new("T", "t", true, "On", "Off"), &mut s);
    assert_eq!(r, Err(MenuError::Storage(StorageError::UnexpectedDataType)));
    assert_eq!(m.items.len(), 0);
    assert_eq!(m.text, "Sub");
    m.add(Toggle::new("T", "t2", true, "On", "Off"), &mut s).unwrap();
    assert!(toggle_value(&m.items[0]));
}
