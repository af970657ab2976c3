use zfs_commander::content::ContentType;
use zfs_commander::dialog::Key;
use zfs_commander::engine::{key_f, menu_text, Engine, Operation, SessionAction};

fn owned(items: &[&str]) -> Vec<String> {
    items.iter().map(|s| s.to_string()).collect()
}

#[test]
fn new_session_panes() {
    let session = Engine::new();
    assert!(session.left.is_selected);
    assert!(!session.right.is_selected);
    assert!(matches!(session.left.content_type, ContentType::Datasets));
    assert!(matches!(session.right.content_type, ContentType::Snapshots));
}

#[test]
fn sideways_arrows_switch_the_focus() {
    let mut session = Engine::new();
    assert!(matches!(session.handle_keys(Key::Right), SessionAction::Stay));
    assert!(!session.left.is_selected);
    assert!(session.right.is_selected);
    assert!(matches!(session.handle_keys(Key::Left), SessionAction::Stay));
    assert!(session.left.is_selected);
}

#[test]
fn exit_key_terminates() {
    let mut session = Engine::new();
    assert!(matches!(session.handle_keys(Key::F(10)), SessionAction::Exit));
}

#[test]
fn vertical_keys_move_only_the_focused_pane() {
    let mut session = Engine::new();
    session.left.update(owned(&["a", "b", "c"]));
    session.right.update(owned(&["x", "y"]));
    session.handle_keys(Key::Down);
    session.handle_keys(Key::Down);
    assert_eq!(session.left.position, 2);
    assert_eq!(session.right.position, 0);
    session.handle_keys(Key::Up);
    assert_eq!(session.left.position, 1);
    session.handle_keys(Key::End);
    assert_eq!(session.left.position, 2);
    session.handle_keys(Key::Home);
    assert_eq!(session.left.position, 0);
    session.handle_keys(Key::PageDown);
    assert_eq!(session.left.position, 2);
}

#[test]
fn tab_cycles_the_focused_pane_category() {
    let mut session = Engine::new();
    session.left.update(owned(&["a"]));
    session.handle_keys(Key::Tab);
    assert!(matches!(session.left.content_type, ContentType::Volumes));
    assert!(session.left.list.is_empty());
    assert!(matches!(session.right.content_type, ContentType::Snapshots));
}

#[test]
fn unrecognized_keys_change_nothing() {
    let mut session = Engine::new();
    session.left.update(owned(&["a", "b"]));
    session.handle_keys(Key::Other);
    session.handle_keys(Key::Char('q'));
    assert_eq!(session.left.position, 0);
    assert!(session.left.is_selected);
    assert_eq!(session.left.list.len(), 2);
}

#[test]
fn function_key_yields_the_bound_operation_on_the_cursor_item() {
    let mut session = Engine::new();
    session.left.update(owned(&["tank/a", "tank/b"]));
    session.handle_keys(Key::Down);
    match session.handle_keys(Key::F(8)) {
        SessionAction::Run(Operation::Destroy, item) => assert_eq!(item, "tank/b"),
        _ => panic!("the destroy key must request the destroy operation"),
    }
}

#[test]
fn function_key_on_an_empty_list_is_ignored() {
    let mut session = Engine::new();
    assert!(matches!(session.handle_keys(Key::F(8)), SessionAction::Stay));
    assert!(matches!(session.handle_keys(Key::F(9)), SessionAction::Stay));
}

#[test]
fn help_needs_no_selection() {
    let mut session = Engine::new();
    match session.handle_keys(Key::F(1)) {
        SessionAction::Run(Operation::Help, item) => assert_eq!(item, ""),
        _ => panic!("help must be available on an empty list"),
    }
}

#[test]
fn unbound_function_keys_are_ignored() {
    let mut session = Engine::new();
    session.left.update(owned(&["tank"]));
    assert!(matches!(session.handle_keys(Key::F(4)), SessionAction::Stay));
    assert!(matches!(session.handle_keys(Key::F(11)), SessionAction::Stay));
    assert!(matches!(session.handle_keys(Key::F(12)), SessionAction::Stay));
}

#[test]
fn operation_table_per_category() {
    assert!(matches!(key_f(ContentType::Pools, 1), Some(Operation::Help)));
    assert!(key_f(ContentType::Pools, 2).is_none());
    assert!(key_f(ContentType::Pools, 5).is_none());
    assert!(key_f(ContentType::Pools, 6).is_none());
    assert!(matches!(key_f(ContentType::Pools, 7), Some(Operation::Scrub)));
    assert!(matches!(key_f(ContentType::Pools, 8), Some(Operation::Destroy)));
    assert!(matches!(key_f(ContentType::Pools, 9), Some(Operation::GetAll)));

    assert!(matches!(key_f(ContentType::Datasets, 2), Some(Operation::DatasetPromote)));
    assert!(key_f(ContentType::Datasets, 3).is_none());
    assert!(matches!(key_f(ContentType::Datasets, 5), Some(Operation::TakeSnapshot)));
    assert!(matches!(key_f(ContentType::Datasets, 6), Some(Operation::Rename)));
    assert!(matches!(key_f(ContentType::Datasets, 7), Some(Operation::CreateDataset)));

    assert!(key_f(ContentType::Volumes, 2).is_none());
    assert!(matches!(key_f(ContentType::Volumes, 5), Some(Operation::TakeSnapshot)));
    assert!(matches!(key_f(ContentType::Volumes, 7), Some(Operation::CreateVolume)));

    assert!(matches!(key_f(ContentType::Snapshots, 2), Some(Operation::SnapshotDiff)));
    assert!(matches!(key_f(ContentType::Snapshots, 3), Some(Operation::SnapshotSend)));
    assert!(matches!(key_f(ContentType::Snapshots, 5), Some(Operation::CloneSnapshot)));
    assert!(matches!(key_f(ContentType::Snapshots, 7), Some(Operation::Rollback)));
    assert!(matches!(key_f(ContentType::Snapshots, 8), Some(Operation::Destroy)));

    for category in [
        ContentType::Pools,
        ContentType::Datasets,
        ContentType::Volumes,
        ContentType::Snapshots,
    ] {
        assert!(key_f(category, 4).is_none());
        assert!(key_f(category, 11).is_none());
        assert!(key_f(category, 12).is_none());
    }
}

#[test]
fn menu_lines_name_the_bound_keys() {
    assert_eq!(
        menu_text(ContentType::Pools),
        " F1 Help  F2 ____  F3 ____  F4 ____  F5 ____  F6 ____  F7 Scrub  F8 Destroy  F9 Get all  F10 Exit"
    );
    assert_eq!(
        menu_text(ContentType::Snapshots),
        " F1 Help  F2 Diff  F3 Send  F4 ____  F5 Clone  F6 Rename  F7 Rollback  F8 Destroy  F9 Get all  F10 Exit"
    );
}
