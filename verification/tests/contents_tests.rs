use zfs_commander::contents::{
    dataset_create, dataset_destroy, dataset_get_all, dataset_list, dataset_promote,
    dataset_rename, dataset_set, dataset_snapshot, gather_for, pool_destroy, pool_get_all,
    pool_list, pool_scrub, pool_set, property_fields, snapshot_clone, snapshot_diff, snapshot_list,
    snapshot_rollback, snapshot_send, volume_create, volume_list, Gather,
};
use zfs_commander::dialog::{confirm_step, DialogResult, Key};
use zfs_commander::engine::Operation;

fn owned(items: &[&str]) -> Vec<String> {
    items.iter().map(|s| s.to_string()).collect()
}

#[test]
fn name_listing_plans() {
    let plan = pool_list();
    assert_eq!(plan.program, "zpool");
    assert_eq!(plan.args, owned(&["list", "-H", "-o", "name"]));
    assert_eq!(dataset_list().args, owned(&["list", "-H", "-o", "name", "-t", "filesystem"]));
    assert_eq!(volume_list().args, owned(&["list", "-H", "-o", "name", "-t", "volume"]));
    assert_eq!(snapshot_list().args, owned(&["list", "-H", "-o", "name", "-t", "snapshot"]));
}

#[test]
fn gather_seeds_per_operation() {
    assert!(matches!(gather_for(Operation::Help, "tank"), Gather::Immediate));
    assert!(matches!(gather_for(Operation::GetAll, "tank"), Gather::Immediate));
    assert!(matches!(gather_for(Operation::Destroy, "tank"), Gather::Confirm));
    assert!(matches!(gather_for(Operation::Scrub, "tank"), Gather::Confirm));
    assert!(matches!(gather_for(Operation::Rollback, "tank@s"), Gather::Confirm));
    assert!(matches!(gather_for(Operation::DatasetPromote, "tank/a"), Gather::Confirm));

    match gather_for(Operation::CreateDataset, "tank") {
        Gather::Single { seed } => assert_eq!(seed, "tank/"),
        _ => panic!("creating a dataset takes one input"),
    }
    match gather_for(Operation::TakeSnapshot, "tank/data") {
        Gather::Single { seed } => assert_eq!(seed, "tank/data@"),
        _ => panic!("taking a snapshot takes one input"),
    }
    match gather_for(Operation::Rename, "tank/data") {
        Gather::Single { seed } => assert_eq!(seed, "tank/data"),
        _ => panic!("renaming takes one input"),
    }
    match gather_for(Operation::CloneSnapshot, "tank@s") {
        Gather::Single { seed } => assert_eq!(seed, ""),
        _ => panic!("cloning takes one input"),
    }
    match gather_for(Operation::CreateVolume, "tank") {
        Gather::Dual { first_seed, second_seed } => {
            assert_eq!(first_seed, "tank");
            assert_eq!(second_seed, "1g");
        },
        _ => panic!("creating a volume takes two inputs"),
    }
    match gather_for(Operation::SnapshotSend, "tank@s") {
        Gather::Dual { first_seed, second_seed } => {
            assert_eq!(first_seed, "tank@s");
            assert_eq!(second_seed, "zfs recv pool/dataset");
        },
        _ => panic!("sending takes two inputs"),
    }
}

#[test]
fn cancelled_confirmation_runs_nothing() {
    let decision = confirm_step(Key::Escape);
    assert!(matches!(decision, DialogResult::Cancelled));
    assert!(pool_destroy("tank", &decision).is_none());
    assert!(pool_scrub("tank", &decision).is_none());
    assert!(dataset_destroy("tank/a", &decision).is_none());
    assert!(dataset_promote("tank/a", &decision).is_none());
    assert!(snapshot_rollback("tank@s", &decision).is_none());
}

#[test]
fn confirmed_operations_build_their_plans() {
    let decision = confirm_step(Key::Enter);
    let plan = pool_destroy("tank", &decision).unwrap();
    assert_eq!(plan.program, "zpool");
    assert_eq!(plan.args, owned(&["destroy", "tank"]));

    let plan = pool_scrub("tank", &decision).unwrap();
    assert_eq!(plan.args, owned(&["scrub", "tank"]));

    let plan = dataset_destroy("tank/a", &decision).unwrap();
    assert_eq!(plan.program, "zfs");
    assert_eq!(plan.args, owned(&["destroy", "tank/a"]));

    let plan = dataset_promote("tank/a", &decision).unwrap();
    assert_eq!(plan.args, owned(&["promote", "tank/a"]));

    let plan = snapshot_rollback("tank@s", &decision).unwrap();
    assert_eq!(plan.args, owned(&["rollback", "tank@s"]));
}

#[test]
fn input_operations_build_their_plans() {
    let plan = dataset_create(&DialogResult::Confirmed("tank/new".to_string())).unwrap();
    assert_eq!(plan.program, "zfs");
    assert_eq!(plan.args, owned(&["create", "tank/new"]));

    let plan = dataset_snapshot(&DialogResult::Confirmed("tank@s".to_string())).unwrap();
    assert_eq!(plan.args, owned(&["snapshot", "tank@s"]));

    let plan = dataset_rename("tank/old", &DialogResult::Confirmed("tank/new".to_string()))
        .unwrap();
    assert_eq!(plan.args, owned(&["rename", "tank/old", "tank/new"]));

    let plan = snapshot_clone("tank@s", &DialogResult::Confirmed("tank/copy".to_string()))
        .unwrap();
    assert_eq!(plan.args, owned(&["clone", "tank@s", "tank/copy"]));

    let plan = snapshot_diff("tank@a", &DialogResult::Confirmed("tank@b".to_string())).unwrap();
    assert_eq!(plan.args, owned(&["diff", "tank@a", "tank@b"]));

    let plan = volume_create(
        &DialogResult::Confirmed(("tank/vol".to_string(), "1g".to_string())),
    ).unwrap();
    assert_eq!(plan.args, owned(&["create", "-V", "1g", "tank/vol"]));
}

#[test]
fn empty_or_cancelled_input_runs_nothing() {
    assert!(dataset_create(&DialogResult::Confirmed("".to_string())).is_none());
    assert!(dataset_create(&DialogResult::Cancelled).is_none());
    assert!(dataset_snapshot(&DialogResult::Confirmed("".to_string())).is_none());
    assert!(dataset_rename("tank/a", &DialogResult::Cancelled).is_none());
    assert!(snapshot_clone("tank@s", &DialogResult::Confirmed("".to_string())).is_none());
    assert!(snapshot_diff("tank@s", &DialogResult::Cancelled).is_none());
    assert!(volume_create(&DialogResult::Confirmed(("".to_string(), "1g".to_string()))).is_none());
    assert!(volume_create(&DialogResult::Cancelled).is_none());
}

#[test]
fn send_plan_from_the_dual_input() {
    let input = DialogResult::Confirmed(
        ("tank@s".to_string(), "zfs recv backup/tank".to_string()),
    );
    let (send, recv) = snapshot_send(&input).unwrap();
    assert_eq!(send.program, "zfs");
    assert_eq!(send.args, owned(&["send", "tank@s"]));
    assert_eq!(recv.program, "zfs");
    assert_eq!(recv.args, owned(&["recv", "backup/tank"]));

    let empty_snapshot = DialogResult::Confirmed(("".to_string(), "zfs recv x".to_string()));
    assert!(snapshot_send(&empty_snapshot).is_none());
    let empty_stream = DialogResult::Confirmed(("tank@s".to_string(), " ".to_string()));
    assert!(snapshot_send(&empty_stream).is_none());
    assert!(snapshot_send(&DialogResult::Cancelled).is_none());
}

#[test]
fn get_all_plans() {
    let plan = pool_get_all("tank");
    assert_eq!(plan.program, "zpool");
    assert_eq!(plan.args, owned(&["get", "all", "tank"]));
    let plan = dataset_get_all("tank/data");
    assert_eq!(plan.program, "zfs");
    assert_eq!(plan.args, owned(&["get", "all", "tank/data"]));
}

#[test]
fn property_lines_split_into_three_fields() {
    let (name, property, value) = property_fields("tank  compression   lz4    local").unwrap();
    assert_eq!(name, "tank");
    assert_eq!(property, "compression");
    assert_eq!(value, "lz4");
    assert!(property_fields("tank compression").is_none());
    assert!(property_fields("").is_none());
}

#[test]
fn property_set_plans() {
    let plan = pool_set("tank", "compression", "lz4").unwrap();
    assert_eq!(plan.program, "zpool");
    assert_eq!(plan.args, owned(&["set", "compression=lz4", "tank"]));
    let plan = dataset_set("tank/data", "atime", "off").unwrap();
    assert_eq!(plan.program, "zfs");
    assert_eq!(plan.args, owned(&["set", "atime=off", "tank/data"]));
    assert!(pool_set("tank", "compression", "").is_none());
    assert!(dataset_set("tank/data", "atime", "").is_none());
}
