use zfs_commander::command::{
    list, list_dataset, list_pools, list_snapshots, list_volumes, parse_entry, parse_listing,
    split_tokens, surface_outcome, volume_create, zfs_clone, zfs_create, zfs_destroy, zfs_diff,
    zfs_get_all, zfs_rename, zfs_rollback, zfs_send, zfs_snapshot, zpool_destroy, zpool_get_all,
    zpool_scrub, CommandOutcome,
};

fn owned(items: &[&str]) -> Vec<String> {
    items.iter().map(|s| s.to_string()).collect()
}

#[test]
fn listing_line_splits_into_name_and_auxiliary() {
    let entry = parse_entry("tank/data 128K");
    assert_eq!(entry.name, "tank/data");
    assert_eq!(entry.used, "128K");
}

#[test]
fn listing_line_with_tab_separator() {
    let entry = parse_entry("tank/data\t128K\t1.2G");
    assert_eq!(entry.name, "tank/data");
    assert_eq!(entry.used, "128K");
}

#[test]
fn listing_line_with_missing_fields() {
    let entry = parse_entry("tank");
    assert_eq!(entry.name, "tank");
    assert_eq!(entry.used, "");
    let entry = parse_entry("");
    assert_eq!(entry.name, "");
    assert_eq!(entry.used, "");
    let entry = parse_entry("   ");
    assert_eq!(entry.name, "");
    assert_eq!(entry.used, "");
}

#[test]
fn output_splits_into_lines_trimming_one_trailing_separator() {
    assert_eq!(list("a\nb\n"), owned(&["a", "b"]));
    assert_eq!(list("a\nb"), owned(&["a", "b"]));
    assert_eq!(list(""), Vec::<String>::new());
    assert_eq!(list("\n"), owned(&[""]));
    assert_eq!(list("a\n\n"), owned(&["a", ""]));
    assert_eq!(list("\n\n"), owned(&["", ""]));
}

#[test]
fn line_split_round_trip_loses_exactly_one_trailing_separator() {
    let with_final_newline = "tank 1G\ntank/data 128K\n";
    assert_eq!(list(with_final_newline).join("\n"), "tank 1G\ntank/data 128K");
    let without_final_newline = "tank 1G\ntank/data 128K";
    assert_eq!(list(without_final_newline).join("\n"), without_final_newline);
    let two_blank_tail = "tank 1G\n\n";
    assert_eq!(list(two_blank_tail).join("\n"), "tank 1G\n");
}

#[test]
fn listing_output_parses_per_line() {
    let entries = parse_listing("tank 1G\ntank/data 128K\n");
    assert_eq!(entries.len(), 2);
    assert_eq!(entries[0].name, "tank");
    assert_eq!(entries[0].used, "1G");
    assert_eq!(entries[1].name, "tank/data");
    assert_eq!(entries[1].used, "128K");
}

#[test]
fn tokens_split_on_any_whitespace_run() {
    assert_eq!(split_tokens("zfs recv  pool/dataset"), owned(&["zfs", "recv", "pool/dataset"]));
    assert_eq!(split_tokens("  one "), owned(&["one"]));
    assert_eq!(split_tokens(""), Vec::<String>::new());
    assert_eq!(split_tokens(" \t "), Vec::<String>::new());
}

#[test]
fn listing_plans() {
    let plan = list_pools();
    assert_eq!(plan.program, "zpool");
    assert_eq!(plan.args, owned(&["list", "-o", "name,size", "-H"]));
    let plan = list_dataset();
    assert_eq!(plan.program, "zfs");
    assert_eq!(plan.args, owned(&["list", "-H", "-o", "name,used", "-t", "filesystem"]));
    let plan = list_volumes();
    assert_eq!(plan.args, owned(&["list", "-H", "-o", "name,used", "-t", "volume"]));
    let plan = list_snapshots();
    assert_eq!(plan.args, owned(&["list", "-H", "-o", "name,used", "-t", "snapshot"]));
}

#[test]
fn single_target_plans() {
    let plan = zfs_create("tank/new".to_string());
    assert_eq!(plan.program, "zfs");
    assert_eq!(plan.args, owned(&["create", "tank/new"]));

    let plan = volume_create("tank/vol".to_string(), "1g".to_string());
    assert_eq!(plan.args, owned(&["create", "-V", "1g", "tank/vol"]));

    let plan = zfs_rename("tank/old".to_string(), "tank/new".to_string());
    assert_eq!(plan.args, owned(&["rename", "tank/old", "tank/new"]));

    let plan = zfs_clone("tank@snap".to_string(), "tank/copy".to_string());
    assert_eq!(plan.args, owned(&["clone", "tank@snap", "tank/copy"]));

    let plan = zfs_snapshot("tank@snap".to_string());
    assert_eq!(plan.args, owned(&["snapshot", "tank@snap"]));

    let plan = zfs_diff("tank@a".to_string(), "tank@b".to_string());
    assert_eq!(plan.args, owned(&["diff", "tank@a", "tank@b"]));

    let plan = zpool_get_all("tank".to_string());
    assert_eq!(plan.program, "zpool");
    assert_eq!(plan.args, owned(&["get", "all", "tank"]));

    let plan = zfs_get_all("tank/data".to_string());
    assert_eq!(plan.program, "zfs");
    assert_eq!(plan.args, owned(&["get", "all", "tank/data"]));
}

#[test]
fn per_element_plans() {
    let plans = zfs_destroy(owned(&["tank/a", "tank/b"]));
    assert_eq!(plans.len(), 2);
    assert_eq!(plans[0].program, "zfs");
    assert_eq!(plans[0].args, owned(&["destroy", "tank/a"]));
    assert_eq!(plans[1].args, owned(&["destroy", "tank/b"]));

    let plans = zfs_rollback(owned(&["tank@snap"]));
    assert_eq!(plans[0].args, owned(&["rollback", "-rf", "tank@snap"]));

    let plans = zpool_destroy(owned(&["tank"]));
    assert_eq!(plans[0].program, "zpool");
    assert_eq!(plans[0].args, owned(&["destroy", "tank"]));

    let plans = zpool_scrub(owned(&["tank"]));
    assert_eq!(plans[0].args, owned(&["scrub", "tank"]));

    assert!(zfs_destroy(Vec::new()).is_empty());
}

#[test]
fn send_pipe_plan_splits_the_receiving_command_line() {
    let plan = zfs_send("tank@snap".to_string(), "zfs recv pool/dataset".to_string());
    let (send, recv) = plan.expect("a receiving command line with tokens must yield a plan");
    assert_eq!(send.program, "zfs");
    assert_eq!(send.args, owned(&["send", "tank@snap"]));
    assert_eq!(recv.program, "zfs");
    assert_eq!(recv.args, owned(&["recv", "pool/dataset"]));
}

#[test]
fn send_pipe_plan_single_token_receiver() {
    let plan = zfs_send("tank@snap".to_string(), "cat".to_string());
    let (_, recv) = plan.unwrap();
    assert_eq!(recv.program, "cat");
    assert!(recv.args.is_empty());
}

#[test]
fn send_pipe_plan_needs_a_receiver() {
    assert!(zfs_send("tank@snap".to_string(), "".to_string()).is_none());
    assert!(zfs_send("tank@snap".to_string(), "   ".to_string()).is_none());
}

#[test]
fn spawn_failure_is_always_surfaced() {
    let outcome = CommandOutcome::SpawnFailed("false-program-name".to_string());
    let shown = surface_outcome(&outcome);
    assert_eq!(shown, Some(owned(&["Failed to run: false-program-name"])));
}

#[test]
fn silence_is_success_and_output_is_surfaced_verbatim() {
    let outcome = CommandOutcome::Completed("".to_string());
    assert_eq!(surface_outcome(&outcome), None);
    let outcome = CommandOutcome::Completed("cannot destroy 'tank': pool is busy\n".to_string());
    assert_eq!(
        surface_outcome(&outcome),
        Some(owned(&["cannot destroy 'tank': pool is busy"]))
    );
}
