//! Per-category operations: what each one gathers from the operator first
//! (a confirmation, one input line, or two), and which invocation it runs
//! once the dialog outcome is in.  A cancelled dialog, or an empty required
//! input, always yields no invocation at all.

use vstd::prelude::*;
use vstd::string::*;
use crate::command;
use crate::command::{Invocation, views, tokens};
use crate::dialog::DialogResult;
use crate::engine::Operation;

verus! {

/// What an operation gathers from the operator before it can run: nothing,
/// a confirmation, one input field, or two input fields.
pub enum Gather {
    Immediate,
    Confirm,
    Single { seed: String },
    Dual { first_seed: String, second_seed: String },
}

/// The dialog an operation opens over the selected item, with the seed text
/// its input fields start from.
pub fn gather_for(op: Operation, selected_value: &str) -> (r: Gather)
    ensures
        match op {
            Operation::Help => r is Immediate,
            Operation::GetAll => r is Immediate,
            Operation::Scrub => r is Confirm,
            Operation::Destroy => r is Confirm,
            Operation::DatasetPromote => r is Confirm,
            Operation::Rollback => r is Confirm,
            Operation::CreateDataset => r matches Gather::Single { seed } && seed@
                == selected_value@ + "/"@,
            Operation::TakeSnapshot => r matches Gather::Single { seed } && seed@
                == selected_value@ + "@"@,
            Operation::Rename => r matches Gather::Single { seed } && seed@ == selected_value@,
            Operation::SnapshotDiff => r matches Gather::Single { seed } && seed@
                == selected_value@,
            Operation::CloneSnapshot => r matches Gather::Single { seed } && seed@.len() == 0,
            Operation::CreateVolume => r matches Gather::Dual { first_seed, second_seed }
                && first_seed@ == selected_value@ && second_seed@ == "1g"@,
            Operation::SnapshotSend => r matches Gather::Dual { first_seed, second_seed }
                && first_seed@ == selected_value@ && second_seed@ == "zfs recv pool/dataset"@,
        },
{
    match op {
        Operation::Help => Gather::Immediate,
        Operation::GetAll => Gather::Immediate,
        Operation::Scrub => Gather::Confirm,
        Operation::Destroy => Gather::Confirm,
        Operation::DatasetPromote => Gather::Confirm,
        Operation::Rollback => Gather::Confirm,
        Operation::CreateDataset => Gather::Single {
            seed: selected_value.to_owned().concat("/"),
        },
        Operation::TakeSnapshot => Gather::Single { seed: selected_value.to_owned().concat("@") },
        Operation::Rename => Gather::Single { seed: selected_value.to_owned() },
        Operation::SnapshotDiff => Gather::Single { seed: selected_value.to_owned() },
        Operation::CloneSnapshot => Gather::Single { seed: String::new() },
        Operation::CreateVolume => Gather::Dual {
            first_seed: selected_value.to_owned(),
            second_seed: String::from_str("1g"),
        },
        Operation::SnapshotSend => Gather::Dual {
            first_seed: selected_value.to_owned(),
            second_seed: String::from_str("zfs recv pool/dataset"),
        },
    }
}

/// The plan for listing the pools by name only.
pub fn pool_list() -> (r: Invocation)
    ensures
        r.program@ == "zpool"@,
        views(r.args@) == seq!["list"@, "-H"@, "-o"@, "name"@],
{
    let mut args: Vec<String> = Vec::new();
    args.push(String::from_str("list"));
    args.push(String::from_str("-H"));
    args.push(String::from_str("-o"));
    args.push(String::from_str("name"));
    proof {
        assert(views(args@) =~= seq!["list"@, "-H"@, "-o"@, "name"@]);
    }
    Invocation { program: String::from_str("zpool"), args }
}

/// The plan for listing the datasets by name only.
pub fn dataset_list() -> (r: Invocation)
    ensures
        r.program@ == "zfs"@,
        views(r.args@) == seq!["list"@, "-H"@, "-o"@, "name"@, "-t"@, "filesystem"@],
{
    let mut args: Vec<String> = Vec::new();
    args.push(String::from_str("list"));
    args.push(String::from_str("-H"));
    args.push(String::from_str("-o"));
    args.push(String::from_str("name"));
    args.push(String::from_str("-t"));
    args.push(String::from_str("filesystem"));
    proof {
        assert(views(args@) =~= seq!["list"@, "-H"@, "-o"@, "name"@, "-t"@, "filesystem"@]);
    }
    Invocation { program: String::from_str("zfs"), args }
}

/// The plan for listing the volumes by name only.
pub fn volume_list() -> (r: Invocation)
    ensures
        r.program@ == "zfs"@,
        views(r.args@) == seq!["list"@, "-H"@, "-o"@, "name"@, "-t"@, "volume"@],
{
    let mut args: Vec<String> = Vec::new();
    args.push(String::from_str("list"));
    args.push(String::from_str("-H"));
    args.push(String::from_str("-o"));
    args.push(String::from_str("name"));
    args.push(String::from_str("-t"));
    args.push(String::from_str("volume"));
    proof {
        assert(views(args@) =~= seq!["list"@, "-H"@, "-o"@, "name"@, "-t"@, "volume"@]);
    }
    Invocation { program: String::from_str("zfs"), args }
}

/// The plan for listing the snapshots by name only.
pub fn snapshot_list() -> (r: Invocation)
    ensures
        r.program@ == "zfs"@,
        views(r.args@) == seq!["list"@, "-H"@, "-o"@, "name"@, "-t"@, "snapshot"@],
{
    let mut args: Vec<String> = Vec::new();
    args.push(String::from_str("list"));
    args.push(String::from_str("-H"));
    args.push(String::from_str("-o"));
    args.push(String::from_str("name"));
    args.push(String::from_str("-t"));
    args.push(String::from_str("snapshot"));
    proof {
        assert(views(args@) =~= seq!["list"@, "-H"@, "-o"@, "name"@, "-t"@, "snapshot"@]);
    }
    Invocation { program: String::from_str("zfs"), args }
}

/// Destroying a pool runs only on a confirmed dialog; cancellation runs
/// nothing.
pub fn pool_destroy(selected_value: &str, decision: &DialogResult<()>) -> (r: Option<Invocation>)
    ensures
        (r is Some) <==> (decision matches DialogResult::Confirmed(_)),
        r matches Some(inv) ==> inv.program@ == "zpool"@ && views(inv.args@) == seq![
            "destroy"@,
            selected_value@,
        ],
{
    match decision {
        DialogResult::Confirmed(_) => {
            let mut args: Vec<String> = Vec::new();
            args.push(String::from_str("destroy"));
            args.push(selected_value.to_owned());
            proof {
                assert(views(args@) =~= seq!["destroy"@, selected_value@]);
            }
            Some(Invocation { program: String::from_str("zpool"), args })
        },
        DialogResult::Cancelled => None,
    }
}

/// Scrubbing a pool runs only on a confirmed dialog; cancellation runs
/// nothing.
pub fn pool_scrub(selected_value: &str, decision: &DialogResult<()>) -> (r: Option<Invocation>)
    ensures
        (r is Some) <==> (decision matches DialogResult::Confirmed(_)),
        r matches Some(inv) ==> inv.program@ == "zpool"@ && views(inv.args@) == seq![
            "scrub"@,
            selected_value@,
        ],
{
    match decision {
        DialogResult::Confirmed(_) => {
            let mut args: Vec<String> = Vec::new();
            args.push(String::from_str("scrub"));
            args.push(selected_value.to_owned());
            proof {
                assert(views(args@) =~= seq!["scrub"@, selected_value@]);
            }
            Some(Invocation { program: String::from_str("zpool"), args })
        },
        DialogResult::Cancelled => None,
    }
}

/// Destroying a dataset, volume or snapshot runs only on a confirmed
/// dialog; cancellation runs nothing.
pub fn dataset_destroy(selected_value: &str, decision: &DialogResult<()>) -> (r: Option<Invocation>)
    ensures
        (r is Some) <==> (decision matches DialogResult::Confirmed(_)),
        r matches Some(inv) ==> inv.program@ == "zfs"@ && views(inv.args@) == seq![
            "destroy"@,
            selected_value@,
        ],
{
    match decision {
        DialogResult::Confirmed(_) => {
            let mut args: Vec<String> = Vec::new();
            args.push(String::from_str("destroy"));
            args.push(selected_value.to_owned());
            proof {
                assert(views(args@) =~= seq!["destroy"@, selected_value@]);
            }
            Some(Invocation { program: String::from_str("zfs"), args })
        },
        DialogResult::Cancelled => None,
    }
}

/// Promoting a dataset runs only on a confirmed dialog; cancellation runs
/// nothing.
pub fn dataset_promote(selected_value: &str, decision: &DialogResult<()>) -> (r: Option<Invocation>)
    ensures
        (r is Some) <==> (decision matches DialogResult::Confirmed(_)),
        r matches Some(inv) ==> inv.program@ == "zfs"@ && views(inv.args@) == seq![
            "promote"@,
            selected_value@,
        ],
{
    match decision {
        DialogResult::Confirmed(_) => {
            let mut args: Vec<String> = Vec::new();
            args.push(String::from_str("promote"));
            args.push(selected_value.to_owned());
            proof {
                assert(views(args@) =~= seq!["promote"@, selected_value@]);
            }
            Some(Invocation { program: String::from_str("zfs"), args })
        },
        DialogResult::Cancelled => None,
    }
}

/// Rolling back to a snapshot runs only on a confirmed dialog;
/// cancellation runs nothing.
pub fn snapshot_rollback(selected_value: &str, decision: &DialogResult<()>) -> (r: Option<
    Invocation,
>)
    ensures
        (r is Some) <==> (decision matches DialogResult::Confirmed(_)),
        r matches Some(inv) ==> inv.program@ == "zfs"@ && views(inv.args@) == seq![
            "rollback"@,
            selected_value@,
        ],
{
    match decision {
        DialogResult::Confirmed(_) => {
            let mut args: Vec<String> = Vec::new();
            args.push(String::from_str("rollback"));
            args.push(selected_value.to_owned());
            proof {
                assert(views(args@) =~= seq!["rollback"@, selected_value@]);
            }
            Some(Invocation { program: String::from_str("zfs"), args })
        },
        DialogResult::Cancelled => None,
    }
}

/// Creating a dataset runs only when the input dialog confirmed a
/// non-empty name; cancellation and an empty name run nothing.
pub fn dataset_create(input: &DialogResult<String>) -> (r: Option<Invocation>)
    ensures
        (r is Some) <==> (input matches DialogResult::Confirmed(s) && s@.len() > 0),
        input matches DialogResult::Confirmed(s) ==> (s@.len() > 0 ==> (r matches Some(inv)
            && inv.program@ == "zfs"@ && views(inv.args@) == seq!["create"@, s@])),
{
    match input {
        DialogResult::Confirmed(name) => {
            if name.as_str().is_empty() {
                None
            } else {
                Some(command::zfs_create(name.clone()))
            }
        },
        DialogResult::Cancelled => None,
    }
}

/// Taking a snapshot runs only when the input dialog confirmed a non-empty
/// snapshot name; cancellation and an empty name run nothing.
pub fn dataset_snapshot(input: &DialogResult<String>) -> (r: Option<Invocation>)
    ensures
        (r is Some) <==> (input matches DialogResult::Confirmed(s) && s@.len() > 0),
        input matches DialogResult::Confirmed(s) ==> (s@.len() > 0 ==> (r matches Some(inv)
            && inv.program@ == "zfs"@ && views(inv.args@) == seq!["snapshot"@, s@])),
{
    match input {
        DialogResult::Confirmed(name) => {
            if name.as_str().is_empty() {
                None
            } else {
                Some(command::zfs_snapshot(name.clone()))
            }
        },
        DialogResult::Cancelled => None,
    }
}

/// Renaming runs only when the input dialog confirmed a non-empty new
/// name; cancellation and an empty name run nothing.
pub fn dataset_rename(selected_value: &str, input: &DialogResult<String>) -> (r: Option<Invocation>)
    ensures
        (r is Some) <==> (input matches DialogResult::Confirmed(s) && s@.len() > 0),
        input matches DialogResult::Confirmed(s) ==> (s@.len() > 0 ==> (r matches Some(inv)
            && inv.program@ == "zfs"@ && views(inv.args@) == seq![
            "rename"@,
            selected_value@,
            s@,
        ])),
{
    match input {
        DialogResult::Confirmed(name) => {
            if name.as_str().is_empty() {
                None
            } else {
                Some(command::zfs_rename(selected_value.to_owned(), name.clone()))
            }
        },
        DialogResult::Cancelled => None,
    }
}

/// Cloning a snapshot runs only when the input dialog confirmed a
/// non-empty dataset name; cancellation and an empty name run nothing.
pub fn snapshot_clone(selected_value: &str, input: &DialogResult<String>) -> (r: Option<Invocation>)
    ensures
        (r is Some) <==> (input matches DialogResult::Confirmed(s) && s@.len() > 0),
        input matches DialogResult::Confirmed(s) ==> (s@.len() > 0 ==> (r matches Some(inv)
            && inv.program@ == "zfs"@ && views(inv.args@) == seq![
            "clone"@,
            selected_value@,
            s@,
        ])),
{
    match input {
        DialogResult::Confirmed(name) => {
            if name.as_str().is_empty() {
                None
            } else {
                Some(command::zfs_clone(selected_value.to_owned(), name.clone()))
            }
        },
        DialogResult::Cancelled => None,
    }
}

/// Comparing the selected snapshot runs only when the input dialog
/// confirmed a non-empty second snapshot; cancellation and an empty name
/// run nothing.
pub fn snapshot_diff(selected_value: &str, input: &DialogResult<String>) -> (r: Option<Invocation>)
    ensures
        (r is Some) <==> (input matches DialogResult::Confirmed(s) && s@.len() > 0),
        input matches DialogResult::Confirmed(s) ==> (s@.len() > 0 ==> (r matches Some(inv)
            && inv.program@ == "zfs"@ && views(inv.args@) == seq!["diff"@, selected_value@, s@])),
{
    match input {
        DialogResult::Confirmed(name) => {
            if name.as_str().is_empty() {
                None
            } else {
                Some(command::zfs_diff(selected_value.to_owned(), name.clone()))
            }
        },
        DialogResult::Cancelled => None,
    }
}

/// Creating a volume runs only when the dual input dialog confirmed a
/// non-empty name; the second field is the volume size.  Cancellation and
/// an empty name run nothing.
pub fn volume_create(input: &DialogResult<(String, String)>) -> (r: Option<Invocation>)
    ensures
        (r is Some) <==> (input matches DialogResult::Confirmed(p) && p.0@.len() > 0),
        input matches DialogResult::Confirmed(p) ==> (p.0@.len() > 0 ==> (r matches Some(inv)
            && inv.program@ == "zfs"@ && views(inv.args@) == seq![
            "create"@,
            "-V"@,
            p.1@,
            p.0@,
        ])),
{
    match input {
        DialogResult::Confirmed(pair) => {
            if pair.0.as_str().is_empty() {
                None
            } else {
                Some(command::volume_create(pair.0.clone(), pair.1.clone()))
            }
        },
        DialogResult::Cancelled => None,
    }
}

/// Sending a snapshot stream runs only when the dual input dialog
/// confirmed a non-empty snapshot name and a receiving command line with
/// at least one token; anything else runs nothing.  The first invocation
/// produces the stream, the second consumes it.
pub fn snapshot_send(input: &DialogResult<(String, String)>) -> (r: Option<
    (Invocation, Invocation),
>)
    ensures
        (r is Some) <==> (input matches DialogResult::Confirmed(p) && p.0@.len() > 0 && tokens(
            p.1@,
        ).len() > 0),
        input matches DialogResult::Confirmed(p) ==> (p.0@.len() > 0 && tokens(p.1@).len() > 0
            ==> (r matches Some(plan) && plan.0.program@ == "zfs"@ && views(plan.0.args@) == seq![
            "send"@,
            p.0@,
        ] && plan.1.program@ == tokens(p.1@)[0] && views(plan.1.args@) == tokens(
            p.1@,
        ).drop_first())),
{
    match input {
        DialogResult::Confirmed(pair) => {
            if pair.0.as_str().is_empty() {
                None
            } else {
                command::zfs_send(pair.0.clone(), pair.1.clone())
            }
        },
        DialogResult::Cancelled => None,
    }
}

/// The plan for reading every property of the selected pool.
pub fn pool_get_all(selected_value: &str) -> (r: Invocation)
    ensures
        r.program@ == "zpool"@,
        views(r.args@) == seq!["get"@, "all"@, selected_value@],
{
    command::zpool_get_all(selected_value.to_owned())
}

/// The plan for reading every property of the selected dataset, volume or
/// snapshot.
pub fn dataset_get_all(selected_value: &str) -> (r: Invocation)
    ensures
        r.program@ == "zfs"@,
        views(r.args@) == seq!["get"@, "all"@, selected_value@],
{
    command::zfs_get_all(selected_value.to_owned())
}

/// The fields of one property line of a get-all listing: object name,
/// property name and property value are its first three
/// whitespace-separated tokens.  A shorter line yields nothing.
pub fn property_fields(line: &str) -> (r: Option<(String, String, String)>)
    ensures
        (r is Some) <==> tokens(line@).len() >= 3,
        r matches Some(t) ==> t.0@ == tokens(line@)[0] && t.1@ == tokens(line@)[1] && t.2@
            == tokens(line@)[2],
{
    let toks = command::split_tokens(line);
    if toks.len() < 3 {
        None
    } else {
        Some((toks[0].clone(), toks[1].clone(), toks[2].clone()))
    }
}

/// The plan for setting one property on the selected pool, as a single
/// `property=value` assignment.  An empty value sets nothing.
pub fn pool_set(selected_value: &str, property: &str, value: &str) -> (r: Option<Invocation>)
    ensures
        (r is Some) <==> value@.len() > 0,
        r matches Some(inv) ==> inv.program@ == "zpool"@ && views(inv.args@) == seq![
            "set"@,
            property@ + "="@ + value@,
            selected_value@,
        ],
{
    if value.is_empty() {
        None
    } else {
        let assignment = property.to_owned().concat("=").concat(value);
        let mut args: Vec<String> = Vec::new();
        args.push(String::from_str("set"));
        args.push(assignment);
        args.push(selected_value.to_owned());
        proof {
            assert(views(args@) =~= seq!["set"@, property@ + "="@ + value@, selected_value@]);
        }
        Some(Invocation { program: String::from_str("zpool"), args })
    }
}

/// The plan for setting one property on the selected dataset, volume or
/// snapshot, as a single `property=value` assignment.  An empty value sets
/// nothing.
pub fn dataset_set(selected_value: &str, property: &str, value: &str) -> (r: Option<Invocation>)
    ensures
        (r is Some) <==> value@.len() > 0,
        r matches Some(inv) ==> inv.program@ == "zfs"@ && views(inv.args@) == seq![
            "set"@,
            property@ + "="@ + value@,
            selected_value@,
        ],
{
    if value.is_empty() {
        None
    } else {
        let assignment = property.to_owned().concat("=").concat(value);
        let mut args: Vec<String> = Vec::new();
        args.push(String::from_str("set"));
        args.push(assignment);
        args.push(selected_value.to_owned());
        proof {
            assert(views(args@) =~= seq!["set"@, property@ + "="@ + value@, selected_value@]);
        }
        Some(Invocation { program: String::from_str("zfs"), args })
    }
}

} // verus!
