//! The command-plan layer: what to run and how to read what came back.
//!
//! Every managed operation reduces to running one external program, or to
//! piping one program's output into a second one.  This module builds those
//! plans as plain values — a program name and its argument list — and holds
//! the verified text machinery around them: splitting captured output into
//! lines, splitting a line into whitespace-separated tokens, and deciding
//! whether an outcome must be surfaced to the operator.

use vstd::prelude::*;
use vstd::string::*;

verus! {

/// One external program invocation: the program and its arguments.
pub struct Invocation {
    pub program: String,
    pub args: Vec<String>,
}

/// One line of a listing, split into the identifying name (the first
/// whitespace-separated token) and the auxiliary display text (the second).
pub struct CommandResult {
    pub name: String,
    pub used: String,
}

/// The views of a sequence of strings.
pub open spec fn views(v: Seq<String>) -> Seq<Seq<char>> {
    v.map_values(|s: String| s@)
}

/// The token-separating characters of a listing line.
pub open spec fn is_space(c: char) -> bool {
    c == ' ' || c == '\t'
}

/// The first index at or after `from` holding a non-separator character,
/// or the length when there is none.
pub open spec fn first_non_space(s: Seq<char>, from: int) -> int
    decreases s.len() - from,
{
    if from >= s.len() {
        s.len() as int
    } else if !is_space(s[from]) {
        from
    } else {
        first_non_space(s, from + 1)
    }
}

/// The first index at or after `from` holding a separator character, or
/// the length when there is none.
pub open spec fn first_space(s: Seq<char>, from: int) -> int
    decreases s.len() - from,
{
    if from >= s.len() {
        s.len() as int
    } else if is_space(s[from]) {
        from
    } else {
        first_space(s, from + 1)
    }
}

/// The first index at or after `from` holding a line separator, or the
/// length when there is none.
pub open spec fn first_newline(s: Seq<char>, from: int) -> int
    decreases s.len() - from,
{
    if from >= s.len() {
        s.len() as int
    } else if s[from] == '\n' {
        from
    } else {
        first_newline(s, from + 1)
    }
}

pub proof fn lemma_first_non_space(s: Seq<char>, from: int)
    requires
        0 <= from <= s.len(),
    ensures
        from <= first_non_space(s, from) <= s.len(),
        forall|j: int| from <= j < first_non_space(s, from) ==> is_space(s[j]),
        first_non_space(s, from) < s.len() ==> !is_space(s[first_non_space(s, from)]),
    decreases s.len() - from,
{
    if from < s.len() && is_space(s[from]) {
        lemma_first_non_space(s, from + 1);
    }
}

pub proof fn lemma_first_space(s: Seq<char>, from: int)
    requires
        0 <= from <= s.len(),
    ensures
        from <= first_space(s, from) <= s.len(),
        forall|j: int| from <= j < first_space(s, from) ==> !is_space(s[j]),
        first_space(s, from) < s.len() ==> is_space(s[first_space(s, from)]),
    decreases s.len() - from,
{
    if from < s.len() && !is_space(s[from]) {
        lemma_first_space(s, from + 1);
    }
}

pub proof fn lemma_first_newline(s: Seq<char>, from: int)
    requires
        0 <= from <= s.len(),
    ensures
        from <= first_newline(s, from) <= s.len(),
        forall|j: int| from <= j < first_newline(s, from) ==> s[j] != '\n',
        first_newline(s, from) < s.len() ==> s[first_newline(s, from)] == '\n',
    decreases s.len() - from,
{
    if from < s.len() && s[from] != '\n' {
        lemma_first_newline(s, from + 1);
    }
}

/// The lines of a text, reading from index `from`: each maximal run up to a
/// line separator, where a final separator terminates the last line rather
/// than opening an empty one.
pub open spec fn split_lines_from(s: Seq<char>, from: int) -> Seq<Seq<char>>
    decreases s.len() - from,
    when 0 <= from <= s.len()
    via split_lines_from_dec
{
    if from >= s.len() {
        Seq::empty()
    } else {
        let e = first_newline(s, from);
        if e >= s.len() {
            seq![s.subrange(from, s.len() as int)]
        } else {
            seq![s.subrange(from, e)] + split_lines_from(s, e + 1)
        }
    }
}

#[via_fn]
proof fn split_lines_from_dec(s: Seq<char>, from: int) {
    if from < s.len() {
        lemma_first_newline(s, from);
    }
}

/// The lines of a text: exactly one trailing line separator is trimmed,
/// never more, and an empty text has no lines.
pub open spec fn split_lines(s: Seq<char>) -> Seq<Seq<char>> {
    split_lines_from(s, 0)
}

/// The whitespace-separated tokens of a text, reading from index `from`.
pub open spec fn tokens_from(s: Seq<char>, from: int) -> Seq<Seq<char>>
    decreases s.len() - from,
    when 0 <= from <= s.len()
    via tokens_from_dec
{
    let a = first_non_space(s, from);
    if a >= s.len() {
        Seq::empty()
    } else {
        let b = first_space(s, a);
        seq![s.subrange(a, b)] + tokens_from(s, b)
    }
}

#[via_fn]
proof fn tokens_from_dec(s: Seq<char>, from: int) {
    lemma_first_non_space(s, from);
    let a = first_non_space(s, from);
    if a < s.len() {
        lemma_first_space(s, a);
    }
}

/// The whitespace-separated tokens of a text.
pub open spec fn tokens(s: Seq<char>) -> Seq<Seq<char>> {
    tokens_from(s, 0)
}

/// The identifying name of a listing line: its first token, or empty when
/// the line has none.
pub open spec fn name_of(line: Seq<char>) -> Seq<char> {
    let a = first_non_space(line, 0);
    let b = first_space(line, a);
    line.subrange(a, b)
}

/// The auxiliary field of a listing line: its second token, or empty when
/// the line has no second token.
pub open spec fn used_of(line: Seq<char>) -> Seq<char> {
    let b = first_space(line, first_non_space(line, 0));
    let c = first_non_space(line, b);
    let d = first_space(line, c);
    line.subrange(c, d)
}

/// Scans to the first non-separator character at or after `from`.
fn skip_spaces(s: &str, from: usize) -> (r: usize)
    requires
        from <= s@.len(),
    ensures
        r == first_non_space(s@, from as int),
        from <= r <= s@.len(),
        forall|j: int| from <= j < r ==> is_space(s@[j]),
        r < s@.len() ==> !is_space(s@[r as int]),
{
    proof {
        lemma_first_non_space(s@, from as int);
    }
    let n = s.unicode_len();
    let mut i = from;
    while i < n
        invariant
            from <= i <= n,
            n == s@.len(),
            first_non_space(s@, from as int) == first_non_space(s@, i as int),
        decreases n - i,
    {
        let c = s.get_char(i);
        if !(c == ' ' || c == '\t') {
            proof {
                assert(!is_space(s@[i as int]));
                assert(first_non_space(s@, i as int) == i);
                lemma_first_non_space(s@, from as int);
            }
            return i;
        }
        i = i + 1;
    }
    i
}

/// Scans to the first separator character at or after `from`.
fn scan_token_end(s: &str, from: usize) -> (r: usize)
    requires
        from <= s@.len(),
    ensures
        r == first_space(s@, from as int),
        from <= r <= s@.len(),
{
    proof {
        lemma_first_space(s@, from as int);
    }
    let n = s.unicode_len();
    let mut i = from;
    while i < n
        invariant
            from <= i <= n,
            n == s@.len(),
            first_space(s@, from as int) == first_space(s@, i as int),
        decreases n - i,
    {
        let c = s.get_char(i);
        if c == ' ' || c == '\t' {
            return i;
        }
        i = i + 1;
    }
    i
}

/// Scans to the first line separator at or after `from`.
fn scan_newline(s: &str, from: usize) -> (r: usize)
    requires
        from <= s@.len(),
    ensures
        r == first_newline(s@, from as int),
        from <= r <= s@.len(),
{
    proof {
        lemma_first_newline(s@, from as int);
    }
    let n = s.unicode_len();
    let mut i = from;
    while i < n
        invariant
            from <= i <= n,
            n == s@.len(),
            first_newline(s@, from as int) == first_newline(s@, i as int),
        decreases n - i,
    {
        let c = s.get_char(i);
        if c == '\n' {
            return i;
        }
        i = i + 1;
    }
    i
}

/// Splits captured output into its display lines.  Exactly one trailing
/// line separator is trimmed: a final newline does not open a spurious
/// empty entry, and every other empty line is kept.
pub fn list(output: &str) -> (r: Vec<String>)
    ensures
        views(r@) == split_lines(output@),
{
    let n = output.unicode_len();
    let mut r: Vec<String> = Vec::new();
    let mut i: usize = 0;
    loop
        invariant_except_break
            i <= n,
            n == output@.len(),
            views(r@) + split_lines_from(output@, i as int) == split_lines(output@),
        ensures
            views(r@) == split_lines(output@),
        decreases n - i,
    {
        if i >= n {
            assert(views(r@) + Seq::<Seq<char>>::empty() =~= views(r@));
            break ;
        }
        let e = scan_newline(output, i);
        let line = output.substring_char(i, e).to_owned();
        let ghost prev = r@;
        r.push(line);
        proof {
            assert(views(r@) =~= views(prev) + seq![line@]);
        }
        if e == n {
            assert(split_lines_from(output@, i as int) == seq![
                output@.subrange(i as int, n as int),
            ]);
            assert(views(r@) =~= views(prev) + split_lines_from(output@, i as int));
            break ;
        }
        proof {
            assert(split_lines_from(output@, i as int) == seq![output@.subrange(i as int, e as int)]
                + split_lines_from(output@, e + 1));
            assert(views(r@) + split_lines_from(output@, e + 1) =~= views(prev) + split_lines_from(
                output@,
                i as int,
            ));
        }
        i = e + 1;
    }
    r
}

/// Splits a text into its whitespace-separated tokens.
pub fn split_tokens(s: &str) -> (r: Vec<String>)
    ensures
        views(r@) == tokens(s@),
{
    let n = s.unicode_len();
    let mut r: Vec<String> = Vec::new();
    let mut i: usize = 0;
    loop
        invariant_except_break
            i <= n,
            n == s@.len(),
            views(r@) + tokens_from(s@, i as int) == tokens(s@),
        ensures
            views(r@) == tokens(s@),
        decreases n - i,
    {
        let a = skip_spaces(s, i);
        if a == n {
            assert(tokens_from(s@, i as int) == Seq::<Seq<char>>::empty());
            assert(views(r@) + Seq::<Seq<char>>::empty() =~= views(r@));
            break ;
        }
        let b = scan_token_end(s, a);
        let token = s.substring_char(a, b).to_owned();
        let ghost prev = r@;
        r.push(token);
        proof {
            assert(tokens_from(s@, i as int) == seq![s@.subrange(a as int, b as int)] + tokens_from(
                s@,
                b as int,
            ));
            assert(views(r@) =~= views(prev) + seq![token@]);
            assert(views(r@) + tokens_from(s@, b as int) =~= views(prev) + tokens_from(
                s@,
                i as int,
            ));
            assert(first_space(s@, a as int) == first_space(s@, a + 1));
            lemma_first_space(s@, a + 1);
        }
        i = b;
    }
    r
}

/// Splits one listing line into its identifying name and its auxiliary
/// field: the first and second whitespace-separated tokens, either empty
/// when missing.
pub fn parse_entry(line: &str) -> (r: CommandResult)
    ensures
        r.name@ == name_of(line@),
        r.used@ == used_of(line@),
{
    let a = skip_spaces(line, 0);
    let b = scan_token_end(line, a);
    let name = line.substring_char(a, b).to_owned();
    let c = skip_spaces(line, b);
    let d = scan_token_end(line, c);
    let used = line.substring_char(c, d).to_owned();
    CommandResult { name, used }
}

/// Splits captured listing output into one entry per line, each split into
/// name and auxiliary field.
pub fn parse_listing(output: &str) -> (r: Vec<CommandResult>)
    ensures
        r@.len() == split_lines(output@).len(),
        forall|i: int|
            0 <= i < r@.len() ==> r@[i].name@ == name_of(split_lines(output@)[i]) && r@[i].used@
                == used_of(split_lines(output@)[i]),
{
    let lines = list(output);
    let mut r: Vec<CommandResult> = Vec::new();
    let mut i: usize = 0;
    while i < lines.len()
        invariant
            i <= lines@.len(),
            views(lines@) == split_lines(output@),
            r@.len() == i,
            forall|k: int|
                0 <= k < i ==> r@[k].name@ == name_of(split_lines(output@)[k]) && r@[k].used@
                    == used_of(split_lines(output@)[k]),
        decreases lines@.len() - i,
    {
        assert(lines@[i as int]@ == split_lines(output@)[i as int]);
        r.push(parse_entry(lines[i].as_str()));
        i = i + 1;
    }
    r
}

/// What remains of a text after trimming one trailing line separator, if
/// there is one.
pub open spec fn trim_trailing_newline(s: Seq<char>) -> Seq<char> {
    if s.len() > 0 && s[s.len() - 1] == '\n' {
        s.drop_last()
    } else {
        s
    }
}

/// The lines joined back with single line separators.
pub open spec fn join_lines(ls: Seq<Seq<char>>) -> Seq<char>
    decreases ls.len(),
{
    if ls.len() == 0 {
        Seq::empty()
    } else if ls.len() == 1 {
        ls[0]
    } else {
        ls[0] + seq!['\n'] + join_lines(ls.drop_first())
    }
}

proof fn lemma_lines_round_trip_from(s: Seq<char>, from: int)
    requires
        0 <= from <= s.len(),
    ensures
        join_lines(split_lines_from(s, from)) == trim_trailing_newline(
            s.subrange(from, s.len() as int),
        ),
    decreases s.len() - from,
{
    let suf = s.subrange(from, s.len() as int);
    if from >= s.len() {
        assert(suf =~= Seq::<char>::empty());
    } else {
        let e = first_newline(s, from);
        lemma_first_newline(s, from);
        if e >= s.len() {
            assert(split_lines_from(s, from) =~= seq![s.subrange(from, s.len() as int)]);
            assert(suf[suf.len() - 1] == s[s.len() - 1]);
            assert(s[s.len() - 1] != '\n');
        } else {
            let head = s.subrange(from, e);
            let rest = split_lines_from(s, e + 1);
            lemma_lines_round_trip_from(s, e + 1);
            let sufrest = s.subrange(e + 1, s.len() as int);
            if rest.len() == 0 {
                assert(e + 1 == s.len());
                assert(split_lines_from(s, from) =~= seq![head]);
                assert(join_lines(seq![head]) == head);
                assert(suf[suf.len() - 1] == s[s.len() - 1]);
                assert(s[s.len() - 1] == '\n');
                assert(trim_trailing_newline(suf) =~= head);
            } else {
                let ls = split_lines_from(s, from);
                assert(ls == seq![head] + rest);
                assert(ls.len() >= 2);
                assert(ls[0] == head);
                assert(ls.drop_first() =~= rest);
                assert(join_lines(ls) == head + seq!['\n'] + join_lines(rest));
                assert(join_lines(rest) == trim_trailing_newline(sufrest));
                assert(e + 1 < s.len());
                assert(sufrest.len() > 0);
                assert(s[e] == '\n');
                if s[s.len() - 1] == '\n' {
                    assert(trim_trailing_newline(sufrest) =~= s.subrange(e + 1, s.len() - 1));
                    assert(trim_trailing_newline(suf) =~= s.subrange(from, s.len() - 1));
                    assert(head + seq!['\n'] + s.subrange(e + 1, s.len() - 1) =~= s.subrange(
                        from,
                        s.len() - 1,
                    ));
                } else {
                    assert(trim_trailing_newline(sufrest) =~= sufrest);
                    assert(trim_trailing_newline(suf) =~= suf);
                    assert(head + seq!['\n'] + sufrest =~= suf);
                }
            }
        }
    }
}

/// Splitting a text into lines and joining the lines back with single line
/// separators returns the text itself, up to exactly one trimmed trailing
/// separator.  So a runner that captures a program's output and splits it
/// into lines — in particular the pipe composition whose second program
/// echoes its input — preserves that output exactly, modulo this one trim.
pub proof fn lemma_lines_round_trip(s: Seq<char>)
    ensures
        join_lines(split_lines(s)) == trim_trailing_newline(s),
{
    lemma_lines_round_trip_from(s, 0);
    assert(s.subrange(0, s.len() as int) =~= s);
}

/// The plan for listing the pools: name and size, one per line, unadorned.
pub fn list_pools() -> (r: Invocation)
    ensures
        r.program@ == "zpool"@,
        views(r.args@) == seq!["list"@, "-o"@, "name,size"@, "-H"@],
{
    let mut args: Vec<String> = Vec::new();
    args.push(String::from_str("list"));
    args.push(String::from_str("-o"));
    args.push(String::from_str("name,size"));
    args.push(String::from_str("-H"));
    proof {
        assert(views(args@) =~= seq!["list"@, "-o"@, "name,size"@, "-H"@]);
    }
    Invocation { program: String::from_str("zpool"), args }
}

/// The plan for listing the datasets: name and space used, one per line.
pub fn list_dataset() -> (r: Invocation)
    ensures
        r.program@ == "zfs"@,
        views(r.args@) == seq!["list"@, "-H"@, "-o"@, "name,used"@, "-t"@, "filesystem"@],
{
    let mut args: Vec<String> = Vec::new();
    args.push(String::from_str("list"));
    args.push(String::from_str("-H"));
    args.push(String::from_str("-o"));
    args.push(String::from_str("name,used"));
    args.push(String::from_str("-t"));
    args.push(String::from_str("filesystem"));
    proof {
        assert(views(args@) =~= seq!["list"@, "-H"@, "-o"@, "name,used"@, "-t"@, "filesystem"@]);
    }
    Invocation { program: String::from_str("zfs"), args }
}

/// The plan for listing the volumes: name and space used, one per line.
pub fn list_volumes() -> (r: Invocation)
    ensures
        r.program@ == "zfs"@,
        views(r.args@) == seq!["list"@, "-H"@, "-o"@, "name,used"@, "-t"@, "volume"@],
{
    let mut args: Vec<String> = Vec::new();
    args.push(String::from_str("list"));
    args.push(String::from_str("-H"));
    args.push(String::from_str("-o"));
    args.push(String::from_str("name,used"));
    args.push(String::from_str("-t"));
    args.push(String::from_str("volume"));
    proof {
        assert(views(args@) =~= seq!["list"@, "-H"@, "-o"@, "name,used"@, "-t"@, "volume"@]);
    }
    Invocation { program: String::from_str("zfs"), args }
}

/// The plan for listing the snapshots: name and space used, one per line.
pub fn list_snapshots() -> (r: Invocation)
    ensures
        r.program@ == "zfs"@,
        views(r.args@) == seq!["list"@, "-H"@, "-o"@, "name,used"@, "-t"@, "snapshot"@],
{
    let mut args: Vec<String> = Vec::new();
    args.push(String::from_str("list"));
    args.push(String::from_str("-H"));
    args.push(String::from_str("-o"));
    args.push(String::from_str("name,used"));
    args.push(String::from_str("-t"));
    args.push(String::from_str("snapshot"));
    proof {
        assert(views(args@) =~= seq!["list"@, "-H"@, "-o"@, "name,used"@, "-t"@, "snapshot"@]);
    }
    Invocation { program: String::from_str("zfs"), args }
}

/// The plan for creating a volume of the given size.
pub fn volume_create(volume_name: String, volume_size: String) -> (r: Invocation)
    ensures
        r.program@ == "zfs"@,
        views(r.args@) == seq!["create"@, "-V"@, volume_size@, volume_name@],
{
    let mut args: Vec<String> = Vec::new();
    args.push(String::from_str("create"));
    args.push(String::from_str("-V"));
    let ghost size_view = volume_size@;
    let ghost name_view = volume_name@;
    args.push(volume_size);
    args.push(volume_name);
    proof {
        assert(views(args@) =~= seq!["create"@, "-V"@, size_view, name_view]);
    }
    Invocation { program: String::from_str("zfs"), args }
}

/// The plan for creating a dataset.
pub fn zfs_create(dataset_name: String) -> (r: Invocation)
    ensures
        r.program@ == "zfs"@,
        views(r.args@) == seq!["create"@, dataset_name@],
{
    let mut args: Vec<String> = Vec::new();
    args.push(String::from_str("create"));
    let ghost name_view = dataset_name@;
    args.push(dataset_name);
    proof {
        assert(views(args@) =~= seq!["create"@, name_view]);
    }
    Invocation { program: String::from_str("zfs"), args }
}

/// The plan for renaming a dataset, volume or snapshot.
pub fn zfs_rename(old_dataset_name: String, new_dataset_name: String) -> (r: Invocation)
    ensures
        r.program@ == "zfs"@,
        views(r.args@) == seq!["rename"@, old_dataset_name@, new_dataset_name@],
{
    let mut args: Vec<String> = Vec::new();
    args.push(String::from_str("rename"));
    let ghost old_view = old_dataset_name@;
    let ghost new_view = new_dataset_name@;
    args.push(old_dataset_name);
    args.push(new_dataset_name);
    proof {
        assert(views(args@) =~= seq!["rename"@, old_view, new_view]);
    }
    Invocation { program: String::from_str("zfs"), args }
}

/// The plan for cloning a snapshot into a new dataset.
pub fn zfs_clone(snapshot_name: String, new_dataset_name: String) -> (r: Invocation)
    ensures
        r.program@ == "zfs"@,
        views(r.args@) == seq!["clone"@, snapshot_name@, new_dataset_name@],
{
    let mut args: Vec<String> = Vec::new();
    args.push(String::from_str("clone"));
    let ghost snap_view = snapshot_name@;
    let ghost new_view = new_dataset_name@;
    args.push(snapshot_name);
    args.push(new_dataset_name);
    proof {
        assert(views(args@) =~= seq!["clone"@, snap_view, new_view]);
    }
    Invocation { program: String::from_str("zfs"), args }
}

/// The plan for taking a snapshot.
pub fn zfs_snapshot(snapshot_name: String) -> (r: Invocation)
    ensures
        r.program@ == "zfs"@,
        views(r.args@) == seq!["snapshot"@, snapshot_name@],
{
    let mut args: Vec<String> = Vec::new();
    args.push(String::from_str("snapshot"));
    let ghost name_view = snapshot_name@;
    args.push(snapshot_name);
    proof {
        assert(views(args@) =~= seq!["snapshot"@, name_view]);
    }
    Invocation { program: String::from_str("zfs"), args }
}

/// The plan for comparing two snapshots.
pub fn zfs_diff(snapshot_1: String, snapshot_2: String) -> (r: Invocation)
    ensures
        r.program@ == "zfs"@,
        views(r.args@) == seq!["diff"@, snapshot_1@, snapshot_2@],
{
    let mut args: Vec<String> = Vec::new();
    args.push(String::from_str("diff"));
    let ghost first_view = snapshot_1@;
    let ghost second_view = snapshot_2@;
    args.push(snapshot_1);
    args.push(snapshot_2);
    proof {
        assert(views(args@) =~= seq!["diff"@, first_view, second_view]);
    }
    Invocation { program: String::from_str("zfs"), args }
}

/// The plan for reading every property of one pool.
pub fn zpool_get_all(dataset: String) -> (r: Invocation)
    ensures
        r.program@ == "zpool"@,
        views(r.args@) == seq!["get"@, "all"@, dataset@],
{
    let mut args: Vec<String> = Vec::new();
    args.push(String::from_str("get"));
    args.push(String::from_str("all"));
    let ghost name_view = dataset@;
    args.push(dataset);
    proof {
        assert(views(args@) =~= seq!["get"@, "all"@, name_view]);
    }
    Invocation { program: String::from_str("zpool"), args }
}

/// The plan for reading every property of one dataset, volume or snapshot.
pub fn zfs_get_all(dataset: String) -> (r: Invocation)
    ensures
        r.program@ == "zfs"@,
        views(r.args@) == seq!["get"@, "all"@, dataset@],
{
    let mut args: Vec<String> = Vec::new();
    args.push(String::from_str("get"));
    args.push(String::from_str("all"));
    let ghost name_view = dataset@;
    args.push(dataset);
    proof {
        assert(views(args@) =~= seq!["get"@, "all"@, name_view]);
    }
    Invocation { program: String::from_str("zfs"), args }
}

/// The plans for destroying each of the selected datasets, volumes or
/// snapshots, one invocation per element, in order.
pub fn zfs_destroy(selected_elements: Vec<String>) -> (r: Vec<Invocation>)
    ensures
        r@.len() == selected_elements@.len(),
        forall|i: int|
            0 <= i < r@.len() ==> (#[trigger] r@[i]).program@ == "zfs"@ && views(r@[i].args@)
                == seq!["destroy"@, selected_elements@[i]@],
{
    let mut r: Vec<Invocation> = Vec::new();
    let mut i: usize = 0;
    while i < selected_elements.len()
        invariant
            i <= selected_elements@.len(),
            r@.len() == i,
            forall|k: int|
                0 <= k < i ==> (#[trigger] r@[k]).program@ == "zfs"@ && views(r@[k].args@)
                    == seq!["destroy"@, selected_elements@[k]@],
        decreases selected_elements@.len() - i,
    {
        let mut args: Vec<String> = Vec::new();
        args.push(String::from_str("destroy"));
        args.push(selected_elements[i].clone());
        proof {
            assert(views(args@) =~= seq!["destroy"@, selected_elements@[i as int]@]);
        }
        r.push(Invocation { program: String::from_str("zfs"), args });
        i = i + 1;
    }
    r
}

/// The plans for forcibly rolling each selected snapshot back, one
/// invocation per element, in order.
pub fn zfs_rollback(selected_elements: Vec<String>) -> (r: Vec<Invocation>)
    ensures
        r@.len() == selected_elements@.len(),
        forall|i: int|
            0 <= i < r@.len() ==> (#[trigger] r@[i]).program@ == "zfs"@ && views(r@[i].args@)
                == seq!["rollback"@, "-rf"@, selected_elements@[i]@],
{
    let mut r: Vec<Invocation> = Vec::new();
    let mut i: usize = 0;
    while i < selected_elements.len()
        invariant
            i <= selected_elements@.len(),
            r@.len() == i,
            forall|k: int|
                0 <= k < i ==> (#[trigger] r@[k]).program@ == "zfs"@ && views(r@[k].args@)
                    == seq!["rollback"@, "-rf"@, selected_elements@[k]@],
        decreases selected_elements@.len() - i,
    {
        let mut args: Vec<String> = Vec::new();
        args.push(String::from_str("rollback"));
        args.push(String::from_str("-rf"));
        args.push(selected_elements[i].clone());
        proof {
            assert(views(args@) =~= seq!["rollback"@, "-rf"@, selected_elements@[i as int]@]);
        }
        r.push(Invocation { program: String::from_str("zfs"), args });
        i = i + 1;
    }
    r
}

/// The plans for destroying each selected pool, one invocation per
/// element, in order.
pub fn zpool_destroy(selected_elements: Vec<String>) -> (r: Vec<Invocation>)
    ensures
        r@.len() == selected_elements@.len(),
        forall|i: int|
            0 <= i < r@.len() ==> (#[trigger] r@[i]).program@ == "zpool"@ && views(r@[i].args@)
                == seq!["destroy"@, selected_elements@[i]@],
{
    let mut r: Vec<Invocation> = Vec::new();
    let mut i: usize = 0;
    while i < selected_elements.len()
        invariant
            i <= selected_elements@.len(),
            r@.len() == i,
            forall|k: int|
                0 <= k < i ==> (#[trigger] r@[k]).program@ == "zpool"@ && views(r@[k].args@)
                    == seq!["destroy"@, selected_elements@[k]@],
        decreases selected_elements@.len() - i,
    {
        let mut args: Vec<String> = Vec::new();
        args.push(String::from_str("destroy"));
        args.push(selected_elements[i].clone());
        proof {
            assert(views(args@) =~= seq!["destroy"@, selected_elements@[i as int]@]);
        }
        r.push(Invocation { program: String::from_str("zpool"), args });
        i = i + 1;
    }
    r
}

/// The plans for scrubbing each selected pool, one invocation per element,
/// in order.
pub fn zpool_scrub(selected_elements: Vec<String>) -> (r: Vec<Invocation>)
    ensures
        r@.len() == selected_elements@.len(),
        forall|i: int|
            0 <= i < r@.len() ==> (#[trigger] r@[i]).program@ == "zpool"@ && views(r@[i].args@)
                == seq!["scrub"@, selected_elements@[i]@],
{
    let mut r: Vec<Invocation> = Vec::new();
    let mut i: usize = 0;
    while i < selected_elements.len()
        invariant
            i <= selected_elements@.len(),
            r@.len() == i,
            forall|k: int|
                0 <= k < i ==> (#[trigger] r@[k]).program@ == "zpool"@ && views(r@[k].args@)
                    == seq!["scrub"@, selected_elements@[k]@],
        decreases selected_elements@.len() - i,
    {
        let mut args: Vec<String> = Vec::new();
        args.push(String::from_str("scrub"));
        args.push(selected_elements[i].clone());
        proof {
            assert(views(args@) =~= seq!["scrub"@, selected_elements@[i as int]@]);
        }
        r.push(Invocation { program: String::from_str("zpool"), args });
        i = i + 1;
    }
    r
}

/// The pipe plan for sending a snapshot stream into a receiving command
/// line: the first invocation produces the stream, the second consumes it,
/// its program and arguments taken from the whitespace-separated tokens of
/// the operator-supplied command line (first token the program, the rest
/// its arguments).  There is no plan when that line has no tokens.
pub fn zfs_send(snapshot_source: String, snapshot_stream: String) -> (r: Option<
    (Invocation, Invocation),
>)
    ensures
        (r is Some) <==> tokens(snapshot_stream@).len() > 0,
        r matches Some(p) ==> p.0.program@ == "zfs"@ && views(p.0.args@) == seq![
            "send"@,
            snapshot_source@,
        ] && p.1.program@ == tokens(snapshot_stream@)[0] && views(p.1.args@) == tokens(
            snapshot_stream@,
        ).drop_first(),
{
    let toks = split_tokens(snapshot_stream.as_str());
    if toks.len() == 0 {
        return None;
    }
    let recv_program = toks[0].clone();
    let mut recv_args: Vec<String> = Vec::new();
    let mut i: usize = 1;
    while i < toks.len()
        invariant
            1 <= i <= toks@.len(),
            views(toks@) == tokens(snapshot_stream@),
            views(recv_args@) == views(toks@).subrange(1, i as int),
        decreases toks@.len() - i,
    {
        let ghost prev = recv_args@;
        recv_args.push(toks[i].clone());
        proof {
            assert(views(recv_args@) =~= views(prev) + seq![toks@[i as int]@]);
            assert(views(recv_args@) =~= views(toks@).subrange(1, i + 1));
        }
        i = i + 1;
    }
    proof {
        assert(views(recv_args@) =~= tokens(snapshot_stream@).drop_first());
    }
    let mut send_args: Vec<String> = Vec::new();
    send_args.push(String::from_str("send"));
    let ghost source_view = snapshot_source@;
    send_args.push(snapshot_source);
    proof {
        assert(views(send_args@) =~= seq!["send"@, source_view]);
    }
    Some(
        (
            Invocation { program: String::from_str("zfs"), args: send_args },
            Invocation { program: recv_program, args: recv_args },
        ),
    )
}

/// How one finished command ended: the program ran and its combined output
/// was captured, or it could not be spawned at all.
pub enum CommandOutcome {
    Completed(String),
    SpawnFailed(String),
}

/// Decides what to show the operator after a state-changing command: a
/// spawn failure is always surfaced, any non-empty output is surfaced
/// verbatim as lines, and silence is the success case, surfacing nothing.
pub fn surface_outcome(outcome: &CommandOutcome) -> (r: Option<Vec<String>>)
    ensures
        match outcome {
            CommandOutcome::SpawnFailed(program) => r matches Some(lines) && views(lines@)
                == seq!["Failed to run: "@ + program@],
            CommandOutcome::Completed(text) => {
                if text@.len() == 0 {
                    r is None
                } else {
                    r matches Some(lines) && views(lines@) == split_lines(text@)
                }
            },
        },
{
    match outcome {
        CommandOutcome::SpawnFailed(program) => {
            let mut message = String::from_str("Failed to run: ");
            message.append(program.as_str());
            let mut lines: Vec<String> = Vec::new();
            lines.push(message);
            proof {
                assert(views(lines@) =~= seq!["Failed to run: "@ + program@]);
            }
            Some(lines)
        },
        CommandOutcome::Completed(text) => {
            if text.as_str().unicode_len() == 0 {
                None
            } else {
                Some(list(text.as_str()))
            }
        },
    }
}

} // verus!
