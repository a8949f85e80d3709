//! The size accountant: the bytes that a directory tree holds, and how a
//! byte count is shown.

use crate::text::{decimal, decimal_string};
use vstd::prelude::*;
use vstd::string::*;

verus! {

/// What a caller found at a path: a snapshot of the tree below it, taken
/// without following what could not be read.
#[derive(Debug, PartialEq, Eq)]
pub enum FsNode {
    /// Nothing exists at the path.
    Missing,
    /// A regular file of `len` bytes.
    File { len: u64 },
    /// A directory and the entries that could be listed in it.
    Dir { entries: Vec<FsNode> },
    /// Something that is neither, or that could not be examined.
    Other,
}

/// The bytes of the regular files at and below `node`.
pub open spec fn tree_bytes(node: FsNode) -> nat
    decreases node,
{
    match node {
        FsNode::File { len } => len as nat,
        FsNode::Dir { entries } => entries_bytes(entries@),
        _ => 0,
    }
}

/// The bytes of the regular files at and below the nodes of `entries`.
pub open spec fn entries_bytes(entries: Seq<FsNode>) -> nat
    decreases entries,
{
    if entries.len() == 0 {
        0
    } else {
        entries_bytes(entries.drop_last()) + tree_bytes(entries.last())
    }
}

/// The size of the directory at `node`: the bytes of the regular files
/// below it. What is no directory has size zero, a file too.
pub open spec fn directory_bytes(node: FsNode) -> nat {
    match node {
        FsNode::Dir { entries } => entries_bytes(entries@),
        _ => 0,
    }
}

/// A byte count as far as 64 bits hold it.
pub open spec fn capped(n: nat) -> u64 {
    if n > u64::MAX {
        u64::MAX
    } else {
        n as u64
    }
}

/// Adds two byte counts, stopping at the largest that 64 bits hold.
pub fn add_sizes(a: u64, b: u64) -> (r: u64)
    ensures
        r == capped(a as nat + b as nat),
{
    a.saturating_add(b)
}

fn tree_size(node: &FsNode) -> (r: u64)
    ensures
        r == capped(tree_bytes(*node)),
    decreases *node,
{
    match node {
        FsNode::File { len } => *len,
        FsNode::Dir { entries } => entries_size(node, entries),
        _ => 0,
    }
}

fn entries_size(parent: &FsNode, entries: &Vec<FsNode>) -> (r: u64)
    requires
        decreases_to!(*parent => *entries),
    ensures
        r == capped(entries_bytes(entries@)),
    decreases *parent, 0nat,
{
    let mut total: u64 = 0;
    let mut i: usize = 0;
    while i < entries.len()
        invariant
            i <= entries.len(),
            total == capped(entries_bytes(entries@.take(i as int))),
            decreases_to!(*parent => *entries),
        decreases entries.len() - i,
    {
        assert(entries@.take(i + 1).drop_last() =~= entries@.take(i as int));
        assert(decreases_to!(*entries => entries[i as int]));
        let below = tree_size(&entries[i]);
        total = add_sizes(total, below);
        i = i + 1;
    }
    assert(entries@.take(i as int) =~= entries@);
    total
}

/// The size of a directory: the sum of the sizes of the regular files below
/// it, at any depth. Entries that could not be read count as nothing and
/// stop nothing. A sum beyond 64 bits is given as the largest 64-bit number.
pub fn get_directory_size(node: &FsNode) -> (r: u64)
    ensures
        r == capped(directory_bytes(*node)),
{
    match node {
        FsNode::Dir { entries } => tree_size(node),
        _ => 0,
    }
}

/// The bytes below two runs of entries add up, so no entry changes what
/// another one counts for.
pub proof fn lemma_entries_bytes_add_up(first: Seq<FsNode>, second: Seq<FsNode>)
    ensures
        entries_bytes(first + second) == entries_bytes(first) + entries_bytes(second),
    decreases second.len(),
{
    if second.len() == 0 {
        assert(first + second =~= first);
    } else {
        lemma_entries_bytes_add_up(first, second.drop_last());
        assert((first + second).drop_last() =~= first + second.drop_last());
        assert((first + second).last() == second.last());
    }
}

/// Whether `outer` holds `inner` and nothing beside it, `depth`
/// directories down.
pub open spec fn holds_only(outer: FsNode, inner: FsNode, depth: nat) -> bool
    decreases depth,
{
    if depth == 0 {
        outer == inner
    } else {
        match outer {
            FsNode::Dir { entries } => entries@.len() == 1 && holds_only(
                entries@[0],
                inner,
                (depth - 1) as nat,
            ),
            _ => false,
        }
    }
}

/// An empty directory has size zero.
pub proof fn lemma_empty_directory(node: FsNode)
    requires
        node matches FsNode::Dir { entries } && entries@.len() == 0,
    ensures
        directory_bytes(node) == 0,
{
}

/// A tree that holds nothing but one node holds the bytes of that node,
/// however deep the node lies.
pub proof fn lemma_depth_adds_nothing(outer: FsNode, inner: FsNode, depth: nat)
    requires
        holds_only(outer, inner, depth),
    ensures
        tree_bytes(outer) == tree_bytes(inner),
    decreases depth,
{
    if depth > 0 {
        match outer {
            FsNode::Dir { entries } => {
                lemma_depth_adds_nothing(entries@[0], inner, (depth - 1) as nat);
                assert(entries@.drop_last() =~= Seq::<FsNode>::empty());
                assert(entries_bytes(entries@) == entries_bytes(entries@.drop_last()) + tree_bytes(
                    entries@.last(),
                ));
            },
            _ => {},
        }
    }
}

/// A directory that holds nothing but one file has the size of that file,
/// at whatever depth the file lies.
pub proof fn lemma_single_file_directory(outer: FsNode, len: u64, depth: nat)
    requires
        depth > 0,
        holds_only(outer, FsNode::File { len }, depth),
    ensures
        directory_bytes(outer) == len,
        capped(directory_bytes(outer)) == len,
{
    lemma_depth_adds_nothing(outer, FsNode::File { len }, depth);
}

/// The bytes in a kilobyte, as sizes are shown here.
pub const KB: u64 = 1024;

/// The bytes in a megabyte.
pub const MB: u64 = 1048576;

/// The bytes in a gigabyte.
pub const GB: u64 = 1073741824;

/// The first byte count that a double-precision number cannot hold exactly
/// beside both of its neighbours: two to the power 53.
pub const EXACT_LIMIT: u64 = 0x20_0000_0000_0000;

/// `num / den` to the nearest whole number; a quotient halfway between two
/// whole numbers goes to the even one.
pub open spec fn nearest(num: nat, den: nat) -> nat
    recommends
        den > 0,
{
    let whole = num / den;
    let rest = num % den;
    if 2 * rest < den {
        whole
    } else if 2 * rest > den {
        whole + 1
    } else if whole % 2 == 0 {
        whole
    } else {
        whole + 1
    }
}

/// The distance between the double-precision numbers around `bytes`: one up
/// to two to the power 53, and twice as much with every doubling from there.
pub open spec fn spacing(bytes: nat) -> nat
    decreases bytes,
{
    if bytes < EXACT_LIMIT {
        1
    } else {
        2 * spacing(bytes / 2)
    }
}

/// The double-precision number nearest to `bytes`, which is a whole number.
pub open spec fn as_double(bytes: nat) -> nat {
    nearest(bytes, spacing(bytes)) * spacing(bytes)
}

/// A byte count as it is shown: bytes below 1024; whole kilobytes below
/// 1024 squared; whole megabytes below 1024 cubed; from there gigabytes with
/// one decimal. Kilobytes, megabytes and tenths of gigabytes are rounded to
/// the nearest, halves to the even neighbour. Gigabytes are taken from the
/// byte count as double precision holds it.
pub open spec fn size_text(bytes: nat) -> Seq<char> {
    if bytes >= GB {
        let tenths = nearest(as_double(bytes) * 10, GB as nat);
        decimal(tenths / 10) + "."@ + decimal(tenths % 10) + " GB"@
    } else if bytes >= MB {
        decimal(nearest(bytes, MB as nat)) + " MB"@
    } else if bytes >= KB {
        decimal(nearest(bytes, KB as nat)) + " KB"@
    } else {
        decimal(bytes) + " B"@
    }
}

fn round_nearest(num: u128, den: u128) -> (r: u128)
    requires
        0 < den <= 0x1_0000_0000_0000_0000,
        num <= 0x1_0000_0000_0000_0000_0000_0000,
    ensures
        r == nearest(num as nat, den as nat),
        r <= num,
        r * den <= 2 * num + den,
{
    let whole: u128 = num / den;
    let rest: u128 = num % den;
    assert(whole * den + rest == num) by (nonlinear_arith)
        requires
            whole == num / den,
            rest == num % den,
            den > 0,
    ;
    assert(whole <= num) by (nonlinear_arith)
        requires
            whole * den + rest == num,
            den > 0,
            rest >= 0,
            whole >= 0,
    ;
    let up: bool = if 2 * rest < den {
        false
    } else if 2 * rest > den {
        true
    } else {
        whole % 2 != 0
    };
    if up {
        assert(whole + 1 <= num) by (nonlinear_arith)
            requires
                whole * den + rest == num,
                2 * rest >= den,
                den > 0,
                whole >= 0,
        ;
        assert((whole + 1) * den <= 2 * num + den) by (nonlinear_arith)
            requires
                whole * den + rest == num,
                rest >= 0,
                den > 0,
                whole >= 0,
        ;
        whole + 1
    } else {
        assert(whole * den <= 2 * num + den) by (nonlinear_arith)
            requires
                whole * den + rest == num,
                rest >= 0,
                den > 0,
                whole >= 0,
        ;
        whole
    }
}

fn double_spacing(bytes: u64) -> (r: u128)
    ensures
        r == spacing(bytes as nat),
        1 <= r <= 4096,
{
    let mut step: u128 = 1;
    let mut rest: u64 = bytes;
    while rest >= EXACT_LIMIT
        invariant
            spacing(bytes as nat) == step * spacing(rest as nat),
            1 <= step <= 4096,
            step * rest <= bytes,
        decreases rest,
    {
        let ghost before = rest;
        let ghost inner = spacing((rest / 2) as nat);
        assert(step * (2 * inner) == (step * 2) * inner) by (nonlinear_arith);
        assert((step * 2) * (rest / 2) <= step * rest) by (nonlinear_arith)
            requires
                step >= 1,
                rest >= 0,
        ;
        assert(step <= 2048) by (nonlinear_arith)
            requires
                step * rest <= bytes,
                rest >= 0x20_0000_0000_0000,
                bytes < 0x1_0000_0000_0000_0000,
                step >= 1,
        ;
        rest = rest / 2;
        step = step * 2;
    }
    assert(step * 1 == step) by (nonlinear_arith);
    step
}

/// Shows a byte count for people: `"{n} B"`, `"{n} KB"`, `"{n} MB"` or
/// `"{n.d} GB"`.
pub fn format_size(bytes: u64) -> (r: String)
    ensures
        r@ == size_text(bytes as nat),
{
    if bytes >= GB {
        let step = double_spacing(bytes);
        let held: u128 = round_nearest(bytes as u128, step) * step;
        let tenths: u128 = round_nearest(held * 10, GB as u128);
        let mut text = decimal_string(tenths / 10);
        text.append(".");
        text.append(decimal_string(tenths % 10).as_str());
        text.append(" GB");
        text
    } else if bytes >= MB {
        let mut text = decimal_string(round_nearest(bytes as u128, MB as u128));
        text.append(" MB");
        text
    } else if bytes >= KB {
        let mut text = decimal_string(round_nearest(bytes as u128, KB as u128));
        text.append(" KB");
        text
    } else {
        let mut text = decimal_string(bytes as u128);
        text.append(" B");
        text
    }
}

} // verus!
