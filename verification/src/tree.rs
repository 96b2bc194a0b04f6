//! Forest reconstruction and tree-art rendering.
//!
//! A flat, ordered list of parent-linked records is partitioned into roots
//! (parent absent, or parent id not present in the input) and children
//! grouped by parent id, both preserving first-seen input order.  A
//! pre-order depth-first walk then emits one printable line per record:
//! an ancestor-derived box-drawing prefix, the record's `#id` display
//! string padded so that prefix and display together span a fixed width,
//! and the status label directly after.
//!
//! The walk carries a fuel bound (the number of records) as a defensive
//! guard: records whose parent chain never reaches a root — cyclic or
//! self-referential links, which only ill-formed snapshots contain — are
//! never reached, and duplicated ids cannot drive the walk forever.

use vstd::prelude::*;
use vstd::string::StrSliceExecFns;
use vstd::string::StringExecFns;
use crate::model::Fiber;
use crate::model::UIFiber;
use crate::text::dec_digits;
use crate::text::decimal_string;
use crate::text::spaces;
use crate::text::spaces_string;

verus! {

/// Width, in character cells, that prefix and display string span together.
pub const LABEL_WIDTH: usize = 13;

/// Whether some record of the snapshot carries this id.
pub open spec fn id_present(records: Seq<Fiber>, id: u64) -> bool {
    exists|k: int| 0 <= k < records.len() && records[k].id == id
}

/// A record is a root when its parent is absent or references an id that
/// no record of the input carries.
pub open spec fn is_root(records: Seq<Fiber>, i: int) -> bool {
    match records[i].parent_id {
        None => true,
        Some(p) => !id_present(records, p),
    }
}

/// Whether a child of `pid` still follows at or after position `j`.
pub open spec fn child_after(records: Seq<Fiber>, pid: u64, j: int) -> bool {
    exists|k: int| j <= k < records.len() && records[k].parent_id == Some(pid)
}

/// Whether a root still follows at or after position `j`.
pub open spec fn root_after(records: Seq<Fiber>, j: int) -> bool {
    exists|k: int| j <= k < records.len() && is_root(records, k)
}

/// One ancestor level of the prefix: a continuation bar while that
/// ancestor still has a later sibling pending, blank space otherwise.
pub open spec fn indent_seg(later: bool) -> Seq<char> {
    if later {
        "│ "@
    } else {
        "  "@
    }
}

/// The ancestor part of a line's prefix, outermost level first.
pub open spec fn indent_of(cont: Seq<bool>) -> Seq<char>
    decreases cont.len(),
{
    if cont.len() == 0 {
        Seq::empty()
    } else {
        indent_seg(cont.first()) + indent_of(cont.drop_first())
    }
}

/// The record's own level of the prefix: a tee while a later sibling is
/// pending, an elbow for the last sibling.
pub open spec fn own_marker(later: bool) -> Seq<char> {
    if later {
        "├─"@
    } else {
        "└─"@
    }
}

/// Prefix plus display string of one record, before padding.
pub open spec fn head_chars(records: Seq<Fiber>, i: int, cont: Seq<bool>, later: bool) -> Seq<
    char,
> {
    indent_of(cont) + own_marker(later) + "#"@ + dec_digits(records[i].id as int)
}

/// Right-pads with spaces up to the fixed label width; text already that
/// wide is left as it is.
pub open spec fn pad_to_width(s: Seq<char>) -> Seq<char> {
    if s.len() < LABEL_WIDTH {
        s + spaces((LABEL_WIDTH - s.len()) as nat)
    } else {
        s
    }
}

/// The full printable line of one record: padded prefix and display
/// string, then the status label with no separator.
pub open spec fn line_label(records: Seq<Fiber>, i: int, cont: Seq<bool>, later: bool) -> Seq<
    char,
> {
    pad_to_width(head_chars(records, i, cont, later)) + records[i].status.label_chars()
}

/// The rendered lines of the subtree rooted at record `i`: the record's
/// own line, then its children in input order, depth first.
pub open spec fn node_lines(
    records: Seq<Fiber>,
    i: int,
    cont: Seq<bool>,
    later: bool,
    fuel: nat,
) -> Seq<(Seq<char>, Seq<char>)>
    decreases fuel, records.len() - i, 0int,
{
    let line = (line_label(records, i, cont, later), records[i].dump@);
    if fuel == 0 {
        seq![line]
    } else {
        seq![line] + children_lines(records, records[i].id, 0, cont.push(later), (fuel - 1) as nat)
    }
}

/// The rendered lines of all children of `pid` from position `j` on,
/// each followed by its own subtree.
pub open spec fn children_lines(
    records: Seq<Fiber>,
    pid: u64,
    j: int,
    cont: Seq<bool>,
    fuel: nat,
) -> Seq<(Seq<char>, Seq<char>)>
    decreases fuel, records.len() - j, 1int,
{
    if j >= records.len() {
        Seq::empty()
    } else if records[j].parent_id == Some(pid) {
        node_lines(records, j, cont, child_after(records, pid, j + 1), fuel) + children_lines(
            records,
            pid,
            j + 1,
            cont,
            fuel,
        )
    } else {
        children_lines(records, pid, j + 1, cont, fuel)
    }
}

/// The rendered lines of all roots from position `j` on, each followed
/// by its subtree.
pub open spec fn roots_lines(records: Seq<Fiber>, j: int, fuel: nat) -> Seq<
    (Seq<char>, Seq<char>),
>
    decreases fuel, records.len() - j, 1int,
{
    if j >= records.len() {
        Seq::empty()
    } else if is_root(records, j) {
        node_lines(records, j, Seq::empty(), root_after(records, j + 1), fuel) + roots_lines(
            records,
            j + 1,
            fuel,
        )
    } else {
        roots_lines(records, j + 1, fuel)
    }
}

/// The whole rendered forest of a snapshot: label and dump text of each
/// emitted record, in depth-first order.
pub open spec fn tree_lines(records: Seq<Fiber>) -> Seq<(Seq<char>, Seq<char>)> {
    roots_lines(records, 0, records.len() as nat)
}

/// The rendered output matches the specified lines, label and dump both.
pub open spec fn lines_match(v: Seq<UIFiber>, l: Seq<(Seq<char>, Seq<char>)>) -> bool {
    v.len() == l.len() && forall|k: int|
        0 <= k < l.len() ==> v[k].label@ == l[k].0 && v[k].dump@ == l[k].1
}

fn is_id_present(records: &Vec<Fiber>, id: u64) -> (r: bool)
    ensures
        r == id_present(records@, id),
{
    let mut k: usize = 0;
    while k < records.len()
        invariant
            k <= records@.len(),
            forall|m: int| 0 <= m < k ==> records@[m].id != id,
        decreases records@.len() - k,
    {
        if records[k].id == id {
            return true;
        }
        k = k + 1;
    }
    false
}

fn is_root_at(records: &Vec<Fiber>, i: usize) -> (r: bool)
    requires
        i < records@.len(),
    ensures
        r == is_root(records@, i as int),
{
    match records[i].parent_id {
        None => true,
        Some(p) => !is_id_present(records, p),
    }
}

fn has_child_after(records: &Vec<Fiber>, pid: u64, j: usize) -> (r: bool)
    ensures
        r == child_after(records@, pid, j as int),
{
    let mut k: usize = j;
    while k < records.len()
        invariant
            j <= k,
            k <= records@.len() || k == j,
            forall|m: int| j <= m < k ==> records@[m].parent_id != Some(pid),
        decreases records@.len() - k,
    {
        match records[k].parent_id {
            Some(p) => {
                if p == pid {
                    return true;
                }
            },
            None => {},
        }
        k = k + 1;
    }
    false
}

fn has_root_after(records: &Vec<Fiber>, j: usize) -> (r: bool)
    ensures
        r == root_after(records@, j as int),
{
    let mut k: usize = j;
    while k < records.len()
        invariant
            j <= k,
            forall|m: int| j <= m < k ==> !is_root(records@, m),
        decreases records@.len() - k,
    {
        if is_root_at(records, k) {
            return true;
        }
        k = k + 1;
    }
    false
}

proof fn lemma_indent_snoc(cont: Seq<bool>, b: bool)
    ensures
        indent_of(cont.push(b)) == indent_of(cont) + indent_seg(b),
    decreases cont.len(),
{
    if cont.len() == 0 {
        assert(cont.push(b).first() == b);
        assert(cont.push(b).drop_first() =~= Seq::<bool>::empty());
        assert(indent_of(cont.push(b)) == indent_seg(b) + indent_of(Seq::<bool>::empty()));
        assert(indent_seg(b) + Seq::<char>::empty() =~= indent_seg(b));
        assert(indent_of(cont) + indent_seg(b) =~= indent_seg(b));
    } else {
        assert(cont.push(b).drop_first() =~= cont.drop_first().push(b));
        lemma_indent_snoc(cont.drop_first(), b);
        assert(indent_of(cont.push(b)) =~= indent_of(cont) + indent_seg(b));
    }
}

fn build_label(records: &Vec<Fiber>, i: usize, cont: &Vec<bool>, later: bool) -> (s: String)
    requires
        i < records@.len(),
    ensures
        s@ == line_label(records@, i as int, cont@, later),
{
    let mut s = String::new();
    let mut k: usize = 0;
    while k < cont.len()
        invariant
            k <= cont@.len(),
            s@ == indent_of(cont@.take(k as int)),
        decreases cont@.len() - k,
    {
        proof {
            assert(cont@.take(k + 1) =~= cont@.take(k as int).push(cont@[k as int]));
            lemma_indent_snoc(cont@.take(k as int), cont@[k as int]);
        }
        if cont[k] {
            s.append("│ ");
        } else {
            s.append("  ");
        }
        k = k + 1;
    }
    proof {
        assert(cont@.take(cont@.len() as int) =~= cont@);
    }
    if later {
        s.append("├─");
    } else {
        s.append("└─");
    }
    s.append("#");
    let digits = decimal_string(records[i].id);
    s.append(digits.as_str());
    assert(s@ == head_chars(records@, i as int, cont@, later));
    let width = s.as_str().unicode_len();
    if width < LABEL_WIDTH {
        let pad = spaces_string(LABEL_WIDTH - width);
        s.append(pad.as_str());
    }
    s.append(records[i].status.label());
    s
}

fn flags_with(cont: &Vec<bool>, later: bool) -> (r: Vec<bool>)
    ensures
        r@ == cont@.push(later),
{
    let mut r: Vec<bool> = Vec::new();
    let mut k: usize = 0;
    while k < cont.len()
        invariant
            k <= cont@.len(),
            r@ =~= cont@.take(k as int),
        decreases cont@.len() - k,
    {
        r.push(cont[k]);
        k = k + 1;
    }
    proof {
        assert(cont@.take(cont@.len() as int) =~= cont@);
    }
    r.push(later);
    r
}

fn emit_node(records: &Vec<Fiber>, i: usize, cont: &Vec<bool>, later: bool, fuel: usize) -> (out:
    Vec<UIFiber>)
    requires
        i < records@.len(),
    ensures
        lines_match(out@, node_lines(records@, i as int, cont@, later, fuel as nat)),
    decreases fuel, records@.len() - i, 0int,
{
    let label = build_label(records, i, cont, later);
    let dump = records[i].dump.clone();
    let mut out: Vec<UIFiber> = Vec::new();
    out.push(UIFiber { label, dump });
    if fuel > 0 {
        let cont2 = flags_with(cont, later);
        let mut rest = emit_children(records, records[i].id, 0, &cont2, fuel - 1);
        out.append(&mut rest);
    }
    out
}

fn emit_children(records: &Vec<Fiber>, pid: u64, j: usize, cont: &Vec<bool>, fuel: usize) -> (out:
    Vec<UIFiber>)
    ensures
        lines_match(out@, children_lines(records@, pid, j as int, cont@, fuel as nat)),
    decreases fuel, records@.len() - j, 1int,
{
    if j >= records.len() {
        Vec::new()
    } else {
        let is_child = match records[j].parent_id {
            Some(p) => p == pid,
            None => false,
        };
        if is_child {
            let later = has_child_after(records, pid, j + 1);
            let mut out = emit_node(records, j, cont, later, fuel);
            let mut rest = emit_children(records, pid, j + 1, cont, fuel);
            out.append(&mut rest);
            out
        } else {
            emit_children(records, pid, j + 1, cont, fuel)
        }
    }
}

fn emit_roots(records: &Vec<Fiber>, j: usize, fuel: usize) -> (out: Vec<UIFiber>)
    ensures
        lines_match(out@, roots_lines(records@, j as int, fuel as nat)),
    decreases fuel, records@.len() - j, 1int,
{
    if j >= records.len() {
        Vec::new()
    } else {
        if is_root_at(records, j) {
            let later = has_root_after(records, j + 1);
            let mut out = emit_node(records, j, &Vec::new(), later, fuel);
            let mut rest = emit_roots(records, j + 1, fuel);
            out.append(&mut rest);
            out
        } else {
            emit_roots(records, j + 1, fuel)
        }
    }
}

/// Renders the whole snapshot: one line per reached record, in pre-order
/// depth-first order, each paired with the record's dump text.
pub fn printable_tree(records: &Vec<Fiber>) -> (out: Vec<UIFiber>)
    ensures
        lines_match(out@, tree_lines(records@)),
{
    emit_roots(records, 0, records.len())
}

/// The line a root record contributes at the top level of the forest:
/// no ancestor prefix, tee or elbow by whether a later root follows.
pub open spec fn root_line(records: Seq<Fiber>, i: int) -> (Seq<char>, Seq<char>) {
    (
        line_label(records, i, Seq::empty(), root_after(records, i + 1)),
        records[i].dump@,
    )
}

proof fn lemma_root_emitted(records: Seq<Fiber>, j: int, fuel: nat, i: int)
    requires
        0 <= j <= i < records.len(),
        is_root(records, i),
    ensures
        exists|k: int|
            0 <= k < roots_lines(records, j, fuel).len() && roots_lines(records, j, fuel)[k]
                == root_line(records, i),
    decreases i - j,
{
    if j == i {
        let node = node_lines(records, i, Seq::empty(), root_after(records, i + 1), fuel);
        assert(node[0] == root_line(records, i));
        assert(roots_lines(records, j, fuel)[0] == root_line(records, i));
    } else {
        lemma_root_emitted(records, j + 1, fuel, i);
        let rest = roots_lines(records, j + 1, fuel);
        let k0 = choose|k: int| 0 <= k < rest.len() && rest[k] == root_line(records, i);
        if is_root(records, j) {
            let node = node_lines(records, j, Seq::empty(), root_after(records, j + 1), fuel);
            assert(roots_lines(records, j, fuel)[node.len() + k0] == root_line(records, i));
        } else {
            assert(roots_lines(records, j, fuel)[k0] == root_line(records, i));
        }
    }
}

/// A record whose parent is absent, or references an id that no record
/// of the input carries, is placed among the roots: the forest holds its
/// line rendered at the top level, with no ancestor prefix.
pub proof fn lemma_orphan_is_root(records: Seq<Fiber>, i: int)
    requires
        0 <= i < records.len(),
        records[i].parent_id matches Some(p) ==> !id_present(records, p),
    ensures
        is_root(records, i),
        exists|k: int|
            0 <= k < tree_lines(records).len() && tree_lines(records)[k] == root_line(records, i),
{
    lemma_root_emitted(records, 0, records.len() as nat, i);
    let fuel = records.len() as nat;
    assert(tree_lines(records) == roots_lines(records, 0, fuel));
    let k0 = choose|k: int|
        0 <= k < roots_lines(records, 0, fuel).len() && roots_lines(records, 0, fuel)[k]
            == root_line(records, i);
    assert(tree_lines(records)[k0] == root_line(records, i));
}

/// A record can reach a root along parent links within `d` steps: it is
/// itself a root, or some record carrying its parent's id can, in one
/// step fewer.
pub open spec fn rooted_within(records: Seq<Fiber>, i: int, d: nat) -> bool
    decreases d,
{
    if is_root(records, i) {
        true
    } else if d == 0 {
        false
    } else {
        match records[i].parent_id {
            Some(p) => exists|j: int|
                0 <= j < records.len() && records[j].id == p && rooted_within(
                    records,
                    j,
                    (d - 1) as nat,
                ),
            None => true,
        }
    }
}

/// A rooted snapshot: every record's parent chain reaches a root within
/// the snapshot — as in any well-formed dump, where ids are unique and
/// parent links carry no cycles.
pub open spec fn rooted_snapshot(records: Seq<Fiber>) -> bool {
    forall|i: int|
        0 <= i < records.len() ==> rooted_within(records, i, records.len() as nat)
}

/// Record `i` shows up in the rendered forest: some line is its label,
/// under some ancestor prefix, paired with its dump text.
pub open spec fn record_rendered(records: Seq<Fiber>, i: int) -> bool {
    exists|cont: Seq<bool>, later: bool|
        tree_lines(records).contains((line_label(records, i, cont, later), records[i].dump@))
}

/// Every line of the subtree walked from record `i` is a line of the
/// whole forest.
spec fn subtree_included(
    records: Seq<Fiber>,
    i: int,
    cont: Seq<bool>,
    later: bool,
    fuel: nat,
) -> bool {
    forall|l: (Seq<char>, Seq<char>)|
        #[trigger] node_lines(records, i, cont, later, fuel).contains(l) ==> tree_lines(
            records,
        ).contains(l)
}

proof fn lemma_concat_contains<A>(a: Seq<A>, b: Seq<A>, x: A)
    requires
        a.contains(x) || b.contains(x),
    ensures
        (a + b).contains(x),
{
    if a.contains(x) {
        let k = choose|k: int| 0 <= k < a.len() && a[k] == x;
        assert((a + b)[k] == x);
    } else {
        let k = choose|k: int| 0 <= k < b.len() && b[k] == x;
        assert((a + b)[a.len() + k] == x);
    }
}

proof fn lemma_child_subtree_in_children(
    records: Seq<Fiber>,
    pid: u64,
    m: int,
    i: int,
    cont: Seq<bool>,
    fuel: nat,
    l: (Seq<char>, Seq<char>),
)
    requires
        0 <= m <= i < records.len(),
        records[i].parent_id == Some(pid),
        node_lines(records, i, cont, child_after(records, pid, i + 1), fuel).contains(l),
    ensures
        children_lines(records, pid, m, cont, fuel).contains(l),
    decreases i - m,
{
    if m == i {
        lemma_concat_contains(
            node_lines(records, m, cont, child_after(records, pid, m + 1), fuel),
            children_lines(records, pid, m + 1, cont, fuel),
            l,
        );
    } else {
        lemma_child_subtree_in_children(records, pid, m + 1, i, cont, fuel, l);
        if records[m].parent_id == Some(pid) {
            lemma_concat_contains(
                node_lines(records, m, cont, child_after(records, pid, m + 1), fuel),
                children_lines(records, pid, m + 1, cont, fuel),
                l,
            );
        }
    }
}

proof fn lemma_root_subtree_in_roots(
    records: Seq<Fiber>,
    m: int,
    i: int,
    fuel: nat,
    l: (Seq<char>, Seq<char>),
)
    requires
        0 <= m <= i < records.len(),
        is_root(records, i),
        node_lines(records, i, Seq::empty(), root_after(records, i + 1), fuel).contains(l),
    ensures
        roots_lines(records, m, fuel).contains(l),
    decreases i - m,
{
    if m == i {
        lemma_concat_contains(
            node_lines(records, m, Seq::empty(), root_after(records, m + 1), fuel),
            roots_lines(records, m + 1, fuel),
            l,
        );
    } else {
        lemma_root_subtree_in_roots(records, m + 1, i, fuel, l);
        if is_root(records, m) {
            lemma_concat_contains(
                node_lines(records, m, Seq::empty(), root_after(records, m + 1), fuel),
                roots_lines(records, m + 1, fuel),
                l,
            );
        }
    }
}

proof fn lemma_rooted_included(records: Seq<Fiber>, i: int, d: nat)
    requires
        0 <= i < records.len(),
        rooted_within(records, i, d),
        d <= records.len(),
    ensures
        exists|cont: Seq<bool>, later: bool, fuel: nat|
            fuel + d >= records.len() && subtree_included(records, i, cont, later, fuel),
    decreases d,
{
    if is_root(records, i) {
        let fuel = records.len() as nat;
        let cont = Seq::<bool>::empty();
        let later = root_after(records, i + 1);
        assert forall|l: (Seq<char>, Seq<char>)|
            #[trigger] node_lines(records, i, cont, later, fuel).contains(l) implies tree_lines(
            records,
        ).contains(l) by {
            lemma_root_subtree_in_roots(records, 0, i, fuel, l);
        }
        assert(fuel + d >= records.len() && subtree_included(records, i, cont, later, fuel));
    } else {
        assert(d > 0);
        let p = records[i].parent_id.unwrap();
        let j = choose|j: int|
            0 <= j < records.len() && records[j].id == p && rooted_within(
                records,
                j,
                (d - 1) as nat,
            );
        lemma_rooted_included(records, j, (d - 1) as nat);
        let (cont_j, later_j, fuel_j): (Seq<bool>, bool, nat) = choose|
            cont: Seq<bool>,
            later: bool,
            fuel: nat,
        |
            fuel + (d - 1) >= records.len() && subtree_included(records, j, cont, later, fuel);
        assert(fuel_j >= 1);
        let cont_i = cont_j.push(later_j);
        let later_i = child_after(records, p, i + 1);
        let fuel_i = (fuel_j - 1) as nat;
        let line_j = (line_label(records, j, cont_j, later_j), records[j].dump@);
        assert forall|l: (Seq<char>, Seq<char>)|
            #[trigger] node_lines(records, i, cont_i, later_i, fuel_i).contains(
            l,
        ) implies tree_lines(records).contains(l) by {
            lemma_child_subtree_in_children(records, p, 0, i, cont_i, fuel_i, l);
            assert(node_lines(records, j, cont_j, later_j, fuel_j) == seq![line_j]
                + children_lines(records, p, 0, cont_i, fuel_i));
            lemma_concat_contains(
                seq![line_j],
                children_lines(records, p, 0, cont_i, fuel_i),
                l,
            );
            assert(node_lines(records, j, cont_j, later_j, fuel_j).contains(l));
        }
        assert(fuel_i + d >= records.len() && subtree_included(
            records,
            i,
            cont_i,
            later_i,
            fuel_i,
        ));
    }
}

/// Completeness of the walk: in a rooted snapshot each record is
/// rendered — the forest holds a line built from the record's id,
/// status and ancestry, paired with its dump text.
pub proof fn lemma_rooted_record_is_rendered(records: Seq<Fiber>, i: int)
    requires
        0 <= i < records.len(),
        rooted_within(records, i, records.len() as nat),
    ensures
        record_rendered(records, i),
{
    lemma_rooted_included(records, i, records.len() as nat);
    let (cont, later, fuel): (Seq<bool>, bool, nat) = choose|
        cont: Seq<bool>,
        later: bool,
        fuel: nat,
    |
        fuel + records.len() >= records.len() && subtree_included(records, i, cont, later, fuel);
    let node = node_lines(records, i, cont, later, fuel);
    let line = (line_label(records, i, cont, later), records[i].dump@);
    assert(node[0] == line);
    assert(node.contains(line));
    assert(tree_lines(records).contains(line));
}

/// Completeness over the whole snapshot: a rooted snapshot renders
/// every one of its records.
pub proof fn lemma_rooted_snapshot_renders_all(records: Seq<Fiber>)
    requires
        rooted_snapshot(records),
    ensures
        forall|i: int| 0 <= i < records.len() ==> record_rendered(records, i),
{
    assert forall|i: int| 0 <= i < records.len() implies record_rendered(records, i) by {
        lemma_rooted_record_is_rendered(records, i);
    }
}

/// Rendering is deterministic: any two outputs of the renderer for the
/// same flat record list hold the same lines, character for character —
/// there is no hidden ordering nondeterminism.
pub proof fn lemma_render_deterministic(records: Seq<Fiber>, out1: Seq<UIFiber>, out2: Seq<UIFiber>)
    requires
        lines_match(out1, tree_lines(records)),
        lines_match(out2, tree_lines(records)),
    ensures
        out1.len() == out2.len(),
        forall|k: int|
            0 <= k < out1.len() ==> out1[k].label@ == out2[k].label@ && out1[k].dump@
                == out2[k].dump@,
{
    assert forall|k: int|
        0 <= k < out1.len() implies out1[k].label@ == out2[k].label@ && out1[k].dump@
        == out2[k].dump@ by {
        assert(out1[k].label@ == tree_lines(records)[k].0);
        assert(out2[k].label@ == tree_lines(records)[k].0);
        assert(out1[k].dump@ == tree_lines(records)[k].1);
        assert(out2[k].dump@ == tree_lines(records)[k].1);
    }
}

} // verus!
