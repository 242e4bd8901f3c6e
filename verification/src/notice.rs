//! The constructs that the tree builder does not know.
//!
//! The builder does not stop at a production that it cannot read as a
//! statement or as a value: it puts a stand-in into the syntax tree, leaves a
//! notice and goes on. The notices come in the order in which the builder
//! comes to the nodes, which is the order of the source.

use vstd::prelude::*;
use crate::model::{StatementBodyView, StatementView};
use crate::shape::{child_role, statement_rule, value_rule, well_formed, Role};
use crate::syntax::{statement, statements};
use crate::tree::{ParseTree, Rule};

verus! {

/// What the builder tried to read a node as.
#[derive(Clone, Copy, Debug, PartialEq, Eq, Structural)]
pub enum Place {
    Statement,
    Value,
}

/// A node that the builder replaced by a stand-in: what it should have been,
/// its production and its lines.
#[derive(Clone, Copy, Debug, PartialEq, Eq)]
pub struct Notice {
    pub place: Place,
    pub rule: Rule,
    pub line: (usize, usize),
}

/// The notice that `n` itself gives rise to when it is read in `role`.
pub open spec fn own_notice(role: Role, n: ParseTree) -> Seq<Notice> {
    if role == Role::Statement && !statement_rule(n.rule) {
        seq![Notice { place: Place::Statement, rule: n.rule, line: n.line }]
    } else if role == Role::Value && !value_rule(n.rule) {
        seq![Notice { place: Place::Value, rule: n.rule, line: n.line }]
    } else {
        Seq::empty()
    }
}

/// The notices of `n` read in `role`: its own, then those of the children
/// that the builder goes on to, in source order.
pub open spec fn notices(role: Role, n: ParseTree) -> Seq<Notice>
    decreases n, n.children.len() + 1,
{
    own_notice(role, n) + child_notices(role, n, 0, n.children.len())
}

/// The notices of the children of `n` from child `from` up to, but without,
/// child `to`, when `n` is read in `role`.
pub open spec fn child_notices(role: Role, n: ParseTree, from: nat, to: nat) -> Seq<Notice>
    decreases n, to,
{
    if to <= from || to > n.children.len() {
        Seq::empty()
    } else {
        child_notices(role, n, from, (to - 1) as nat) + match child_role(role, n, to - 1) {
            Some(r) => notices(r, n.children[to - 1]),
            None => Seq::empty(),
        }
    }
}

/// The notices of child `j` of `n` when `n` is read in `role`.
pub open spec fn child_notice(role: Role, n: ParseTree, j: int) -> Seq<Notice> {
    match child_role(role, n, j) {
        Some(r) => notices(r, n.children[j]),
        None => Seq::empty(),
    }
}

/// The notices of `nodes`, each read in `role`, in their order.
pub open spec fn all_notices(role: Role, nodes: Seq<ParseTree>) -> Seq<Notice>
    decreases nodes.len(),
{
    if nodes.len() == 0 {
        Seq::empty()
    } else {
        all_notices(role, nodes.drop_last()) + notices(role, nodes.last())
    }
}

/// The notices of the first children of a node, child by child.
pub proof fn lemma_first_notices(role: Role, n: ParseTree)
    ensures
        child_notices(role, n, 0, 0) == Seq::<Notice>::empty(),
        1 <= n.children.len() ==> child_notices(role, n, 0, 1) == child_notice(role, n, 0),
        2 <= n.children.len() ==> child_notices(role, n, 0, 2) == child_notice(role, n, 0)
            + child_notice(role, n, 1),
        3 <= n.children.len() ==> child_notices(role, n, 0, 3) == child_notice(role, n, 0)
            + child_notice(role, n, 1) + child_notice(role, n, 2),
{
    assert(child_notices(role, n, 0, 0) =~= Seq::<Notice>::empty());
    if 1 <= n.children.len() {
        assert(child_notices(role, n, 0, 1) =~= child_notice(role, n, 0));
    }
    if 2 <= n.children.len() {
        assert(child_notices(role, n, 0, 2) =~= child_notice(role, n, 0) + child_notice(
            role,
            n,
            1,
        ));
    }
    if 3 <= n.children.len() {
        assert(child_notices(role, n, 0, 3) =~= child_notice(role, n, 0) + child_notice(
            role,
            n,
            1,
        ) + child_notice(role, n, 2));
    }
}

/// The notices of a range of children are those of its first part followed
/// by those of the rest.
pub proof fn lemma_notices_split(role: Role, n: ParseTree, from: nat, mid: nat, to: nat)
    requires
        from <= mid <= to <= n.children.len(),
    ensures
        child_notices(role, n, from, to) == child_notices(role, n, from, mid) + child_notices(
            role,
            n,
            mid,
            to,
        ),
    decreases to,
{
    if to > mid {
        lemma_notices_split(role, n, from, mid, (to - 1) as nat);
        let last = match child_role(role, n, to - 1) {
            Some(r) => notices(r, n.children[to - 1]),
            None => Seq::empty(),
        };
        assert(child_notices(role, n, from, to) =~= child_notices(role, n, from, mid)
            + (child_notices(role, n, mid, (to - 1) as nat) + last));
    } else {
        assert(child_notices(role, n, from, to) =~= child_notices(role, n, from, mid)
            + child_notices(role, n, mid, to));
    }
}

/// Children that the builder does not go on to leave no notice.
pub proof fn lemma_notices_of_none(role: Role, n: ParseTree, from: nat, to: nat)
    requires
        forall|j: int| from <= j < to && j < n.children.len() ==> child_role(role, n, j) is None,
    ensures
        child_notices(role, n, from, to) == Seq::<Notice>::empty(),
    decreases to,
{
    if from < to && to <= n.children.len() {
        lemma_notices_of_none(role, n, from, (to - 1) as nat);
        assert(child_role(role, n, to - 1) is None);
        assert(child_notices(role, n, from, to) =~= Seq::<Notice>::empty());
    }
}

/// Where the builder goes on to no child of `n` from child `k` on, the
/// notices of `n` are its own and those of its first `k` children.
pub proof fn lemma_notices_upto(role: Role, n: ParseTree, k: nat)
    requires
        k <= n.children.len(),
        forall|j: int| k <= j < n.children.len() ==> child_role(role, n, j) is None,
    ensures
        notices(role, n) == own_notice(role, n) + child_notices(role, n, 0, k),
{
    lemma_notices_split(role, n, 0, k, n.children.len());
    lemma_notices_of_none(role, n, k, n.children.len());
    assert(child_notices(role, n, 0, n.children.len()) =~= child_notices(role, n, 0, k));
}

/// Where the builder reads each child of a range in role `r`, the notices of
/// the range are those of its nodes read in `r`.
pub proof fn lemma_notices_of_all(role: Role, n: ParseTree, r: Role, from: nat, to: nat)
    requires
        from <= to <= n.children.len(),
        forall|j: int| from <= j < to ==> child_role(role, n, j) == Some(r),
    ensures
        child_notices(role, n, from, to) == all_notices(
            r,
            n.children.subrange(from as int, to as int),
        ),
    decreases to,
{
    let range = n.children.subrange(from as int, to as int);
    if from < to {
        lemma_notices_of_all(role, n, r, from, (to - 1) as nat);
        assert(range.drop_last() =~= n.children.subrange(from as int, to - 1));
        assert(range.last() == n.children[to - 1]);
        assert(child_role(role, n, to - 1) == Some(r));
    }
}

/// A node whose children the builder reads all in role `r` has, beside its
/// own, the notices of its children read in `r`.
pub proof fn lemma_notices_of_children(role: Role, n: ParseTree, r: Role)
    requires
        forall|j: int| 0 <= j < n.children.len() ==> child_role(role, n, j) == Some(r),
    ensures
        notices(role, n) == own_notice(role, n) + all_notices(r, n.children),
{
    lemma_notices_of_all(role, n, r, 0, n.children.len());
    assert(n.children.subrange(0, n.children.len() as int) =~= n.children);
}

/// A statement or a value of production `Expr` has the notices of the chain
/// that it is.
pub proof fn lemma_notices_of_chain(role: Role, n: ParseTree)
    requires
        role == Role::Statement || role == Role::Value,
        n.rule == Rule::Expr,
    ensures
        notices(role, n) == notices(Role::Expr, n),
{
    lemma_same_child_notices(role, Role::Expr, n, n.children.len());
}

/// Two roles in which the builder reads the children of `n` alike give the
/// same notices for them.
pub proof fn lemma_same_child_notices(one: Role, other: Role, n: ParseTree, to: nat)
    requires
        forall|j: int|
            0 <= j < n.children.len() ==> child_role(one, n, j) == child_role(other, n, j),
    ensures
        child_notices(one, n, 0, to) == child_notices(other, n, 0, to),
    decreases to,
{
    if 0 < to && to <= n.children.len() {
        lemma_same_child_notices(one, other, n, (to - 1) as nat);
        assert(child_role(one, n, to - 1) == child_role(other, n, to - 1));
    }
}

/// A production that is no statement does not stop the builder. Where such a
/// node stands among `nodes`, the statement `EOI` stands among the
/// statements, with one notice for it; every other statement is what its
/// own node stands for, and without the node the same statements remain.
pub proof fn lemma_unknown_statement(nodes: Seq<ParseTree>, i: int)
    requires
        0 <= i < nodes.len(),
        !statement_rule(nodes[i].rule),
    ensures
        well_formed(Role::Statement, nodes[i]),
        statements(nodes).len() == nodes.len(),
        statements(nodes)[i] == (StatementView {
            body: StatementBodyView::EOI,
            arrow: false,
            line: nodes[i].line,
        }),
        notices(Role::Statement, nodes[i]) == seq![
            Notice { place: Place::Statement, rule: nodes[i].rule, line: nodes[i].line },
        ],
        forall|j: int| 0 <= j < nodes.len() ==> statements(nodes)[j] == statement(nodes[j]),
        statements(nodes.remove(i)) == statements(nodes).remove(i),
{
    let n = nodes[i];
    assert(well_formed(Role::Statement, n));
    lemma_notices_upto(Role::Statement, n, 0);
    assert(notices(Role::Statement, n) =~= seq![
        Notice { place: Place::Statement, rule: n.rule, line: n.line },
    ]);
    assert(statements(nodes.remove(i)) =~= statements(nodes).remove(i));
}

} // verus!
