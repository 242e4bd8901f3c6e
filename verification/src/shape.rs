//! The shapes of parse tree that the tree builder can read.
//!
//! The builder reads each node in one role: as a statement, as a value, as a
//! step of a postfix chain, and so on. The role and the production of a node
//! fix how many children the node must have and in which role each child is
//! read. A tree is well formed in a role if every node that the builder
//! reaches from there has the shape that its role asks for.

use vstd::prelude::*;
use crate::text::{
    class_of, float_text, is_float_text, operator_of, parse_class, parse_operator, parse_u16,
    u16_of,
};
use crate::tree::{forest, lemma_forest, lemma_node, ParseNode, ParseTree, Rule};

verus! {

/// What the builder reads a node as.
#[derive(Clone, Copy, Debug, PartialEq, Eq, Structural)]
pub enum Role {
    /// A node whose children are statements.
    Block,
    Statement,
    /// A node whose children are the entries of a dictionary.
    Entries,
    /// One entry of a dictionary.
    Entry,
    /// A chain of operands and binary operators.
    Expr,
    /// One operand of an expression: a value and its postfix chain.
    Operand,
    Value,
    /// One step of a postfix chain.
    Path,
    /// A named property with its argument list.
    Prop,
    /// A node whose children are arguments.
    Args,
    Arg,
    /// A node whose children are the parameters of a macro.
    Params,
    Param,
    /// A key and a value of an object literal.
    ObjProp,
    /// The token of a binary operator.
    Operator,
    /// The letter that names the class of a handle.
    Class,
    /// The number of a handle.
    Number,
}

/// Whether the builder knows how to read production `rule` as a statement.
pub open spec fn statement_rule(rule: Rule) -> bool {
    rule == Rule::Def || rule == Rule::Call || rule == Rule::IfStmt || rule == Rule::AddObj
        || rule == Rule::Implement || rule == Rule::Expr || rule == Rule::Retrn || rule
        == Rule::EOI
}

/// Whether the builder knows how to read production `rule` as a value.
pub open spec fn value_rule(rule: Rule) -> bool {
    rule == Rule::Id || rule == Rule::MacroDef || rule == Rule::Number || rule == Rule::Bool
        || rule == Rule::Dictionary || rule == Rule::CmpStmt || rule == Rule::Obj || rule
        == Rule::ValueLiteral || rule == Rule::Variable || rule == Rule::Expr || rule
        == Rule::Symbol || rule == Rule::Str || rule == Rule::Array || rule == Rule::Import
}

/// Whether the first child of `n` is a name.
pub open spec fn named(n: ParseTree) -> bool {
    n.children.len() > 0 && n.children[0].rule == Rule::Symbol
}

/// The place of the value among the children of a node that binds one: behind
/// the name if the node starts with a name, else in front.
pub open spec fn value_at(n: ParseTree) -> int {
    if named(n) {
        1
    } else {
        0
    }
}

/// The shape of a node that binds a value: a name followed by the value, or
/// an expression alone.
pub open spec fn binding_ok(n: ParseTree) -> bool {
    if named(n) {
        n.children.len() >= 2
    } else {
        n.children.len() >= 1 && n.children[0].rule == Rule::Expr
    }
}

/// The number of operator tokens among `c`.
pub open spec fn operator_count(c: Seq<ParseTree>) -> nat
    decreases c.len(),
{
    if c.len() == 0 {
        0
    } else {
        operator_count(c.drop_last()) + if c.last().rule == Rule::Operator {
            1nat
        } else {
            0nat
        }
    }
}

/// The shape of a chain: one operand more than it has operators.
pub open spec fn chain_ok(n: ParseTree) -> bool {
    n.children.len() == 2 * operator_count(n.children) + 1
}

/// Whether `n` has the number of children, and the text, that a node read in
/// `role` must have.
pub open spec fn shape_ok(role: Role, n: ParseTree) -> bool {
    let c = n.children;
    match role {
        Role::Block | Role::Entries | Role::Args | Role::Params => true,
        Role::Statement => match n.rule {
            Rule::Def => binding_ok(n),
            Rule::Call | Rule::AddObj => c.len() >= 1,
            Rule::IfStmt | Rule::Implement => c.len() >= 2,
            Rule::Expr => chain_ok(n),
            _ => true,
        },
        Role::Entry => n.rule == Rule::Def && binding_ok(n),
        Role::Expr => chain_ok(n),
        Role::Operand => c.len() >= 1,
        Role::Value => match n.rule {
            Rule::Id => c.len() >= 1 && (c[0].rule == Rule::Number ==> c.len() >= 2),
            Rule::Number => float_text(n.text),
            Rule::MacroDef => c.len() >= 2,
            Rule::ValueLiteral | Rule::Variable | Rule::Import => c.len() >= 1,
            Rule::Expr => chain_ok(n),
            _ => true,
        },
        Role::Path => match n.rule {
            Rule::Symbol | Rule::Arguments => true,
            Rule::Index => c.len() >= 1,
            _ => false,
        },
        Role::Prop | Role::ObjProp => c.len() >= 2,
        Role::Arg => binding_ok(n),
        Role::Param => c.len() >= 1,
        Role::Operator => operator_of(n.text) is Some,
        Role::Class => class_of(n.text) is Some,
        Role::Number => u16_of(n.text) is Some,
    }
}

/// The role of a child of a chain.
pub open spec fn chain_child(child: ParseTree) -> Option<Role> {
    if child.rule == Rule::Operator {
        Some(Role::Operator)
    } else {
        Some(Role::Operand)
    }
}

/// The role of child `i` of a node that binds a value. With `props` the
/// children behind the value are properties.
pub open spec fn binding_child(n: ParseTree, i: int, props: bool) -> Option<Role> {
    if i == value_at(n) {
        Some(Role::Expr)
    } else if i > value_at(n) && props {
        Some(Role::Prop)
    } else {
        None
    }
}

/// The role in which the builder reads child `i` of `n` when it reads `n` in
/// `role`; `None` where it reads at most the text of that child.
pub open spec fn child_role(role: Role, n: ParseTree, i: int) -> Option<Role> {
    let c = n.children;
    match role {
        Role::Block => Some(Role::Statement),
        Role::Statement => match n.rule {
            Rule::Def => binding_child(n, i, true),
            Rule::Call => if i == 0 {
                Some(Role::Operand)
            } else {
                None
            },
            Rule::IfStmt => if i == 0 {
                Some(Role::Expr)
            } else if i <= 2 {
                Some(Role::Block)
            } else {
                None
            },
            Rule::AddObj | Rule::Retrn => if i == 0 {
                Some(Role::Expr)
            } else {
                None
            },
            Rule::Implement => if i == 0 {
                Some(Role::Operand)
            } else if i == 1 {
                Some(Role::Entries)
            } else {
                None
            },
            Rule::Expr => chain_child(c[i]),
            _ => None,
        },
        Role::Entries => Some(Role::Entry),
        Role::Entry => binding_child(n, i, false),
        Role::Expr => chain_child(c[i]),
        Role::Operand => if i == 0 {
            Some(Role::Value)
        } else {
            Some(Role::Path)
        },
        Role::Value => match n.rule {
            Rule::Id => if c[0].rule == Rule::Number {
                if i == 0 {
                    Some(Role::Number)
                } else if i == 1 {
                    Some(Role::Class)
                } else {
                    None
                }
            } else if i == 0 {
                Some(Role::Class)
            } else {
                None
            },
            Rule::MacroDef => if i == 0 {
                Some(Role::Params)
            } else if i == 1 {
                Some(Role::Block)
            } else {
                None
            },
            Rule::Dictionary => Some(Role::Entry),
            Rule::CmpStmt => Some(Role::Statement),
            Rule::Obj => Some(Role::ObjProp),
            Rule::ValueLiteral | Rule::Variable => if i == 0 {
                Some(Role::Value)
            } else {
                None
            },
            Rule::Expr => chain_child(c[i]),
            Rule::Array => Some(Role::Expr),
            _ => None,
        },
        Role::Path => match n.rule {
            Rule::Index => if i == 0 {
                Some(Role::Expr)
            } else {
                None
            },
            Rule::Arguments => Some(Role::Arg),
            _ => None,
        },
        Role::Prop => if i == 1 {
            Some(Role::Args)
        } else {
            None
        },
        Role::Args => Some(Role::Arg),
        Role::Arg => binding_child(n, i, false),
        Role::Params => Some(Role::Param),
        Role::Param => if i == 1 {
            Some(Role::Expr)
        } else {
            None
        },
        Role::ObjProp => if i <= 1 {
            Some(Role::Expr)
        } else {
            None
        },
        Role::Operator | Role::Class | Role::Number => None,
    }
}

/// Whether the builder can read `n` in `role`: `n` has the shape of the role
/// and every child that the builder goes on to is well formed in its own.
pub open spec fn well_formed(role: Role, n: ParseTree) -> bool
    decreases n,
{
    &&& shape_ok(role, n)
    &&& forall|i: int|
        0 <= i < n.children.len() ==> match #[trigger] child_role(role, n, i) {
            Some(r) => well_formed(r, n.children[i]),
            None => true,
        }
}

/// Whether the builder can read each of `nodes` in `role`.
pub open spec fn all_well_formed(role: Role, nodes: Seq<ParseTree>) -> bool {
    forall|i: int| 0 <= i < nodes.len() ==> well_formed(role, #[trigger] nodes[i])
}

/// A child of a well-formed node is well formed in the role in which the
/// builder reads it.
pub proof fn lemma_child(role: Role, n: ParseTree, i: int)
    requires
        well_formed(role, n),
        0 <= i < n.children.len(),
    ensures
        match child_role(role, n, i) {
            Some(r) => well_formed(r, n.children[i]),
            None => true,
        },
{
}

/// Where the builder reads every child of a well-formed node in role `r`,
/// all the children are well formed in `r`.
pub proof fn lemma_children(role: Role, n: ParseTree, r: Role)
    requires
        well_formed(role, n),
        forall|i: int| 0 <= i < n.children.len() ==> child_role(role, n, i) == Some(r),
    ensures
        all_well_formed(r, n.children),
{
    assert forall|i: int| 0 <= i < n.children.len() implies well_formed(
        r,
        #[trigger] n.children[i],
    ) by {
        lemma_child(role, n, i);
    }
}

/// A statement or a value of production `Expr` is a well-formed chain.
pub proof fn lemma_chain(role: Role, n: ParseTree)
    requires
        well_formed(role, n),
        role == Role::Statement || role == Role::Value,
        n.rule == Rule::Expr,
    ensures
        well_formed(Role::Expr, n),
{
    assert forall|i: int| 0 <= i < n.children.len() implies match #[trigger] child_role(
        Role::Expr,
        n,
        i,
    ) {
        Some(r) => well_formed(r, n.children[i]),
        None => true,
    } by {
        lemma_child(role, n, i);
    }
}

/// Counts the operator tokens among `nodes`.
fn count_operators(nodes: &Vec<ParseNode>) -> (count: usize)
    ensures
        count == operator_count(forest(nodes@)),
        count <= nodes.len(),
{
    let ghost c = forest(nodes@);
    let mut count: usize = 0;
    for i in 0..nodes.len()
        invariant
            c == forest(nodes@),
            count == operator_count(c.take(i as int)),
            count <= i,
    {
        proof {
            lemma_forest(nodes@);
            lemma_node(&nodes[i as int]);
            assert(c.take(i + 1).drop_last() =~= c.take(i as int));
        }
        if nodes[i].rule == Rule::Operator {
            count += 1;
        }
    }
    proof {
        lemma_forest(nodes@);
        assert(c.take(c.len() as int) =~= c);
    }
    count
}

/// Tells whether `node` has the shape of a chain.
fn chain_holds(node: &ParseNode) -> (ok: bool)
    ensures
        ok == chain_ok(node@),
{
    proof {
        lemma_node(node);
    }
    let count = count_operators(&node.children);
    count < node.children.len() && node.children.len() - count - 1 == count
}

/// Tells whether `node` has the shape of a node that binds a value.
fn binding_holds(node: &ParseNode) -> (ok: bool)
    ensures
        ok == binding_ok(node@),
{
    proof {
        lemma_node(node);
    }
    if node.children.len() == 0 {
        false
    } else if node.children[0].rule == Rule::Symbol {
        node.children.len() >= 2
    } else {
        node.children[0].rule == Rule::Expr
    }
}

/// Tells whether `node` has the shape that `role` asks for.
fn shape_holds(role: Role, node: &ParseNode) -> (ok: bool)
    ensures
        ok == shape_ok(role, node@),
{
    proof {
        lemma_node(node);
    }
    let len = node.children.len();
    match role {
        Role::Block | Role::Entries | Role::Args | Role::Params => true,
        Role::Statement => match node.rule {
            Rule::Def => binding_holds(node),
            Rule::Call | Rule::AddObj => len >= 1,
            Rule::IfStmt | Rule::Implement => len >= 2,
            Rule::Expr => chain_holds(node),
            _ => true,
        },
        Role::Entry => node.rule == Rule::Def && binding_holds(node),
        Role::Expr => chain_holds(node),
        Role::Operand => len >= 1,
        Role::Value => match node.rule {
            Rule::Id => len >= 1 && (node.children[0].rule != Rule::Number || len >= 2),
            Rule::Number => is_float_text(node.text.as_str()),
            Rule::MacroDef => len >= 2,
            Rule::ValueLiteral | Rule::Variable | Rule::Import => len >= 1,
            Rule::Expr => chain_holds(node),
            _ => true,
        },
        Role::Path => match node.rule {
            Rule::Symbol | Rule::Arguments => true,
            Rule::Index => len >= 1,
            _ => false,
        },
        Role::Prop | Role::ObjProp => len >= 2,
        Role::Arg => binding_holds(node),
        Role::Param => len >= 1,
        Role::Operator => parse_operator(node.text.as_str()).is_some(),
        Role::Class => parse_class(node.text.as_str()).is_some(),
        Role::Number => parse_u16(node.text.as_str()).is_some(),
    }
}

/// The role of a child of a chain.
fn chain_child_of(child: &ParseNode) -> (role: Option<Role>)
    ensures
        role == chain_child(child@),
{
    proof {
        lemma_node(child);
    }
    if child.rule == Rule::Operator {
        Some(Role::Operator)
    } else {
        Some(Role::Operand)
    }
}

/// The role of child `i` of a node that binds a value.
fn binding_child_of(node: &ParseNode, i: usize, props: bool) -> (role: Option<Role>)
    requires
        i < node.children.len(),
    ensures
        role == binding_child(node@, i as int, props),
{
    proof {
        lemma_node(node);
    }
    let value: usize = if node.children[0].rule == Rule::Symbol {
        1
    } else {
        0
    };
    if i == value {
        Some(Role::Expr)
    } else if i > value && props {
        Some(Role::Prop)
    } else {
        None
    }
}

/// The role in which the builder reads child `i` of `node` when it reads
/// `node` in `role`.
fn child_role_of(role: Role, node: &ParseNode, i: usize) -> (child: Option<Role>)
    requires
        i < node.children.len(),
    ensures
        child == child_role(role, node@, i as int),
{
    proof {
        lemma_node(node);
    }
    match role {
        Role::Block => Some(Role::Statement),
        Role::Statement => match node.rule {
            Rule::Def => binding_child_of(node, i, true),
            Rule::Call => if i == 0 {
                Some(Role::Operand)
            } else {
                None
            },
            Rule::IfStmt => if i == 0 {
                Some(Role::Expr)
            } else if i <= 2 {
                Some(Role::Block)
            } else {
                None
            },
            Rule::AddObj | Rule::Retrn => if i == 0 {
                Some(Role::Expr)
            } else {
                None
            },
            Rule::Implement => if i == 0 {
                Some(Role::Operand)
            } else if i == 1 {
                Some(Role::Entries)
            } else {
                None
            },
            Rule::Expr => chain_child_of(&node.children[i]),
            _ => None,
        },
        Role::Entries => Some(Role::Entry),
        Role::Entry => binding_child_of(node, i, false),
        Role::Expr => chain_child_of(&node.children[i]),
        Role::Operand => if i == 0 {
            Some(Role::Value)
        } else {
            Some(Role::Path)
        },
        Role::Value => match node.rule {
            Rule::Id => if node.children[0].rule == Rule::Number {
                if i == 0 {
                    Some(Role::Number)
                } else if i == 1 {
                    Some(Role::Class)
                } else {
                    None
                }
            } else if i == 0 {
                Some(Role::Class)
            } else {
                None
            },
            Rule::MacroDef => if i == 0 {
                Some(Role::Params)
            } else if i == 1 {
                Some(Role::Block)
            } else {
                None
            },
            Rule::Dictionary => Some(Role::Entry),
            Rule::CmpStmt => Some(Role::Statement),
            Rule::Obj => Some(Role::ObjProp),
            Rule::ValueLiteral | Rule::Variable => if i == 0 {
                Some(Role::Value)
            } else {
                None
            },
            Rule::Expr => chain_child_of(&node.children[i]),
            Rule::Array => Some(Role::Expr),
            _ => None,
        },
        Role::Path => match node.rule {
            Rule::Index => if i == 0 {
                Some(Role::Expr)
            } else {
                None
            },
            Rule::Arguments => Some(Role::Arg),
            _ => None,
        },
        Role::Prop => if i == 1 {
            Some(Role::Args)
        } else {
            None
        },
        Role::Args => Some(Role::Arg),
        Role::Arg => binding_child_of(node, i, false),
        Role::Params => Some(Role::Param),
        Role::Param => if i == 1 {
            Some(Role::Expr)
        } else {
            None
        },
        Role::ObjProp => if i <= 1 {
            Some(Role::Expr)
        } else {
            None
        },
        Role::Operator | Role::Class | Role::Number => None,
    }
}

/// Tells whether the builder can read `node` in `role`.
pub fn check(role: Role, node: &ParseNode) -> (ok: bool)
    ensures
        ok == well_formed(role, node@),
    decreases node,
{
    proof {
        lemma_node(node);
    }
    if !shape_holds(role, node) {
        return false;
    }
    for i in 0..node.children.len()
        invariant
            shape_ok(role, node@),
            node@.children.len() == node.children.len(),
            forall|j: int|
                0 <= j < i ==> match #[trigger] child_role(role, node@, j) {
                    Some(r) => well_formed(r, node@.children[j]),
                    None => true,
                },
    {
        proof {
            lemma_node(node);
        }
        match child_role_of(role, node, i) {
            Some(r) => {
                if !check(r, &node.children[i]) {
                    assert(child_role(role, node@, i as int) == Some(r));
                    return false;
                }
            },
            None => {},
        }
    }
    true
}

/// Tells whether the builder can read each of `nodes` in `role`.
pub fn check_all(role: Role, nodes: &Vec<ParseNode>) -> (ok: bool)
    ensures
        ok == all_well_formed(role, forest(nodes@)),
{
    for i in 0..nodes.len()
        invariant
            forall|j: int| 0 <= j < i ==> well_formed(role, #[trigger] forest(nodes@)[j]),
    {
        proof {
            lemma_forest(nodes@);
        }
        if !check(role, &nodes[i]) {
            assert(!well_formed(role, forest(nodes@)[i as int]));
            return false;
        }
    }
    proof {
        lemma_forest(nodes@);
    }
    true
}

} // verus!
