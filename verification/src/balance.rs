//! The balance of operands and operators.
//!
//! An expression is balanced if it has one operand more than it has
//! operators, so that an operator stands between each two neighbouring
//! operands and nowhere else. A piece of syntax tree is balanced if every
//! expression in it is, however deep it is nested.

use vstd::prelude::*;
use crate::model::{
    lookup, ArgDefView, ArgumentView, CompoundStatementView, DictDefView, ExpressionView,
    MacroView, PathView, StatementBodyView, StatementView, TagView, ValueLiteralView,
    VariableView,
};
use crate::shape::{
    all_well_formed, lemma_chain, lemma_child, lemma_children, named, operator_count, value_at,
    well_formed, Role,
};
use crate::syntax::{
    arguments, definition, entries, entry, expression, expressions, no_tags, null_expression,
    obj_props, operands, operators, params, path, prop, props, statement, statements, value,
    variable,
};
use crate::tree::{ParseTree, Rule};

verus! {

/// Whether `e`, if there is one, is balanced.
pub open spec fn optional_balanced(e: Option<ExpressionView>) -> bool
    decreases e,
{
    match e {
        Some(e) => expression_balanced(e),
        None => true,
    }
}

/// Whether `e` has one operand more than operators and every operand of it
/// is balanced.
pub open spec fn expression_balanced(e: ExpressionView) -> bool
    decreases e,
{
    &&& e.values.len() == e.operators.len() + 1
    &&& forall|i: int| 0 <= i < e.values.len() ==> variable_balanced(#[trigger] e.values[i])
}

/// Whether the value of `v` and every step of its postfix chain are balanced.
pub open spec fn variable_balanced(v: VariableView) -> bool
    decreases v,
{
    &&& value_balanced(v.value)
    &&& forall|i: int| 0 <= i < v.path.len() ==> path_balanced(#[trigger] v.path[i])
}

/// Whether every expression in `p` is balanced.
pub open spec fn path_balanced(p: PathView) -> bool
    decreases p,
{
    match p {
        PathView::Member(_) => true,
        PathView::Index(e) => expression_balanced(e),
        PathView::Call(args) => arguments_balanced(args),
    }
}

/// Whether the value of each of `args` is balanced.
pub open spec fn arguments_balanced(args: Seq<ArgumentView>) -> bool
    decreases args,
{
    forall|i: int| 0 <= i < args.len() ==> expression_balanced((#[trigger] args[i]).value)
}

/// Whether the arguments of every property of `t` are balanced.
pub open spec fn tag_balanced(t: TagView) -> bool
    decreases t,
{
    forall|i: int| 0 <= i < t.tags.len() ==> arguments_balanced((#[trigger] t.tags[i]).1)
}

/// Whether every expression in the entry `d` is balanced.
pub open spec fn dict_def_balanced(d: DictDefView) -> bool
    decreases d,
{
    match d {
        DictDefView::Def(def) => expression_balanced(def.1),
        DictDefView::Extract(e) => expression_balanced(e),
    }
}

/// Whether each of the entries `d` is balanced.
pub open spec fn dict_defs_balanced(d: Seq<DictDefView>) -> bool
    decreases d,
{
    forall|i: int| 0 <= i < d.len() ==> dict_def_balanced(#[trigger] d[i])
}

/// Whether every expression in the parameter `a` is balanced.
pub open spec fn arg_def_balanced(a: ArgDefView) -> bool
    decreases a,
{
    &&& optional_balanced(a.1)
    &&& tag_balanced(a.2)
    &&& optional_balanced(a.3)
}

/// Whether every expression in the macro `m` is balanced.
pub open spec fn macro_balanced(m: MacroView) -> bool
    decreases m,
{
    &&& forall|i: int| 0 <= i < m.args.len() ==> arg_def_balanced(#[trigger] m.args[i])
    &&& statements_balanced(m.body.statements)
    &&& tag_balanced(m.properties)
}

/// Whether every expression in the value `v` is balanced.
pub open spec fn value_balanced(v: ValueLiteralView) -> bool
    decreases v,
{
    match v {
        ValueLiteralView::CmpStmt(c) => statements_balanced(c.statements),
        ValueLiteralView::Dictionary(d) => dict_defs_balanced(d),
        ValueLiteralView::Expression(e) => expression_balanced(e),
        ValueLiteralView::Array(a) => forall|i: int|
            0 <= i < a.len() ==> expression_balanced(#[trigger] a[i]),
        ValueLiteralView::Obj(o) => forall|i: int|
            0 <= i < o.len() ==> expression_balanced((#[trigger] o[i]).0) && expression_balanced(
                o[i].1,
            ),
        ValueLiteralView::Macro(m) => macro_balanced(m),
        _ => true,
    }
}

/// Whether each of the statements `s` is balanced.
pub open spec fn statements_balanced(s: Seq<StatementView>) -> bool
    decreases s,
{
    forall|i: int| 0 <= i < s.len() ==> statement_balanced(#[trigger] s[i])
}

/// Whether every expression in the statement `s` is balanced.
pub open spec fn statement_balanced(s: StatementView) -> bool
    decreases s,
{
    match s.body {
        StatementBodyView::Definition(d) => expression_balanced(d.value) && tag_balanced(d.props),
        StatementBodyView::Call(c) => variable_balanced(c.function),
        StatementBodyView::Expr(e) => expression_balanced(e),
        StatementBodyView::TypeDef(_) => true,
        StatementBodyView::Return(e) => optional_balanced(e),
        StatementBodyView::Impl(i) => variable_balanced(i.symbol) && dict_defs_balanced(i.members),
        StatementBodyView::If(i) => {
            &&& expression_balanced(i.condition)
            &&& statements_balanced(i.if_body)
            &&& match i.else_body {
                Some(body) => statements_balanced(body),
                None => true,
            }
        },
        StatementBodyView::For(f) => expression_balanced(f.array) && statements_balanced(f.body),
        StatementBodyView::Error(e) => expression_balanced(e.message),
        StatementBodyView::Extract(e) => expression_balanced(e),
        StatementBodyView::Add(e) => expression_balanced(e),
        StatementBodyView::EOI => true,
    }
}

/// A chain has as many operators as there are operator tokens among its
/// children, and an operand for each other child.
pub proof fn lemma_chain_lengths(c: Seq<ParseTree>)
    ensures
        operators(c).len() == operator_count(c),
        operands(c).len() + operator_count(c) == c.len(),
    decreases c.len(),
{
    if c.len() > 0 {
        lemma_chain_lengths(c.drop_last());
    }
}

/// Every expression in the statements of a well-formed parse tree is
/// balanced.
pub proof fn lemma_statements_balanced(nodes: Seq<ParseTree>)
    requires
        all_well_formed(Role::Statement, nodes),
    ensures
        statements_balanced(statements(nodes)),
    decreases nodes, 0nat,
{
    assert forall|i: int| 0 <= i < statements(nodes).len() implies statement_balanced(
        #[trigger] statements(nodes)[i],
    ) by {
        lemma_statement_balanced(nodes[i]);
    }
}

/// Every expression in the statements of a well-formed block is balanced.
pub proof fn lemma_block_balanced(n: ParseTree)
    requires
        well_formed(Role::Block, n),
    ensures
        statements_balanced(statements(n.children)),
    decreases n, 0nat,
{
    lemma_children(Role::Block, n, Role::Statement);
    lemma_statements_balanced(n.children);
}

/// Every expression in a statement of a well-formed parse tree is balanced.
pub proof fn lemma_statement_balanced(n: ParseTree)
    requires
        well_formed(Role::Statement, n),
    ensures
        statement_balanced(statement(n)),
    decreases n, 3nat,
{
    let c = n.children;
    match n.rule {
        Rule::Def => {
            lemma_definition_balanced(n);
        },
        Rule::Call => {
            lemma_child(Role::Statement, n, 0);
            lemma_variable_balanced(c[0]);
        },
        Rule::IfStmt => {
            lemma_child(Role::Statement, n, 0);
            lemma_child(Role::Statement, n, 1);
            lemma_expression_balanced(c[0]);
            lemma_block_balanced(c[1]);
            if c.len() > 2 {
                lemma_child(Role::Statement, n, 2);
                lemma_block_balanced(c[2]);
            }
        },
        Rule::AddObj => {
            lemma_child(Role::Statement, n, 0);
            lemma_expression_balanced(c[0]);
        },
        Rule::Implement => {
            lemma_child(Role::Statement, n, 0);
            lemma_child(Role::Statement, n, 1);
            lemma_variable_balanced(c[0]);
            lemma_children(Role::Entries, c[1], Role::Entry);
            lemma_entries_balanced(c[1].children);
        },
        Rule::Expr => {
            lemma_chain(Role::Statement, n);
            lemma_expression_balanced(n);
        },
        Rule::Retrn => {
            let e = if c.len() > 0 {
                expression(c[0])
            } else {
                null_expression()
            };
            if c.len() > 0 {
                lemma_child(Role::Statement, n, 0);
                lemma_expression_balanced(c[0]);
            } else {
                assert(value_balanced(ValueLiteralView::Null));
                assert(variable_balanced(null_expression().values[0]));
                assert(expression_balanced(null_expression()));
            }
            assert(statement(n).body == StatementBodyView::Return(Some(e)));
            assert(optional_balanced(Some(e)));
        },
        _ => {},
    }
}

proof fn lemma_definition_balanced(n: ParseTree)
    requires
        well_formed(Role::Statement, n),
        n.rule == Rule::Def,
    ensures
        expression_balanced(definition(n).value),
        tag_balanced(definition(n).props),
    decreases n, 1nat,
{
    let c = n.children;
    let from = value_at(n) + 1;
    lemma_child(Role::Statement, n, value_at(n));
    lemma_expression_balanced(c[value_at(n)]);
    assert forall|i: int| 0 <= i < props(n).tags.len() implies arguments_balanced(
        (#[trigger] props(n).tags[i]).1,
    ) by {
        lemma_child(Role::Statement, n, from + i);
        lemma_prop_balanced(c[from + i]);
        assert(props(n).tags[i] == prop(c[from + i]));
    }
    assert(tag_balanced(props(n)));
}

proof fn lemma_prop_balanced(n: ParseTree)
    requires
        well_formed(Role::Prop, n),
    ensures
        arguments_balanced(prop(n).1),
    decreases n, 0nat,
{
    lemma_child(Role::Prop, n, 1);
    lemma_children(Role::Args, n.children[1], Role::Arg);
    lemma_arguments_balanced(n.children[1].children);
}

proof fn lemma_arguments_balanced(nodes: Seq<ParseTree>)
    requires
        all_well_formed(Role::Arg, nodes),
    ensures
        arguments_balanced(arguments(nodes)),
    decreases nodes, 0nat,
{
    assert forall|i: int| 0 <= i < arguments(nodes).len() implies expression_balanced(
        (#[trigger] arguments(nodes)[i]).value,
    ) by {
        let n = nodes[i];
        if named(n) {
            lemma_child(Role::Arg, n, 1);
            lemma_expression_balanced(n.children[1]);
        } else {
            lemma_child(Role::Arg, n, 0);
            lemma_expression_balanced(n.children[0]);
        }
    }
}

proof fn lemma_entries_balanced(nodes: Seq<ParseTree>)
    requires
        all_well_formed(Role::Entry, nodes),
    ensures
        dict_defs_balanced(entries(nodes)),
    decreases nodes, 0nat,
{
    assert forall|i: int| 0 <= i < entries(nodes).len() implies dict_def_balanced(
        #[trigger] entries(nodes)[i],
    ) by {
        let n = nodes[i];
        if named(n) {
            lemma_child(Role::Entry, n, 1);
            lemma_expression_balanced(n.children[1]);
        } else {
            lemma_child(Role::Entry, n, 0);
            lemma_expression_balanced(n.children[0]);
        }
    }
}

/// An expression of a well-formed parse tree has one operand more than
/// operators, and so has every expression nested in it.
pub proof fn lemma_expression_balanced(n: ParseTree)
    requires
        well_formed(Role::Expr, n),
    ensures
        expression_balanced(expression(n)),
    decreases n, 0nat,
{
    let c = n.children;
    lemma_chain_lengths(c);
    assert forall|i: int| 0 <= i < c.len() && c[i].rule != Rule::Operator implies well_formed(
        Role::Operand,
        #[trigger] c[i],
    ) by {
        lemma_child(Role::Expr, n, i);
    }
    lemma_operands_balanced(c);
}

proof fn lemma_operands_balanced(c: Seq<ParseTree>)
    requires
        forall|i: int|
            0 <= i < c.len() && c[i].rule != Rule::Operator ==> well_formed(
                Role::Operand,
                #[trigger] c[i],
            ),
    ensures
        forall|i: int| 0 <= i < operands(c).len() ==> variable_balanced(#[trigger] operands(c)[i]),
    decreases c, 0nat,
{
    if c.len() > 0 {
        let rest = c.drop_last();
        assert forall|i: int|
            0 <= i < rest.len() && rest[i].rule != Rule::Operator implies well_formed(
            Role::Operand,
            #[trigger] rest[i],
        ) by {
            assert(rest[i] == c[i]);
        }
        lemma_operands_balanced(rest);
        if c.last().rule != Rule::Operator {
            assert(c.last() == c[c.len() - 1]);
            lemma_variable_balanced(c.last());
        }
        assert forall|i: int| 0 <= i < operands(c).len() implies variable_balanced(
            #[trigger] operands(c)[i],
        ) by {
            if i < operands(rest).len() {
                assert(operands(c)[i] == operands(rest)[i]);
            } else {
                assert(operands(c)[i] == variable(c.last()));
            }
        }
    }
}

/// Every expression in an operand of a well-formed parse tree is balanced.
pub proof fn lemma_variable_balanced(n: ParseTree)
    requires
        well_formed(Role::Operand, n),
    ensures
        variable_balanced(variable(n)),
    decreases n, 0nat,
{
    let c = n.children;
    lemma_child(Role::Operand, n, 0);
    lemma_value_balanced(c[0]);
    assert forall|i: int| 0 <= i < variable(n).path.len() implies path_balanced(
        #[trigger] variable(n).path[i],
    ) by {
        lemma_child(Role::Operand, n, i + 1);
        lemma_path_balanced(c[i + 1]);
    }
}

/// Every expression in a step of a postfix chain of a well-formed parse tree
/// is balanced.
pub proof fn lemma_path_balanced(n: ParseTree)
    requires
        well_formed(Role::Path, n),
    ensures
        path_balanced(path(n)),
    decreases n, 0nat,
{
    match n.rule {
        Rule::Index => {
            lemma_child(Role::Path, n, 0);
            lemma_expression_balanced(n.children[0]);
        },
        Rule::Arguments => {
            lemma_children(Role::Path, n, Role::Arg);
            lemma_arguments_balanced(n.children);
        },
        _ => {},
    }
}

proof fn lemma_params_balanced(nodes: Seq<ParseTree>)
    requires
        all_well_formed(Role::Param, nodes),
    ensures
        forall|i: int|
            0 <= i < params(nodes).len() ==> arg_def_balanced(#[trigger] params(nodes)[i]),
    decreases nodes, 0nat,
{
    assert forall|i: int| 0 <= i < params(nodes).len() implies arg_def_balanced(
        #[trigger] params(nodes)[i],
    ) by {
        let n = nodes[i];
        if n.children.len() > 1 {
            lemma_child(Role::Param, n, 1);
            lemma_expression_balanced(n.children[1]);
        }
    }
}

/// Every expression in a value of a well-formed parse tree is balanced.
pub proof fn lemma_value_balanced(n: ParseTree)
    requires
        well_formed(Role::Value, n),
    ensures
        value_balanced(value(n)),
    decreases n, 1nat,
{
    let c = n.children;
    match n.rule {
        Rule::MacroDef => {
            lemma_child(Role::Value, n, 0);
            lemma_child(Role::Value, n, 1);
            lemma_children(Role::Params, c[0], Role::Param);
            lemma_params_balanced(c[0].children);
            lemma_block_balanced(c[1]);
            let m = MacroView {
                args: params(c[0].children),
                body: CompoundStatementView { statements: statements(c[1].children) },
                properties: no_tags(),
            };
            assert(value(n) == ValueLiteralView::Macro(m));
            assert(tag_balanced(no_tags()));
            assert(macro_balanced(m));
            assert(value_balanced(ValueLiteralView::Macro(m)));
        },
        Rule::Dictionary => {
            lemma_children(Role::Value, n, Role::Entry);
            lemma_entries_balanced(c);
        },
        Rule::CmpStmt => {
            lemma_children(Role::Value, n, Role::Statement);
            lemma_statements_balanced(c);
        },
        Rule::Obj => {
            lemma_children(Role::Value, n, Role::ObjProp);
            assert forall|i: int| 0 <= i < obj_props(c).len() implies expression_balanced(
                (#[trigger] obj_props(c)[i]).0,
            ) && expression_balanced(obj_props(c)[i].1) by {
                lemma_child(Role::ObjProp, c[i], 0);
                lemma_child(Role::ObjProp, c[i], 1);
                lemma_expression_balanced(c[i].children[0]);
                lemma_expression_balanced(c[i].children[1]);
            }
            assert(value(n) == ValueLiteralView::Obj(obj_props(c)));
            assert(value_balanced(ValueLiteralView::Obj(obj_props(c))));
        },
        Rule::ValueLiteral | Rule::Variable => {
            lemma_child(Role::Value, n, 0);
            lemma_value_balanced(c[0]);
        },
        Rule::Expr => {
            lemma_chain(Role::Value, n);
            lemma_expression_balanced(n);
        },
        Rule::Array => {
            lemma_children(Role::Value, n, Role::Expr);
            assert forall|i: int| 0 <= i < expressions(c).len() implies expression_balanced(
                #[trigger] expressions(c)[i],
            ) by {
                lemma_expression_balanced(c[i]);
            }
            assert(value(n) == ValueLiteralView::Array(expressions(c)));
            assert(value_balanced(ValueLiteralView::Array(expressions(c))));
        },
        _ => {},
    }
}

/// What a lookup finds among balanced properties is balanced.
pub proof fn lemma_lookup_balanced(tags: Seq<(Seq<char>, Seq<ArgumentView>)>, name: Seq<char>)
    requires
        forall|i: int| 0 <= i < tags.len() ==> arguments_balanced((#[trigger] tags[i]).1),
    ensures
        lookup(tags, name) matches Some(args) ==> arguments_balanced(args),
    decreases tags.len(),
{
    if tags.len() > 0 && tags[0].0 != name {
        let rest = tags.skip(1);
        assert forall|i: int| 0 <= i < rest.len() implies arguments_balanced(
            (#[trigger] rest[i]).1,
        ) by {
            assert(rest[i] == tags[i + 1]);
        }
        lemma_lookup_balanced(rest, name);
    }
}

/// In a balanced property list the first argument of a property starts with
/// a value, so that the description of the list can be read.
pub proof fn lemma_balanced_desc(t: TagView)
    requires
        tag_balanced(t),
    ensures
        t.get("desc"@) matches Some(args) ==> args.len() > 0 ==> args[0].value.values.len() > 0,
{
    lemma_lookup_balanced(t.tags, "desc"@);
}

} // verus!
