//! What a parse tree stands for.
//!
//! For each role in which the tree builder reads a node, a function of this
//! module gives the piece of syntax tree that the node stands for. Each is
//! defined on the nodes that are well formed in its role.

use vstd::prelude::*;
use crate::ast::{Operator, ID};
use crate::model::{
    ArgDefView, ArgumentView, CallView, CompoundStatementView, DefinitionView, DictDefView,
    ExpressionView, IfView, ImplementationView, MacroView, PathView, StatementBodyView,
    StatementView, TagView, ValueLiteralView, VariableView,
};
use crate::shape::{named, value_at, well_formed, Role};
use crate::text::{class_of, operator_of, u16_of, without_quotes};
use crate::tree::{ParseTree, Rule};

verus! {

/// The property list without a property.
pub open spec fn no_tags() -> TagView {
    TagView { tags: Seq::empty() }
}

/// The expression that is the literal `null` and nothing else.
pub open spec fn null_expression() -> ExpressionView {
    ExpressionView {
        values: seq![
            VariableView { operator: None, value: ValueLiteralView::Null, path: Seq::empty() },
        ],
        operators: Seq::empty(),
    }
}

/// The operators of a chain, in their order: one for each operator token
/// among `c`.
pub open spec fn operators(c: Seq<ParseTree>) -> Seq<Operator>
    decreases c.len(),
{
    if c.len() == 0 {
        Seq::empty()
    } else if c.last().rule == Rule::Operator {
        operators(c.drop_last()).push(operator_of(c.last().text).unwrap())
    } else {
        operators(c.drop_last())
    }
}

/// The handle that a node of production `Id` stands for: with a number in
/// front the handle has that number, without one it is left to be chosen.
pub open spec fn handle(n: ParseTree) -> ID {
    let c = n.children;
    if c[0].rule == Rule::Number {
        ID {
            number: u16_of(c[0].text).unwrap(),
            unspecified: false,
            class_name: class_of(c[1].text).unwrap(),
        }
    } else {
        ID { number: 0, unspecified: true, class_name: class_of(c[0].text).unwrap() }
    }
}

/// The statements that `nodes` stand for, one for each node.
pub open spec fn statements(nodes: Seq<ParseTree>) -> Seq<StatementView>
    decreases nodes, 0nat,
{
    Seq::new(
        nodes.len(),
        |i: int| if 0 <= i < nodes.len() { statement(nodes[i]) } else { arbitrary() },
    )
}

/// The statement that `n` stands for. It spans the lines of `n` and does not
/// fork the context.
pub open spec fn statement(n: ParseTree) -> StatementView
    decreases n, 3nat,
{
    StatementView { body: statement_body(n), arrow: false, line: n.line }
}

/// The kind of statement that `n` stands for. A production that is no
/// statement stands for the end of the input.
pub open spec fn statement_body(n: ParseTree) -> StatementBodyView
    decreases n, 2nat,
{
    if well_formed(Role::Statement, n) {
        let c = n.children;
        match n.rule {
            Rule::Def => StatementBodyView::Definition(definition(n)),
            Rule::Call => StatementBodyView::Call(CallView { function: variable(c[0]) }),
            Rule::IfStmt => StatementBodyView::If(
                IfView {
                    condition: expression(c[0]),
                    if_body: statements(c[1].children),
                    else_body: if c.len() > 2 {
                        Some(statements(c[2].children))
                    } else {
                        None
                    },
                },
            ),
            Rule::AddObj => StatementBodyView::Add(expression(c[0])),
            Rule::Implement => StatementBodyView::Impl(
                ImplementationView { symbol: variable(c[0]), members: entries(c[1].children) },
            ),
            Rule::Expr => StatementBodyView::Expr(expression(n)),
            Rule::Retrn => StatementBodyView::Return(
                Some(
                    if c.len() > 0 {
                        expression(c[0])
                    } else {
                        null_expression()
                    },
                ),
            ),
            _ => StatementBodyView::EOI,
        }
    } else {
        arbitrary()
    }
}

/// The definition that `n` stands for. A definition that starts with a name
/// binds that name to the expression behind it; any other binds `*` to the
/// expression it starts with. The children behind the value are properties.
pub open spec fn definition(n: ParseTree) -> DefinitionView
    decreases n, 1nat,
{
    if well_formed(Role::Statement, n) && n.rule == Rule::Def {
        let c = n.children;
        DefinitionView {
            symbol: if named(n) {
                c[0].text
            } else {
                "*"@
            },
            value: expression(c[value_at(n)]),
            props: props(n),
        }
    } else {
        arbitrary()
    }
}

/// The property list of the definition `n`: a property for each child of `n`
/// behind the value.
pub open spec fn props(n: ParseTree) -> TagView
    decreases n, 0nat,
{
    if well_formed(Role::Statement, n) && n.rule == Rule::Def {
        let c = n.children;
        let from = value_at(n) + 1;
        TagView {
            tags: Seq::new(
                (c.len() - from) as nat,
                |i: int| if 0 <= i < c.len() - from { prop(c[from + i]) } else { arbitrary() },
            ),
        }
    } else {
        arbitrary()
    }
}

/// The property that `n` stands for: the text of its first child names it,
/// the children of its second child are its arguments.
pub open spec fn prop(n: ParseTree) -> (Seq<char>, Seq<ArgumentView>)
    decreases n, 0nat,
{
    if well_formed(Role::Prop, n) {
        (n.children[0].text, arguments(n.children[1].children))
    } else {
        arbitrary()
    }
}

/// The arguments that `nodes` stand for, one for each node.
pub open spec fn arguments(nodes: Seq<ParseTree>) -> Seq<ArgumentView>
    decreases nodes, 0nat,
{
    Seq::new(
        nodes.len(),
        |i: int| if 0 <= i < nodes.len() { argument(nodes[i]) } else { arbitrary() },
    )
}

/// The argument that `n` stands for: a name and the expression behind it are
/// a keyword argument, an expression alone is a positional one.
pub open spec fn argument(n: ParseTree) -> ArgumentView
    decreases n, 0nat,
{
    if well_formed(Role::Arg, n) {
        let c = n.children;
        if named(n) {
            ArgumentView { symbol: Some(c[0].text), value: expression(c[1]) }
        } else {
            ArgumentView { symbol: None, value: expression(c[0]) }
        }
    } else {
        arbitrary()
    }
}

/// The dictionary entries that `nodes` stand for, one for each node.
pub open spec fn entries(nodes: Seq<ParseTree>) -> Seq<DictDefView>
    decreases nodes, 0nat,
{
    Seq::new(
        nodes.len(),
        |i: int| if 0 <= i < nodes.len() { entry(nodes[i]) } else { arbitrary() },
    )
}

/// The dictionary entry that `n` stands for: a name and the expression
/// behind it define one member, an expression alone hands on all of its own.
pub open spec fn entry(n: ParseTree) -> DictDefView
    decreases n, 0nat,
{
    if well_formed(Role::Entry, n) {
        let c = n.children;
        if named(n) {
            DictDefView::Def((c[0].text, expression(c[1])))
        } else {
            DictDefView::Extract(expression(c[0]))
        }
    } else {
        arbitrary()
    }
}

/// The expression that `n` stands for: among the children of `n`, each
/// operator token is an operator of the chain and each other child an
/// operand, in their order.
pub open spec fn expression(n: ParseTree) -> ExpressionView
    decreases n, 0nat,
{
    ExpressionView { values: operands(n.children), operators: operators(n.children) }
}

/// The operands of a chain, in their order: one for each of `c` that is no
/// operator token.
pub open spec fn operands(c: Seq<ParseTree>) -> Seq<VariableView>
    decreases c, 0nat,
{
    if c.len() == 0 {
        Seq::empty()
    } else if c.last().rule == Rule::Operator {
        operands(c.drop_last())
    } else {
        operands(c.drop_last()).push(variable(c.last()))
    }
}

/// The operand that `n` stands for: its first child is the value, each
/// further child one step of the postfix chain, in source order.
pub open spec fn variable(n: ParseTree) -> VariableView
    decreases n, 0nat,
{
    if well_formed(Role::Operand, n) {
        let c = n.children;
        VariableView {
            operator: None,
            value: value(c[0]),
            path: Seq::new(
                (c.len() - 1) as nat,
                |i: int| if 0 <= i < c.len() - 1 { path(c[i + 1]) } else { arbitrary() },
            ),
        }
    } else {
        arbitrary()
    }
}

/// The step of a postfix chain that `n` stands for.
pub open spec fn path(n: ParseTree) -> PathView
    decreases n, 0nat,
{
    if well_formed(Role::Path, n) {
        match n.rule {
            Rule::Index => PathView::Index(expression(n.children[0])),
            Rule::Arguments => PathView::Call(arguments(n.children)),
            _ => PathView::Member(n.text),
        }
    } else {
        arbitrary()
    }
}

/// The parameters of a macro that `nodes` stand for, one for each node.
pub open spec fn params(nodes: Seq<ParseTree>) -> Seq<ArgDefView>
    decreases nodes, 0nat,
{
    Seq::new(
        nodes.len(),
        |i: int| if 0 <= i < nodes.len() { param(nodes[i]) } else { arbitrary() },
    )
}

/// The parameter that `n` stands for: the text of its first child names it,
/// its second child, if there is one, is its default value. It has no
/// property and no type.
pub open spec fn param(n: ParseTree) -> ArgDefView
    decreases n, 0nat,
{
    if well_formed(Role::Param, n) {
        let c = n.children;
        (
            c[0].text,
            if c.len() > 1 {
                Some(expression(c[1]))
            } else {
                None
            },
            no_tags(),
            None,
        )
    } else {
        arbitrary()
    }
}

/// The key and the value that `n` stands for.
pub open spec fn obj_prop(n: ParseTree) -> (ExpressionView, ExpressionView)
    decreases n, 0nat,
{
    if well_formed(Role::ObjProp, n) {
        (expression(n.children[0]), expression(n.children[1]))
    } else {
        arbitrary()
    }
}

/// The keys and values that `nodes` stand for, one pair for each node.
pub open spec fn obj_props(nodes: Seq<ParseTree>) -> Seq<(ExpressionView, ExpressionView)>
    decreases nodes, 0nat,
{
    Seq::new(
        nodes.len(),
        |i: int| if 0 <= i < nodes.len() { obj_prop(nodes[i]) } else { arbitrary() },
    )
}

/// The expressions that `nodes` stand for, one for each node.
pub open spec fn expressions(nodes: Seq<ParseTree>) -> Seq<ExpressionView>
    decreases nodes, 0nat,
{
    Seq::new(
        nodes.len(),
        |i: int| if 0 <= i < nodes.len() { expression(nodes[i]) } else { arbitrary() },
    )
}

/// The value that `n` stands for. A production that is no value stands for
/// the number zero.
pub open spec fn value(n: ParseTree) -> ValueLiteralView
    decreases n, 1nat,
{
    if well_formed(Role::Value, n) {
        let c = n.children;
        match n.rule {
            Rule::Id => ValueLiteralView::ID(handle(n)),
            Rule::MacroDef => ValueLiteralView::Macro(
                MacroView {
                    args: params(c[0].children),
                    body: CompoundStatementView { statements: statements(c[1].children) },
                    properties: no_tags(),
                },
            ),
            Rule::Number => ValueLiteralView::Number(n.text),
            Rule::Bool => ValueLiteralView::Bool(n.text == "true"@),
            Rule::Dictionary => ValueLiteralView::Dictionary(entries(c)),
            Rule::CmpStmt => ValueLiteralView::CmpStmt(
                CompoundStatementView { statements: statements(c) },
            ),
            Rule::Obj => ValueLiteralView::Obj(obj_props(c)),
            Rule::ValueLiteral | Rule::Variable => value(c[0]),
            Rule::Expr => ValueLiteralView::Expression(expression(n)),
            Rule::Symbol => ValueLiteralView::Symbol(n.text),
            Rule::Str => ValueLiteralView::Str(without_quotes(n.text)),
            Rule::Array => ValueLiteralView::Array(expressions(c)),
            Rule::Import => ValueLiteralView::Import(without_quotes(c[0].text)),
            _ => ValueLiteralView::Number("0"@),
        }
    } else {
        arbitrary()
    }
}

} // verus!
