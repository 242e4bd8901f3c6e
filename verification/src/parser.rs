//! The tree builder: from a parse tree to the syntax tree.
//!
//! Every function reads one node, or one list of nodes, in one role and
//! returns the piece of syntax tree that `syntax` says it stands for. A
//! production that the builder does not know as a statement becomes the
//! statement `EOI`, one that it does not know as a value the number zero;
//! for each the builder appends a notice to the list it is handed.

use vstd::prelude::*;
use crate::ast::{
    ArgDef, Argument, Call, CompoundStatement, Definition, DictDef, Expression, If,
    Implementation, Macro, Operator, Path, Statement, StatementBody, Tag, ValueLiteral, Variable,
    ID,
};
use crate::balance::{
    expression_balanced, lemma_block_balanced, lemma_expression_balanced, lemma_path_balanced,
    lemma_statements_balanced, lemma_value_balanced, lemma_variable_balanced, path_balanced,
    statements_balanced, value_balanced, variable_balanced,
};
use crate::model::{
    arg_def_view, arg_defs_view, arguments_view, dict_defs_view, expressions_view,
    lemma_statements_view, pairs_view, statements_view, variables_view,
};
use crate::notice::{
    all_notices, child_notices, lemma_notices_of_chain, lemma_notices_of_children,
    lemma_first_notices, lemma_notices_split, lemma_notices_upto, notices, Notice, Place,
};
use crate::shape::{
    all_well_formed, check, lemma_chain, lemma_child, lemma_children, value_at, well_formed,
    Role,
};
use crate::syntax;
use crate::text::{parse_class, parse_operator, parse_u16, same_text, str_content};
use crate::tree::{forest, lemma_forest, lemma_node, ParseNode, Rule};

verus! {

/// Reads a list of statements, one from each node.
pub fn parse_statements(statements: &Vec<ParseNode>, notes: &mut Vec<Notice>) -> (stmts: Vec<
    Statement,
>)
    requires
        all_well_formed(Role::Statement, forest(statements@)),
    ensures
        statements_view(stmts@) == syntax::statements(forest(statements@)),
        statements_balanced(statements_view(stmts@)),
        final(notes)@ == old(notes)@ + all_notices(Role::Statement, forest(statements@)),
    decreases statements, 0nat,
{
    let ghost before = notes@;
    let ghost c = forest(statements@);
    let mut stmts: Vec<Statement> = Vec::new();
    assert(notes@ =~= before + all_notices(Role::Statement, c.take(0)));
    for i in 0..statements.len()
        invariant
            c == forest(statements@),
            all_well_formed(Role::Statement, c),
            stmts.len() == i,
            forall|j: int| 0 <= j < i ==> stmts@[j]@ == syntax::statement(#[trigger] c[j]),
            notes@ == before + all_notices(Role::Statement, c.take(i as int)),
    {
        proof {
            lemma_forest(statements@);
            assert(c.take(i + 1).drop_last() =~= c.take(i as int));
        }
        assert(well_formed(Role::Statement, c[i as int]));
        let stmt = parse_statement(&statements[i], notes);
        stmts.push(stmt);
        assert(notes@ =~= before + all_notices(Role::Statement, c.take(i + 1)));
    }
    proof {
        lemma_forest(statements@);
        lemma_statements_view(stmts@);
        lemma_statements_balanced(c);
        assert(c.take(c.len() as int) =~= c);
    }
    assert(statements_view(stmts@) =~= syntax::statements(c));
    stmts
}

/// Reads the statements that are the children of `node`.
fn parse_block(node: &ParseNode, notes: &mut Vec<Notice>) -> (stmts: Vec<Statement>)
    requires
        well_formed(Role::Block, node@),
    ensures
        statements_view(stmts@) == syntax::statements(node@.children),
        final(notes)@ == old(notes)@ + notices(Role::Block, node@),
    decreases node, 0nat,
{
    proof {
        lemma_node(node);
        lemma_children(Role::Block, node@, Role::Statement);
        lemma_notices_of_children(Role::Block, node@, Role::Statement);
    }
    let ghost before = notes@;
    let stmts = parse_statements(&node.children, notes);
    assert(notes@ =~= before + notices(Role::Block, node@));
    stmts
}

/// Reads one statement.
fn parse_statement(node: &ParseNode, notes: &mut Vec<Notice>) -> (stmt: Statement)
    requires
        well_formed(Role::Statement, node@),
    ensures
        stmt@ == syntax::statement(node@),
        final(notes)@ == old(notes)@ + notices(Role::Statement, node@),
    decreases node, 3nat,
{
    let ghost before = notes@;
    let ghost n = node@;
    proof {
        lemma_node(node);
        lemma_first_notices(Role::Statement, n);
    }
    let body = match node.rule {
        Rule::Def => StatementBody::Definition(parse_definition(node, notes)),
        Rule::Call => {
            proof {
                lemma_child(Role::Statement, n, 0);
                lemma_notices_upto(Role::Statement, n, 1);
            }
            let function = parse_variable(&node.children[0], notes);
            assert(notes@ =~= before + notices(Role::Statement, n));
            StatementBody::Call(Call { function })
        },
        Rule::IfStmt => {
            proof {
                lemma_child(Role::Statement, n, 0);
                lemma_child(Role::Statement, n, 1);
            }
            let condition = parse_expr(&node.children[0], notes);
            let if_body = parse_block(&node.children[1], notes);
            assert(notes@ =~= before + child_notices(Role::Statement, n, 0, 2));
            let else_body = if node.children.len() > 2 {
                proof {
                    lemma_child(Role::Statement, n, 2);
                    lemma_notices_upto(Role::Statement, n, 3);
                }
                let body = parse_block(&node.children[2], notes);
                assert(notes@ =~= before + notices(Role::Statement, n));
                Some(body)
            } else {
                proof {
                    lemma_notices_upto(Role::Statement, n, 2);
                }
                assert(notes@ =~= before + notices(Role::Statement, n));
                None
            };
            StatementBody::If(If { condition, if_body, else_body })
        },
        Rule::AddObj => {
            proof {
                lemma_child(Role::Statement, n, 0);
                lemma_notices_upto(Role::Statement, n, 1);
            }
            let object = parse_expr(&node.children[0], notes);
            assert(notes@ =~= before + notices(Role::Statement, n));
            StatementBody::Add(object)
        },
        Rule::Implement => {
            proof {
                lemma_child(Role::Statement, n, 0);
                lemma_child(Role::Statement, n, 1);
                lemma_node(&node.children[1]);
                lemma_children(Role::Entries, n.children[1], Role::Entry);
                lemma_notices_of_children(Role::Entries, n.children[1], Role::Entry);
                lemma_notices_upto(Role::Statement, n, 2);
            }
            let symbol = parse_variable(&node.children[0], notes);
            let members = parse_entries(&node.children[1].children, notes);
            assert(notes@ =~= before + notices(Role::Statement, n));
            StatementBody::Impl(Implementation { symbol, members })
        },
        Rule::Expr => {
            proof {
                lemma_chain(Role::Statement, n);
                lemma_notices_of_chain(Role::Statement, n);
            }
            StatementBody::Expr(parse_expr(node, notes))
        },
        Rule::Retrn => {
            if node.children.len() > 0 {
                proof {
                    lemma_child(Role::Statement, n, 0);
                    lemma_notices_upto(Role::Statement, n, 1);
                }
                let operand = parse_expr(&node.children[0], notes);
                assert(notes@ =~= before + notices(Role::Statement, n));
                StatementBody::Return(Some(operand))
            } else {
                proof {
                    lemma_notices_upto(Role::Statement, n, 0);
                }
                assert(notes@ =~= before + notices(Role::Statement, n));
                StatementBody::Return(Some(null_expression()))
            }
        },
        Rule::EOI => {
            proof {
                lemma_notices_upto(Role::Statement, n, 0);
            }
            assert(notes@ =~= before + notices(Role::Statement, n));
            StatementBody::EOI
        },
        _ => {
            proof {
                lemma_notices_upto(Role::Statement, n, 0);
            }
            notes.push(Notice { place: Place::Statement, rule: node.rule, line: node.line });
            assert(notes@ =~= before + notices(Role::Statement, n));
            StatementBody::EOI
        },
    };
    Statement { body, arrow: false, line: node.line }
}

/// The expression that is the literal `null` and nothing else.
fn null_expression() -> (e: Expression)
    ensures
        e@ == syntax::null_expression(),
{
    let mut values: Vec<Variable> = Vec::new();
    values.push(Variable { operator: None, value: ValueLiteral::Null, path: Vec::new() });
    let e = Expression { values, operators: Vec::new() };
    assert(e@.values[0].path =~= Seq::empty());
    assert(e@.values =~= syntax::null_expression().values);
    assert(e@.operators =~= Seq::empty());
    e
}

/// Reads a definition.
fn parse_definition(node: &ParseNode, notes: &mut Vec<Notice>) -> (def: Definition)
    requires
        well_formed(Role::Statement, node@),
        node.rule == Rule::Def,
    ensures
        def@ == syntax::definition(node@),
        final(notes)@ == old(notes)@ + notices(Role::Statement, node@),
    decreases node, 1nat,
{
    proof {
        lemma_node(node);
    }
    let ghost before = notes@;
    let ghost n = node@;
    let at: usize = if node.children[0].rule == Rule::Symbol {
        1
    } else {
        0
    };
    proof {
        lemma_child(Role::Statement, n, at as int);
        lemma_first_notices(Role::Statement, n);
        lemma_notices_split(Role::Statement, n, 0, (at + 1) as nat, n.children.len());
    }
    let value = parse_expr(&node.children[at], notes);
    assert(notes@ =~= before + child_notices(Role::Statement, n, 0, (at + 1) as nat));
    let props = parse_props(node, at + 1, notes);
    assert(notes@ =~= before + notices(Role::Statement, n));
    let symbol = if at == 1 {
        node.children[0].text.clone()
    } else {
        "*".to_owned()
    };
    Definition { symbol, value, props }
}

/// Reads the properties of a definition: the children of `node` from child
/// `from` on.
fn parse_props(node: &ParseNode, from: usize, notes: &mut Vec<Notice>) -> (props: Tag)
    requires
        well_formed(Role::Statement, node@),
        node.rule == Rule::Def,
        from == value_at(node@) + 1,
    ensures
        props@ == syntax::props(node@),
        final(notes)@ == old(notes)@ + child_notices(
            Role::Statement,
            node@,
            from as nat,
            node@.children.len(),
        ),
    decreases node, 0nat,
{
    proof {
        lemma_node(node);
    }
    let ghost before = notes@;
    let ghost n = node@;
    let mut tags: Vec<(String, Vec<Argument>)> = Vec::new();
    assert(notes@ =~= before + child_notices(Role::Statement, n, from as nat, from as nat));
    for i in from..node.children.len()
        invariant
            n == node@,
            well_formed(Role::Statement, n),
            node.rule == Rule::Def,
            from == value_at(n) + 1,
            from <= node.children.len(),
            tags.len() == i - from,
            forall|j: int|
                0 <= j < i - from ==> (tags@[j].0@, arguments_view(tags@[j].1@)) == syntax::prop(
                    #[trigger] n.children[from + j],
                ),
            notes@ == before + child_notices(Role::Statement, n, from as nat, i as nat),
    {
        proof {
            lemma_node(node);
            lemma_child(Role::Statement, n, i as int);
        }
        let tag = parse_prop(&node.children[i], notes);
        tags.push(tag);
        assert(notes@ =~= before + child_notices(Role::Statement, n, from as nat, (i + 1) as nat));
    }
    let props = Tag { tags };
    assert(props@.tags =~= syntax::props(n).tags);
    props
}

/// Reads one property: its name and its arguments.
fn parse_prop(node: &ParseNode, notes: &mut Vec<Notice>) -> (prop: (String, Vec<Argument>))
    requires
        well_formed(Role::Prop, node@),
    ensures
        (prop.0@, arguments_view(prop.1@)) == syntax::prop(node@),
        final(notes)@ == old(notes)@ + notices(Role::Prop, node@),
    decreases node, 0nat,
{
    let ghost before = notes@;
    let ghost n = node@;
    proof {
        lemma_node(node);
        lemma_child(Role::Prop, n, 1);
        lemma_node(&node.children[1]);
        lemma_children(Role::Args, n.children[1], Role::Arg);
        lemma_notices_of_children(Role::Args, n.children[1], Role::Arg);
        lemma_first_notices(Role::Prop, n);
        lemma_notices_upto(Role::Prop, n, 2);
    }
    let args = parse_arguments(&node.children[1].children, notes);
    assert(notes@ =~= before + notices(Role::Prop, n));
    (node.children[0].text.clone(), args)
}

/// Reads a list of arguments, one from each node.
fn parse_arguments(nodes: &Vec<ParseNode>, notes: &mut Vec<Notice>) -> (args: Vec<Argument>)
    requires
        all_well_formed(Role::Arg, forest(nodes@)),
    ensures
        arguments_view(args@) == syntax::arguments(forest(nodes@)),
        final(notes)@ == old(notes)@ + all_notices(Role::Arg, forest(nodes@)),
    decreases nodes, 0nat,
{
    let ghost before = notes@;
    let ghost c = forest(nodes@);
    let mut args: Vec<Argument> = Vec::new();
    assert(notes@ =~= before + all_notices(Role::Arg, c.take(0)));
    for i in 0..nodes.len()
        invariant
            c == forest(nodes@),
            all_well_formed(Role::Arg, c),
            args.len() == i,
            forall|j: int| 0 <= j < i ==> args@[j]@ == syntax::argument(#[trigger] c[j]),
            notes@ == before + all_notices(Role::Arg, c.take(i as int)),
    {
        proof {
            lemma_forest(nodes@);
            assert(c.take(i + 1).drop_last() =~= c.take(i as int));
        }
        assert(well_formed(Role::Arg, c[i as int]));
        let arg = parse_argument(&nodes[i], notes);
        args.push(arg);
        assert(notes@ =~= before + all_notices(Role::Arg, c.take(i + 1)));
    }
    proof {
        lemma_forest(nodes@);
        assert(c.take(c.len() as int) =~= c);
    }
    assert(arguments_view(args@) =~= syntax::arguments(c));
    args
}

/// Reads one argument.
fn parse_argument(node: &ParseNode, notes: &mut Vec<Notice>) -> (arg: Argument)
    requires
        well_formed(Role::Arg, node@),
    ensures
        arg@ == syntax::argument(node@),
        final(notes)@ == old(notes)@ + notices(Role::Arg, node@),
    decreases node, 0nat,
{
    proof {
        lemma_node(node);
    }
    let ghost before = notes@;
    let ghost n = node@;
    let at: usize = if node.children[0].rule == Rule::Symbol {
        1
    } else {
        0
    };
    proof {
        lemma_child(Role::Arg, n, at as int);
        lemma_first_notices(Role::Arg, n);
        lemma_notices_upto(Role::Arg, n, (at + 1) as nat);
    }
    let value = parse_expr(&node.children[at], notes);
    assert(notes@ =~= before + notices(Role::Arg, n));
    let symbol = if at == 1 {
        Some(node.children[0].text.clone())
    } else {
        None
    };
    Argument { symbol, value }
}

/// Reads the entries of a dictionary, one from each node.
fn parse_entries(nodes: &Vec<ParseNode>, notes: &mut Vec<Notice>) -> (defs: Vec<DictDef>)
    requires
        all_well_formed(Role::Entry, forest(nodes@)),
    ensures
        dict_defs_view(defs@) == syntax::entries(forest(nodes@)),
        final(notes)@ == old(notes)@ + all_notices(Role::Entry, forest(nodes@)),
    decreases nodes, 0nat,
{
    let ghost before = notes@;
    let ghost c = forest(nodes@);
    let mut defs: Vec<DictDef> = Vec::new();
    assert(notes@ =~= before + all_notices(Role::Entry, c.take(0)));
    for i in 0..nodes.len()
        invariant
            c == forest(nodes@),
            all_well_formed(Role::Entry, c),
            defs.len() == i,
            forall|j: int| 0 <= j < i ==> defs@[j]@ == syntax::entry(#[trigger] c[j]),
            notes@ == before + all_notices(Role::Entry, c.take(i as int)),
    {
        proof {
            lemma_forest(nodes@);
            assert(c.take(i + 1).drop_last() =~= c.take(i as int));
        }
        assert(well_formed(Role::Entry, c[i as int]));
        let def = parse_entry(&nodes[i], notes);
        defs.push(def);
        assert(notes@ =~= before + all_notices(Role::Entry, c.take(i + 1)));
    }
    proof {
        lemma_forest(nodes@);
        assert(c.take(c.len() as int) =~= c);
    }
    assert(dict_defs_view(defs@) =~= syntax::entries(c));
    defs
}

/// Reads one entry of a dictionary.
fn parse_entry(node: &ParseNode, notes: &mut Vec<Notice>) -> (def: DictDef)
    requires
        well_formed(Role::Entry, node@),
    ensures
        def@ == syntax::entry(node@),
        final(notes)@ == old(notes)@ + notices(Role::Entry, node@),
    decreases node, 0nat,
{
    proof {
        lemma_node(node);
    }
    let ghost before = notes@;
    let ghost n = node@;
    let at: usize = if node.children[0].rule == Rule::Symbol {
        1
    } else {
        0
    };
    proof {
        lemma_child(Role::Entry, n, at as int);
        lemma_first_notices(Role::Entry, n);
        lemma_notices_upto(Role::Entry, n, (at + 1) as nat);
    }
    let value = parse_expr(&node.children[at], notes);
    assert(notes@ =~= before + notices(Role::Entry, n));
    if at == 1 {
        DictDef::Def((node.children[0].text.clone(), value))
    } else {
        DictDef::Extract(value)
    }
}

/// Reads an expression: each operator token among the children of `pair` is
/// an operator of the chain and each other child an operand, in their order.
pub fn parse_expr(pair: &ParseNode, notes: &mut Vec<Notice>) -> (expr: Expression)
    requires
        well_formed(Role::Expr, pair@),
    ensures
        expr@ == syntax::expression(pair@),
        expression_balanced(expr@),
        final(notes)@ == old(notes)@ + notices(Role::Expr, pair@),
    decreases pair, 0nat,
{
    proof {
        lemma_node(pair);
        lemma_expression_balanced(pair@);
    }
    let ghost before = notes@;
    let ghost n = pair@;
    let ghost c = pair@.children;
    let mut values: Vec<Variable> = Vec::new();
    let mut operators: Vec<Operator> = Vec::new();
    assert(notes@ =~= before + child_notices(Role::Expr, n, 0, 0));
    for i in 0..pair.children.len()
        invariant
            n == pair@,
            c == n.children,
            well_formed(Role::Expr, n),
            variables_view(values@) == syntax::operands(c.take(i as int)),
            operators@ == syntax::operators(c.take(i as int)),
            notes@ == before + child_notices(Role::Expr, n, 0, i as nat),
    {
        proof {
            lemma_node(pair);
            lemma_child(Role::Expr, n, i as int);
            assert(c.take(i + 1).drop_last() =~= c.take(i as int));
            assert(c.take(i + 1).last() == c[i as int]);
        }
        let item = &pair.children[i];
        if item.rule == Rule::Operator {
            proof {
                lemma_first_notices(Role::Operator, c[i as int]);
                lemma_notices_upto(Role::Operator, c[i as int], 0);
            }
            operators.push(parse_operator(item.text.as_str()).unwrap());
        } else {
            let ghost operands = values@;
            let operand = parse_variable(item, notes);
            values.push(operand);
            assert(variables_view(values@) =~= variables_view(operands).push(operand@));
        }
        assert(notes@ =~= before + child_notices(Role::Expr, n, 0, (i + 1) as nat));
    }
    assert(c.take(c.len() as int) =~= c);
    assert(notes@ =~= before + notices(Role::Expr, n));
    Expression { values, operators }
}

/// Reads an operand: the first child of `pair` is its value, each further
/// child one step of its postfix chain.
pub fn parse_variable(pair: &ParseNode, notes: &mut Vec<Notice>) -> (variable: Variable)
    requires
        well_formed(Role::Operand, pair@),
    ensures
        variable@ == syntax::variable(pair@),
        variable_balanced(variable@),
        final(notes)@ == old(notes)@ + notices(Role::Operand, pair@),
    decreases pair, 0nat,
{
    proof {
        lemma_node(pair);
        lemma_variable_balanced(pair@);
        lemma_child(Role::Operand, pair@, 0);
        lemma_first_notices(Role::Operand, pair@);
    }
    let ghost before = notes@;
    let ghost n = pair@;
    let value = parse_value(&pair.children[0], notes);
    let mut path: Vec<Path> = Vec::new();
    assert(notes@ =~= before + child_notices(Role::Operand, n, 0, 1));
    for i in 1..pair.children.len()
        invariant
            n == pair@,
            well_formed(Role::Operand, n),
            path.len() == i - 1,
            forall|j: int|
                0 <= j < i - 1 ==> path@[j]@ == syntax::path(#[trigger] n.children[j + 1]),
            notes@ == before + child_notices(Role::Operand, n, 0, i as nat),
    {
        proof {
            lemma_node(pair);
            lemma_child(Role::Operand, n, i as int);
        }
        let step = parse_path(&pair.children[i], notes);
        path.push(step);
        assert(notes@ =~= before + child_notices(Role::Operand, n, 0, (i + 1) as nat));
    }
    let variable = Variable { operator: None, value, path };
    assert(variable@.path =~= syntax::variable(n).path);
    assert(notes@ =~= before + notices(Role::Operand, n));
    variable
}

/// Reads one step of a postfix chain: a name is a member, an expression in
/// square brackets an index, a list of arguments a call.
pub fn parse_path(pair: &ParseNode, notes: &mut Vec<Notice>) -> (path: Path)
    requires
        well_formed(Role::Path, pair@),
    ensures
        path@ == syntax::path(pair@),
        path_balanced(path@),
        final(notes)@ == old(notes)@ + notices(Role::Path, pair@),
    decreases pair, 0nat,
{
    let ghost before = notes@;
    let ghost n = pair@;
    proof {
        lemma_node(pair);
        lemma_path_balanced(pair@);
        lemma_first_notices(Role::Path, n);
    }
    match pair.rule {
        Rule::Index => {
            proof {
                lemma_child(Role::Path, n, 0);
                lemma_notices_upto(Role::Path, n, 1);
            }
            let index = parse_expr(&pair.children[0], notes);
            assert(notes@ =~= before + notices(Role::Path, n));
            Path::Index(index)
        },
        Rule::Arguments => {
            proof {
                lemma_children(Role::Path, n, Role::Arg);
                lemma_notices_of_children(Role::Path, n, Role::Arg);
            }
            let args = parse_arguments(&pair.children, notes);
            assert(notes@ =~= before + notices(Role::Path, n));
            Path::Call(args)
        },
        _ => {
            proof {
                lemma_notices_upto(Role::Path, n, 0);
            }
            assert(notes@ =~= before + notices(Role::Path, n));
            Path::Member(pair.text.clone())
        },
    }
}

/// Reads a handle.
fn parse_id(pair: &ParseNode) -> (id: ID)
    requires
        well_formed(Role::Value, pair@),
        pair.rule == Rule::Id,
    ensures
        id == syntax::handle(pair@),
        notices(Role::Value, pair@) == Seq::<Notice>::empty(),
{
    let ghost n = pair@;
    proof {
        lemma_node(pair);
        lemma_child(Role::Value, pair@, 0);
        lemma_first_notices(Role::Value, n);
    }
    if pair.children[0].rule == Rule::Number {
        proof {
            lemma_child(Role::Value, n, 1);
            lemma_notices_upto(Role::Value, n, 2);
            lemma_notices_upto(Role::Number, n.children[0], 0);
            lemma_notices_upto(Role::Class, n.children[1], 0);
            lemma_first_notices(Role::Number, n.children[0]);
            lemma_first_notices(Role::Class, n.children[1]);
            assert(notices(Role::Value, n) =~= Seq::<Notice>::empty());
        }
        ID {
            number: parse_u16(pair.children[0].text.as_str()).unwrap(),
            unspecified: false,
            class_name: parse_class(pair.children[1].text.as_str()).unwrap(),
        }
    } else {
        proof {
            lemma_notices_upto(Role::Value, n, 1);
            lemma_notices_upto(Role::Class, n.children[0], 0);
            lemma_first_notices(Role::Class, n.children[0]);
            assert(notices(Role::Value, n) =~= Seq::<Notice>::empty());
        }
        ID {
            number: 0,
            unspecified: true,
            class_name: parse_class(pair.children[0].text.as_str()).unwrap(),
        }
    }
}

/// Reads the parameters of a macro, one from each node.
fn parse_params(nodes: &Vec<ParseNode>, notes: &mut Vec<Notice>) -> (args: Vec<ArgDef>)
    requires
        all_well_formed(Role::Param, forest(nodes@)),
    ensures
        arg_defs_view(args@) == syntax::params(forest(nodes@)),
        final(notes)@ == old(notes)@ + all_notices(Role::Param, forest(nodes@)),
    decreases nodes, 0nat,
{
    let ghost before = notes@;
    let ghost c = forest(nodes@);
    let mut args: Vec<ArgDef> = Vec::new();
    assert(notes@ =~= before + all_notices(Role::Param, c.take(0)));
    for i in 0..nodes.len()
        invariant
            c == forest(nodes@),
            all_well_formed(Role::Param, c),
            args.len() == i,
            forall|j: int| 0 <= j < i ==> arg_def_view(args@[j]) == syntax::param(#[trigger] c[j]),
            notes@ == before + all_notices(Role::Param, c.take(i as int)),
    {
        proof {
            lemma_forest(nodes@);
            assert(c.take(i + 1).drop_last() =~= c.take(i as int));
        }
        assert(well_formed(Role::Param, c[i as int]));
        let arg = parse_param(&nodes[i], notes);
        args.push(arg);
        assert(notes@ =~= before + all_notices(Role::Param, c.take(i + 1)));
    }
    proof {
        lemma_forest(nodes@);
        assert(c.take(c.len() as int) =~= c);
    }
    assert(arg_defs_view(args@) =~= syntax::params(c));
    args
}

/// Reads one parameter of a macro: its name and, if it has one, its default
/// value.
fn parse_param(node: &ParseNode, notes: &mut Vec<Notice>) -> (arg: ArgDef)
    requires
        well_formed(Role::Param, node@),
    ensures
        arg_def_view(arg) == syntax::param(node@),
        final(notes)@ == old(notes)@ + notices(Role::Param, node@),
    decreases node, 0nat,
{
    let ghost before = notes@;
    let ghost n = node@;
    proof {
        lemma_node(node);
        lemma_first_notices(Role::Param, n);
    }
    let name = node.children[0].text.clone();
    let default = if node.children.len() > 1 {
        proof {
            lemma_child(Role::Param, n, 1);
            lemma_notices_upto(Role::Param, n, 2);
        }
        let value = parse_expr(&node.children[1], notes);
        assert(notes@ =~= before + notices(Role::Param, n));
        Some(value)
    } else {
        proof {
            lemma_notices_upto(Role::Param, n, 1);
        }
        assert(notes@ =~= before + notices(Role::Param, n));
        None
    };
    let props = Tag { tags: Vec::new() };
    assert(props@.tags =~= Seq::empty());
    (name, default, props, None)
}

/// Reads the keys and values of an object literal, one pair from each node.
fn parse_obj(nodes: &Vec<ParseNode>, notes: &mut Vec<Notice>) -> (props: Vec<
    (Expression, Expression),
>)
    requires
        all_well_formed(Role::ObjProp, forest(nodes@)),
    ensures
        pairs_view(props@) == syntax::obj_props(forest(nodes@)),
        final(notes)@ == old(notes)@ + all_notices(Role::ObjProp, forest(nodes@)),
    decreases nodes, 0nat,
{
    let ghost before = notes@;
    let ghost c = forest(nodes@);
    let mut props: Vec<(Expression, Expression)> = Vec::new();
    assert(notes@ =~= before + all_notices(Role::ObjProp, c.take(0)));
    for i in 0..nodes.len()
        invariant
            c == forest(nodes@),
            all_well_formed(Role::ObjProp, c),
            props.len() == i,
            forall|j: int|
                0 <= j < i ==> (props@[j].0@, props@[j].1@) == syntax::obj_prop(#[trigger] c[j]),
            notes@ == before + all_notices(Role::ObjProp, c.take(i as int)),
    {
        proof {
            lemma_forest(nodes@);
            assert(c.take(i + 1).drop_last() =~= c.take(i as int));
        }
        assert(well_formed(Role::ObjProp, c[i as int]));
        let ghost so_far = notes@;
        let ghost p = c[i as int];
        proof {
            lemma_node(&nodes[i as int]);
            lemma_child(Role::ObjProp, p, 0);
            lemma_child(Role::ObjProp, p, 1);
            lemma_first_notices(Role::ObjProp, p);
            lemma_notices_upto(Role::ObjProp, p, 2);
        }
        let key = parse_expr(&nodes[i].children[0], notes);
        let val = parse_expr(&nodes[i].children[1], notes);
        props.push((key, val));
        assert(notes@ =~= so_far + notices(Role::ObjProp, p));
        assert(notes@ =~= before + all_notices(Role::ObjProp, c.take(i + 1)));
    }
    proof {
        lemma_forest(nodes@);
        assert(c.take(c.len() as int) =~= c);
    }
    assert(pairs_view(props@) =~= syntax::obj_props(c));
    props
}

/// Reads the elements of an array, one expression from each node.
fn parse_array(nodes: &Vec<ParseNode>, notes: &mut Vec<Notice>) -> (items: Vec<Expression>)
    requires
        all_well_formed(Role::Expr, forest(nodes@)),
    ensures
        expressions_view(items@) == syntax::expressions(forest(nodes@)),
        final(notes)@ == old(notes)@ + all_notices(Role::Expr, forest(nodes@)),
    decreases nodes, 0nat,
{
    let ghost before = notes@;
    let ghost c = forest(nodes@);
    let mut items: Vec<Expression> = Vec::new();
    assert(notes@ =~= before + all_notices(Role::Expr, c.take(0)));
    for i in 0..nodes.len()
        invariant
            c == forest(nodes@),
            all_well_formed(Role::Expr, c),
            items.len() == i,
            forall|j: int| 0 <= j < i ==> items@[j]@ == syntax::expression(#[trigger] c[j]),
            notes@ == before + all_notices(Role::Expr, c.take(i as int)),
    {
        proof {
            lemma_forest(nodes@);
            assert(c.take(i + 1).drop_last() =~= c.take(i as int));
        }
        assert(well_formed(Role::Expr, c[i as int]));
        let item = parse_expr(&nodes[i], notes);
        items.push(item);
        assert(notes@ =~= before + all_notices(Role::Expr, c.take(i + 1)));
    }
    proof {
        lemma_forest(nodes@);
        assert(c.take(c.len() as int) =~= c);
    }
    assert(expressions_view(items@) =~= syntax::expressions(c));
    items
}

/// Reads a value.
pub fn parse_value(pair: &ParseNode, notes: &mut Vec<Notice>) -> (value: ValueLiteral)
    requires
        well_formed(Role::Value, pair@),
    ensures
        value@ == syntax::value(pair@),
        value_balanced(value@),
        final(notes)@ == old(notes)@ + notices(Role::Value, pair@),
    decreases pair, 1nat,
{
    let ghost before = notes@;
    let ghost n = pair@;
    proof {
        lemma_node(pair);
        lemma_value_balanced(pair@);
        lemma_first_notices(Role::Value, n);
    }
    match pair.rule {
        Rule::Id => {
            let id = parse_id(pair);
            assert(notes@ =~= before + notices(Role::Value, n));
            ValueLiteral::ID(id)
        },
        Rule::MacroDef => {
            proof {
                lemma_child(Role::Value, n, 0);
                lemma_child(Role::Value, n, 1);
                lemma_node(&pair.children[0]);
                lemma_children(Role::Params, n.children[0], Role::Param);
                lemma_notices_of_children(Role::Params, n.children[0], Role::Param);
                lemma_notices_upto(Role::Value, n, 2);
            }
            let args = parse_params(&pair.children[0].children, notes);
            let body = CompoundStatement { statements: parse_block(&pair.children[1], notes) };
            assert(notes@ =~= before + notices(Role::Value, n));
            let properties = Tag { tags: Vec::new() };
            assert(properties@.tags =~= Seq::empty());
            ValueLiteral::Macro(Macro { args, body, properties })
        },
        Rule::Dictionary => {
            proof {
                lemma_children(Role::Value, n, Role::Entry);
                lemma_notices_of_children(Role::Value, n, Role::Entry);
            }
            let entries = parse_entries(&pair.children, notes);
            assert(notes@ =~= before + notices(Role::Value, n));
            ValueLiteral::Dictionary(entries)
        },
        Rule::CmpStmt => {
            proof {
                lemma_children(Role::Value, n, Role::Statement);
                lemma_notices_of_children(Role::Value, n, Role::Statement);
            }
            let statements = parse_statements(&pair.children, notes);
            assert(notes@ =~= before + notices(Role::Value, n));
            ValueLiteral::CmpStmt(CompoundStatement { statements })
        },
        Rule::Obj => {
            proof {
                lemma_children(Role::Value, n, Role::ObjProp);
                lemma_notices_of_children(Role::Value, n, Role::ObjProp);
            }
            let props = parse_obj(&pair.children, notes);
            assert(notes@ =~= before + notices(Role::Value, n));
            ValueLiteral::Obj(props)
        },
        Rule::ValueLiteral | Rule::Variable => {
            proof {
                lemma_child(Role::Value, n, 0);
                lemma_notices_upto(Role::Value, n, 1);
            }
            let value = parse_value(&pair.children[0], notes);
            assert(notes@ =~= before + notices(Role::Value, n));
            value
        },
        Rule::Expr => {
            proof {
                lemma_chain(Role::Value, n);
                lemma_notices_of_chain(Role::Value, n);
            }
            ValueLiteral::Expression(parse_expr(pair, notes))
        },
        Rule::Array => {
            proof {
                lemma_children(Role::Value, n, Role::Expr);
                lemma_notices_of_children(Role::Value, n, Role::Expr);
            }
            let items = parse_array(&pair.children, notes);
            assert(notes@ =~= before + notices(Role::Value, n));
            ValueLiteral::Array(items)
        },
        Rule::Number | Rule::Bool | Rule::Symbol | Rule::Str | Rule::Import => {
            proof {
                lemma_notices_upto(Role::Value, n, 0);
            }
            assert(notes@ =~= before + notices(Role::Value, n));
            match pair.rule {
                Rule::Number => ValueLiteral::Number(pair.text.clone()),
                Rule::Bool => ValueLiteral::Bool(same_text(&pair.text, "true")),
                Rule::Symbol => ValueLiteral::Symbol(pair.text.clone()),
                Rule::Str => ValueLiteral::Str(str_content(pair.text.clone())),
                _ => ValueLiteral::Import(str_content(pair.children[0].text.clone())),
            }
        },
        _ => {
            proof {
                lemma_notices_upto(Role::Value, n, 0);
            }
            notes.push(Notice { place: Place::Value, rule: pair.rule, line: pair.line });
            assert(notes@ =~= before + notices(Role::Value, n));
            ValueLiteral::Number("0".to_owned())
        },
    }
}

/// Reads a whole program from the root of its parse tree: the children of
/// `root` are its statements. Gives the statements and, beside them, the
/// notices of what the builder replaced by a stand-in; gives `None` where the
/// tree has not the shape that the builder can read.
pub fn parse_tree(root: &ParseNode) -> (program: Option<(Vec<Statement>, Vec<Notice>)>)
    ensures
        match program {
            Some((stmts, notes)) => {
                &&& well_formed(Role::Block, root@)
                &&& statements_view(stmts@) == syntax::statements(root@.children)
                &&& statements_balanced(statements_view(stmts@))
                &&& notes@ == notices(Role::Block, root@)
            },
            None => !well_formed(Role::Block, root@),
        },
{
    if check(Role::Block, root) {
        proof {
            lemma_block_balanced(root@);
        }
        let mut notes: Vec<Notice> = Vec::new();
        let stmts = parse_block(root, &mut notes);
        assert(notes@ =~= notices(Role::Block, root@));
        Some((stmts, notes))
    } else {
        None
    }
}

} // verus!
