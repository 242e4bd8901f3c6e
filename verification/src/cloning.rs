//! Copies of syntax trees.
//!
//! A copy has the view of the tree it was made from.

use vstd::prelude::*;
use crate::ast::{
    ArgDef, Argument, Call, CompoundStatement, Definition, DictDef, Error, Expression, For, If,
    Implementation, Macro, Path, Statement, StatementBody, Tag, ValueLiteral, Variable,
};
use crate::model::{
    arg_def_view, arg_defs_view, arguments_view, dict_defs_view, expressions_view,
    lemma_statements_view, optional_view, pairs_view, paths_view, statements_view, tags_view,
    variables_view,
};

verus! {

/// Copies a list of statements.
fn clone_statements(list: &Vec<Statement>) -> (copy: Vec<Statement>)
    ensures
        statements_view(copy@) == statements_view(list@),
    decreases list,
{
    let mut copy: Vec<Statement> = Vec::new();
    for i in 0..list.len()
        invariant
            copy.len() == i,
            forall|j: int| 0 <= j < i ==> copy@[j]@ == list@[j]@,
    {
        copy.push(list[i].clone());
    }
    proof {
        lemma_statements_view(copy@);
        lemma_statements_view(list@);
    }
    assert(statements_view(copy@) =~= statements_view(list@));
    copy
}

/// Copies a list of operands.
fn clone_variables(list: &Vec<Variable>) -> (copy: Vec<Variable>)
    ensures
        variables_view(copy@) == variables_view(list@),
    decreases list,
{
    let mut copy: Vec<Variable> = Vec::new();
    for i in 0..list.len()
        invariant
            copy.len() == i,
            forall|j: int| 0 <= j < i ==> copy@[j]@ == list@[j]@,
    {
        copy.push(list[i].clone());
    }
    assert(variables_view(copy@) =~= variables_view(list@));
    copy
}

/// Copies the steps of a postfix chain.
fn clone_paths(list: &Vec<Path>) -> (copy: Vec<Path>)
    ensures
        paths_view(copy@) == paths_view(list@),
    decreases list,
{
    let mut copy: Vec<Path> = Vec::new();
    for i in 0..list.len()
        invariant
            copy.len() == i,
            forall|j: int| 0 <= j < i ==> copy@[j]@ == list@[j]@,
    {
        copy.push(list[i].clone());
    }
    assert(paths_view(copy@) =~= paths_view(list@));
    copy
}

/// Copies a list of arguments.
pub fn clone_arguments(list: &Vec<Argument>) -> (copy: Vec<Argument>)
    ensures
        arguments_view(copy@) == arguments_view(list@),
    decreases list,
{
    let mut copy: Vec<Argument> = Vec::new();
    for i in 0..list.len()
        invariant
            copy.len() == i,
            forall|j: int| 0 <= j < i ==> copy@[j]@ == list@[j]@,
    {
        copy.push(list[i].clone());
    }
    assert(arguments_view(copy@) =~= arguments_view(list@));
    copy
}

/// Copies a list of expressions.
fn clone_expressions(list: &Vec<Expression>) -> (copy: Vec<Expression>)
    ensures
        expressions_view(copy@) == expressions_view(list@),
    decreases list,
{
    let mut copy: Vec<Expression> = Vec::new();
    for i in 0..list.len()
        invariant
            copy.len() == i,
            forall|j: int| 0 <= j < i ==> copy@[j]@ == list@[j]@,
    {
        copy.push(list[i].clone());
    }
    assert(expressions_view(copy@) =~= expressions_view(list@));
    copy
}

/// Copies the keys and values of an object literal.
fn clone_pairs(list: &Vec<(Expression, Expression)>) -> (copy: Vec<(Expression, Expression)>)
    ensures
        pairs_view(copy@) == pairs_view(list@),
    decreases list,
{
    let mut copy: Vec<(Expression, Expression)> = Vec::new();
    for i in 0..list.len()
        invariant
            copy.len() == i,
            forall|j: int|
                0 <= j < i ==> copy@[j].0@ == list@[j].0@ && copy@[j].1@ == list@[j].1@,
    {
        copy.push((list[i].0.clone(), list[i].1.clone()));
    }
    assert(pairs_view(copy@) =~= pairs_view(list@));
    copy
}

/// Copies the entries of a dictionary.
fn clone_dict_defs(list: &Vec<DictDef>) -> (copy: Vec<DictDef>)
    ensures
        dict_defs_view(copy@) == dict_defs_view(list@),
    decreases list,
{
    let mut copy: Vec<DictDef> = Vec::new();
    for i in 0..list.len()
        invariant
            copy.len() == i,
            forall|j: int| 0 <= j < i ==> copy@[j]@ == list@[j]@,
    {
        copy.push(list[i].clone());
    }
    assert(dict_defs_view(copy@) =~= dict_defs_view(list@));
    copy
}

/// Copies an expression that may be missing.
fn clone_optional(e: &Option<Expression>) -> (copy: Option<Expression>)
    ensures
        optional_view(copy) == optional_view(*e),
    decreases e,
{
    match e {
        Some(e) => Some(e.clone()),
        None => None,
    }
}

/// Copies the parameters of a macro.
fn clone_arg_defs(list: &Vec<ArgDef>) -> (copy: Vec<ArgDef>)
    ensures
        arg_defs_view(copy@) == arg_defs_view(list@),
    decreases list,
{
    let mut copy: Vec<ArgDef> = Vec::new();
    for i in 0..list.len()
        invariant
            copy.len() == i,
            forall|j: int| 0 <= j < i ==> arg_def_view(copy@[j]) == arg_def_view(list@[j]),
    {
        let arg = &list[i];
        copy.push((arg.0.clone(), clone_optional(&arg.1), arg.2.clone(), clone_optional(&arg.3)));
    }
    assert(arg_defs_view(copy@) =~= arg_defs_view(list@));
    copy
}

/// Copies a list of named properties.
fn clone_tags(list: &Vec<(String, Vec<Argument>)>) -> (copy: Vec<(String, Vec<Argument>)>)
    ensures
        tags_view(copy@) == tags_view(list@),
    decreases list,
{
    let mut copy: Vec<(String, Vec<Argument>)> = Vec::new();
    for i in 0..list.len()
        invariant
            copy.len() == i,
            forall|j: int|
                0 <= j < i ==> copy@[j].0@ == list@[j].0@ && arguments_view(copy@[j].1@)
                    == arguments_view(list@[j].1@),
    {
        copy.push((list[i].0.clone(), clone_arguments(&list[i].1)));
    }
    assert(tags_view(copy@) =~= tags_view(list@));
    copy
}

impl Clone for DictDef {
    fn clone(&self) -> (copy: Self)
        ensures
            copy@ == self@,
        decreases self,
    {
        match self {
            DictDef::Def(d) => DictDef::Def((d.0.clone(), d.1.clone())),
            DictDef::Extract(e) => DictDef::Extract(e.clone()),
        }
    }
}

impl Clone for Statement {
    fn clone(&self) -> (copy: Self)
        ensures
            copy@ == self@,
        decreases self,
    {
        Statement { body: self.body.clone(), arrow: self.arrow, line: self.line }
    }
}

impl Clone for StatementBody {
    fn clone(&self) -> (copy: Self)
        ensures
            copy@ == self@,
        decreases self,
    {
        match self {
            StatementBody::Definition(d) => StatementBody::Definition(d.clone()),
            StatementBody::Call(c) => StatementBody::Call(c.clone()),
            StatementBody::Expr(e) => StatementBody::Expr(e.clone()),
            StatementBody::TypeDef(name) => StatementBody::TypeDef(name.clone()),
            StatementBody::Return(e) => StatementBody::Return(clone_optional(e)),
            StatementBody::Impl(i) => StatementBody::Impl(i.clone()),
            StatementBody::If(i) => StatementBody::If(i.clone()),
            StatementBody::For(f) => StatementBody::For(f.clone()),
            StatementBody::Error(e) => StatementBody::Error(e.clone()),
            StatementBody::Extract(e) => StatementBody::Extract(e.clone()),
            StatementBody::Add(e) => StatementBody::Add(e.clone()),
            StatementBody::EOI => StatementBody::EOI,
        }
    }
}

impl Clone for ValueLiteral {
    fn clone(&self) -> (copy: Self)
        ensures
            copy@ == self@,
        decreases self,
    {
        match self {
            ValueLiteral::ID(id) => ValueLiteral::ID(*id),
            ValueLiteral::Number(text) => ValueLiteral::Number(text.clone()),
            ValueLiteral::CmpStmt(c) => ValueLiteral::CmpStmt(c.clone()),
            ValueLiteral::Dictionary(d) => ValueLiteral::Dictionary(clone_dict_defs(d)),
            ValueLiteral::Symbol(name) => ValueLiteral::Symbol(name.clone()),
            ValueLiteral::Bool(b) => ValueLiteral::Bool(*b),
            ValueLiteral::Expression(e) => ValueLiteral::Expression(e.clone()),
            ValueLiteral::Str(text) => ValueLiteral::Str(text.clone()),
            ValueLiteral::Import(path) => ValueLiteral::Import(path.clone()),
            ValueLiteral::Array(a) => ValueLiteral::Array(clone_expressions(a)),
            ValueLiteral::Obj(o) => ValueLiteral::Obj(clone_pairs(o)),
            ValueLiteral::Macro(m) => ValueLiteral::Macro(m.clone()),
            ValueLiteral::Resolved(r) => ValueLiteral::Resolved(*r),
            ValueLiteral::TypeIndicator(name) => ValueLiteral::TypeIndicator(name.clone()),
            ValueLiteral::Null => ValueLiteral::Null,
        }
    }
}

impl Clone for Tag {
    fn clone(&self) -> (copy: Self)
        ensures
            copy@ == self@,
        decreases self,
    {
        Tag { tags: clone_tags(&self.tags) }
    }
}

impl Clone for Path {
    fn clone(&self) -> (copy: Self)
        ensures
            copy@ == self@,
        decreases self,
    {
        match self {
            Path::Member(name) => Path::Member(name.clone()),
            Path::Index(e) => Path::Index(e.clone()),
            Path::Call(args) => Path::Call(clone_arguments(args)),
        }
    }
}

impl Clone for Definition {
    fn clone(&self) -> (copy: Self)
        ensures
            copy@ == self@,
        decreases self,
    {
        Definition {
            symbol: self.symbol.clone(),
            value: self.value.clone(),
            props: self.props.clone(),
        }
    }
}

impl Clone for Argument {
    fn clone(&self) -> (copy: Self)
        ensures
            copy@ == self@,
        decreases self,
    {
        Argument {
            symbol: match &self.symbol {
                Some(name) => Some(name.clone()),
                None => None,
            },
            value: self.value.clone(),
        }
    }
}

impl Clone for Call {
    fn clone(&self) -> (copy: Self)
        ensures
            copy@ == self@,
        decreases self,
    {
        Call { function: self.function.clone() }
    }
}

impl Clone for Macro {
    fn clone(&self) -> (copy: Self)
        ensures
            copy@ == self@,
        decreases self,
    {
        Macro {
            args: clone_arg_defs(&self.args),
            body: self.body.clone(),
            properties: self.properties.clone(),
        }
    }
}

impl Clone for For {
    fn clone(&self) -> (copy: Self)
        ensures
            copy@ == self@,
        decreases self,
    {
        For {
            symbol: self.symbol.clone(),
            array: self.array.clone(),
            body: clone_statements(&self.body),
        }
    }
}

impl Clone for Error {
    fn clone(&self) -> (copy: Self)
        ensures
            copy@ == self@,
        decreases self,
    {
        Error { message: self.message.clone() }
    }
}

impl Clone for Variable {
    fn clone(&self) -> (copy: Self)
        ensures
            copy@ == self@,
        decreases self,
    {
        Variable {
            operator: self.operator,
            value: self.value.clone(),
            path: clone_paths(&self.path),
        }
    }
}

impl Clone for Expression {
    fn clone(&self) -> (copy: Self)
        ensures
            copy@ == self@,
        decreases self,
    {
        let mut operators = Vec::new();
        for i in 0..self.operators.len()
            invariant
                operators@ == self.operators@.take(i as int),
        {
            operators.push(self.operators[i]);
            assert(self.operators@.take(i + 1) =~= self.operators@.take(i as int).push(
                self.operators@[i as int],
            ));
        }
        assert(self.operators@.take(self.operators@.len() as int) =~= self.operators@);
        Expression { values: clone_variables(&self.values), operators }
    }
}

impl Clone for CompoundStatement {
    fn clone(&self) -> (copy: Self)
        ensures
            copy@ == self@,
        decreases self,
    {
        CompoundStatement { statements: clone_statements(&self.statements) }
    }
}

impl Clone for Implementation {
    fn clone(&self) -> (copy: Self)
        ensures
            copy@ == self@,
        decreases self,
    {
        Implementation { symbol: self.symbol.clone(), members: clone_dict_defs(&self.members) }
    }
}

impl Clone for If {
    fn clone(&self) -> (copy: Self)
        ensures
            copy@ == self@,
        decreases self,
    {
        If {
            condition: self.condition.clone(),
            if_body: clone_statements(&self.if_body),
            else_body: match &self.else_body {
                Some(body) => Some(clone_statements(body)),
                None => None,
            },
        }
    }
}

} // verus!
