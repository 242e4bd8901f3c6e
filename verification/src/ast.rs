//! The syntax tree of a SPWN program.
//!
//! Every value is an immutable tree that owns its children. The trees are
//! built once per source file and handed to the compiler as they are.

use vstd::prelude::*;
use crate::cloning::clone_arguments;
use crate::model::{arguments_view, debug_rendering, lookup, TagView};
pub use crate::text::str_content;

verus! {

/// One entry of a dictionary literal or of an implementation block.
#[derive(Debug, PartialEq)]
pub enum DictDef {
    /// `name: value`
    Def((String, Expression)),
    /// `..value`: every member of `value` is taken over.
    Extract(Expression),
}

/// A statement together with where it stands in the source.
#[derive(Debug, PartialEq)]
pub struct Statement {
    pub body: StatementBody,
    /// Whether the statement forks the context it runs in. Only the compiler
    /// reads this flag.
    pub arrow: bool,
    /// First and last source line of the statement.
    pub line: (usize, usize),
}

#[derive(Debug, PartialEq)]
pub enum StatementBody {
    Definition(Definition),
    Call(Call),
    Expr(Expression),
    TypeDef(String),
    Return(Option<Expression>),
    Impl(Implementation),
    If(If),
    For(For),
    Error(Error),
    Extract(Expression),
    /// Adds the object that the expression yields to the level.
    Add(Expression),
    /// The end of the input, and the stand-in for a construct that the tree
    /// builder does not know.
    EOI,
}

#[derive(Debug, PartialEq)]
pub enum ValueLiteral {
    ID(ID),
    /// A number, kept as it was written in the source. The compiler reads its
    /// value.
    Number(String),
    CmpStmt(CompoundStatement),
    Dictionary(Vec<DictDef>),
    Symbol(String),
    Bool(bool),
    /// An expression in parentheses.
    Expression(Expression),
    Str(String),
    /// The path of the imported file, relative to the importing one.
    Import(String),
    Array(Vec<Expression>),
    Obj(Vec<(Expression, Expression)>),
    Macro(Macro),
    /// A value that a later stage has put in place of a literal.
    Resolved(Resolved),
    TypeIndicator(String),
    Null,
}

/// A value that the compiler has already worked out. The front end never
/// makes one and never looks inside: it only carries the key under which the
/// compiler keeps the value.
#[derive(Clone, Copy, Debug, PartialEq, Eq)]
pub struct Resolved {
    pub key: u64,
}

#[derive(Clone, Copy, Debug, PartialEq, Eq)]
pub enum Operator {
    Or,
    And,
    Equal,
    NotEqual,
    Range,
    MoreOrEqual,
    LessOrEqual,
    More,
    Less,
    Slash,
    Star,
    Power,
    Plus,
    Minus,
    Modulo,
    Assign,
    Add,
    Subtract,
    Multiply,
    Divide,
}

#[derive(Clone, Copy, Debug, PartialEq, Eq)]
pub enum UnaryOperator {
    Not,
    Minus,
    Range,
}

#[derive(Clone, Copy, Debug, PartialEq, Eq)]
pub enum IDClass {
    Group,
    Color,
    Item,
    Block,
}

/// An ordered list of named properties. A name may occur more than once; a
/// lookup finds the first.
#[derive(Debug, PartialEq)]
pub struct Tag {
    pub tags: Vec<(String, Vec<Argument>)>,
}

/// One step of a postfix chain such as `a.b[c](d)`.
#[derive(Debug, PartialEq)]
pub enum Path {
    Member(String),
    Index(Expression),
    Call(Vec<Argument>),
}

/// Binds `symbol` to a value. The symbol `*` stands for a definition that
/// names no target and takes the value apart instead.
#[derive(Debug, PartialEq)]
pub struct Definition {
    pub symbol: String,
    pub value: Expression,
    pub props: Tag,
}

/// An argument of a call or of a property, with its keyword if it has one.
#[derive(Debug, PartialEq)]
pub struct Argument {
    pub symbol: Option<String>,
    pub value: Expression,
}

/// A call that stands as a statement of its own.
#[derive(Debug, PartialEq)]
pub struct Call {
    pub function: Variable,
}

/// A parameter of a macro: its name, its default value, its properties and
/// the expression that names its type.
pub type ArgDef = (String, Option<Expression>, Tag, Option<Expression>);

#[derive(Debug, PartialEq)]
pub struct Macro {
    pub args: Vec<ArgDef>,
    pub body: CompoundStatement,
    pub properties: Tag,
}

#[derive(Debug, PartialEq)]
pub struct For {
    pub symbol: String,
    pub array: Expression,
    pub body: Vec<Statement>,
}

#[derive(Debug, PartialEq)]
pub struct Error {
    pub message: Expression,
}

/// One operand of an expression: a value, the operator in front of it and
/// the postfix chain behind it, applied from left to right.
#[derive(Debug, PartialEq)]
pub struct Variable {
    pub operator: Option<UnaryOperator>,
    pub value: ValueLiteral,
    pub path: Vec<Path>,
}

/// A chain of operands with a binary operator between each two neighbours.
/// One chain holds the operators of one precedence tier; tighter tiers are
/// nested in it as operands in parentheses.
#[derive(Debug, PartialEq)]
pub struct Expression {
    pub values: Vec<Variable>,
    pub operators: Vec<Operator>,
}

#[derive(Debug, PartialEq)]
pub struct CompoundStatement {
    pub statements: Vec<Statement>,
}

#[derive(Debug, PartialEq)]
pub struct Implementation {
    pub symbol: Variable,
    pub members: Vec<DictDef>,
}

#[derive(Debug, PartialEq)]
pub struct If {
    pub condition: Expression,
    pub if_body: Vec<Statement>,
    pub else_body: Option<Vec<Statement>>,
}

/// A handle into one of the four classes of addressable things. Where
/// `unspecified` is set the number means nothing and the compiler picks one.
#[derive(Clone, Copy, Debug, PartialEq, Eq)]
pub struct ID {
    pub number: u16,
    pub unspecified: bool,
    pub class_name: IDClass,
}

/// `format!` with `{:?}` on a value: the rendering that the derived `Debug`
/// gives. The rendering depends on nothing but the value.
#[verifier::external_body]
fn debug_text(value: &ValueLiteral) -> (text: String)
    ensures
        text@ == debug_rendering(value@),
{
    format!("{:?}", value)
}

impl Tag {
    /// The property list without a property.
    pub fn new() -> (tag: Tag)
        ensures
            tag@ == (TagView { tags: Seq::empty() }),
    {
        let tag = Tag { tags: Vec::new() };
        assert(tag@.tags =~= Seq::empty());
        tag
    }

    /// The place of the first property named `t`.
    fn find(&self, t: &str) -> (at: Option<usize>)
        ensures
            match at {
                Some(i) => i < self.tags.len() && self@.get(t@) == Some(
                    arguments_view(self.tags@[i as int].1@),
                ),
                None => self@.get(t@) is None,
            },
    {
        let name = t.to_owned();
        let ghost tags = self@.tags;
        assert(tags.skip(0) =~= tags);
        for i in 0..self.tags.len()
            invariant
                name@ == t@,
                tags == self@.tags,
                tags.len() == self.tags.len(),
                lookup(tags, t@) == lookup(tags.skip(i as int), t@),
        {
            assert(tags.skip(i as int)[0] == tags[i as int]);
            assert(tags.skip(i as int).skip(1) =~= tags.skip(i + 1));
            if self.tags[i].0 == name {
                return Some(i);
            }
        }
        None
    }

    /// The arguments of the first property named `t`.
    pub fn get(&self, t: &str) -> (args: Option<Vec<Argument>>)
        ensures
            match args {
                Some(args) => self@.get(t@) == Some(arguments_view(args@)),
                None => self@.get(t@) is None,
            },
    {
        match self.find(t) {
            Some(i) => Some(clone_arguments(&self.tags[i].1)),
            None => None,
        }
    }

    /// The description that the property `desc` gives, if there is one.
    pub fn get_desc(&self) -> (desc: Option<String>)
        requires
            self@.get("desc"@) matches Some(args) ==> args.len() > 0
                ==> args[0].value.values.len() > 0,
        ensures
            match desc {
                Some(text) => self@.get_desc() == Some(text@),
                None => self@.get_desc() is None,
            },
    {
        match self.find("desc") {
            Some(i) => {
                let args = &self.tags[i].1;
                if args.len() == 0 {
                    None
                } else {
                    match &args[0].value.values[0].value {
                        ValueLiteral::Str(s) => Some(s.clone()),
                        a => Some(debug_text(a)),
                    }
                }
            },
            None => None,
        }
    }
}

impl Expression {
    /// This expression in parentheses, as one operand.
    pub fn to_variable(&self) -> (variable: Variable)
        ensures
            variable@ == self@.to_variable(),
    {
        let variable = Variable {
            operator: None,
            value: ValueLiteral::Expression(self.clone()),
            path: Vec::new(),
        };
        assert(variable@.path =~= Seq::empty());
        variable
    }
}

} // verus!
