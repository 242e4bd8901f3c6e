//! The mathematical model of the syntax tree.
//!
//! Each type of the tree that holds text or a list has a view with the same
//! shape, in which a text is a sequence of characters and a list a sequence
//! of views. The contracts of the library speak of these views.

use vstd::prelude::*;
use crate::ast::{
    ArgDef, Argument, Call, CompoundStatement, Definition, DictDef, Error, Expression, For, If,
    Implementation, Macro, Operator, Path, Resolved, Statement, StatementBody, Tag, UnaryOperator,
    ValueLiteral, Variable, ID,
};

verus! {

pub enum DictDefView {
    Def((Seq<char>, ExpressionView)),
    Extract(ExpressionView),
}

pub struct StatementView {
    pub body: StatementBodyView,
    pub arrow: bool,
    pub line: (usize, usize),
}

pub enum StatementBodyView {
    Definition(DefinitionView),
    Call(CallView),
    Expr(ExpressionView),
    TypeDef(Seq<char>),
    Return(Option<ExpressionView>),
    Impl(ImplementationView),
    If(IfView),
    For(ForView),
    Error(ErrorView),
    Extract(ExpressionView),
    Add(ExpressionView),
    EOI,
}

pub enum ValueLiteralView {
    ID(ID),
    Number(Seq<char>),
    CmpStmt(CompoundStatementView),
    Dictionary(Seq<DictDefView>),
    Symbol(Seq<char>),
    Bool(bool),
    Expression(ExpressionView),
    Str(Seq<char>),
    Import(Seq<char>),
    Array(Seq<ExpressionView>),
    Obj(Seq<(ExpressionView, ExpressionView)>),
    Macro(MacroView),
    Resolved(Resolved),
    TypeIndicator(Seq<char>),
    Null,
}

pub struct TagView {
    pub tags: Seq<(Seq<char>, Seq<ArgumentView>)>,
}

pub enum PathView {
    Member(Seq<char>),
    Index(ExpressionView),
    Call(Seq<ArgumentView>),
}

pub struct DefinitionView {
    pub symbol: Seq<char>,
    pub value: ExpressionView,
    pub props: TagView,
}

pub struct ArgumentView {
    pub symbol: Option<Seq<char>>,
    pub value: ExpressionView,
}

pub struct CallView {
    pub function: VariableView,
}

pub type ArgDefView = (Seq<char>, Option<ExpressionView>, TagView, Option<ExpressionView>);

pub struct MacroView {
    pub args: Seq<ArgDefView>,
    pub body: CompoundStatementView,
    pub properties: TagView,
}

pub struct ForView {
    pub symbol: Seq<char>,
    pub array: ExpressionView,
    pub body: Seq<StatementView>,
}

pub struct ErrorView {
    pub message: ExpressionView,
}

pub struct VariableView {
    pub operator: Option<UnaryOperator>,
    pub value: ValueLiteralView,
    pub path: Seq<PathView>,
}

pub struct ExpressionView {
    pub values: Seq<VariableView>,
    pub operators: Seq<Operator>,
}

pub struct CompoundStatementView {
    pub statements: Seq<StatementView>,
}

pub struct ImplementationView {
    pub symbol: VariableView,
    pub members: Seq<DictDefView>,
}

pub struct IfView {
    pub condition: ExpressionView,
    pub if_body: Seq<StatementView>,
    pub else_body: Option<Seq<StatementView>>,
}

/// The views of a list of statements, one by one.
pub open spec fn statements_view(s: Seq<Statement>) -> Seq<StatementView>
    decreases s,
{
    Seq::new(s.len(), |i: int| if 0 <= i < s.len() { s[i]@ } else { arbitrary() })
}

/// The views of a list of expressions, one by one.
pub open spec fn expressions_view(s: Seq<Expression>) -> Seq<ExpressionView>
    decreases s,
{
    Seq::new(s.len(), |i: int| if 0 <= i < s.len() { s[i]@ } else { arbitrary() })
}

/// The views of a list of arguments, one by one.
pub open spec fn arguments_view(s: Seq<Argument>) -> Seq<ArgumentView>
    decreases s,
{
    Seq::new(s.len(), |i: int| if 0 <= i < s.len() { s[i]@ } else { arbitrary() })
}

/// The views of a list of dictionary entries, one by one.
pub open spec fn dict_defs_view(s: Seq<DictDef>) -> Seq<DictDefView>
    decreases s,
{
    Seq::new(s.len(), |i: int| if 0 <= i < s.len() { s[i]@ } else { arbitrary() })
}

/// The views of a list of operands, one by one.
pub open spec fn variables_view(s: Seq<Variable>) -> Seq<VariableView>
    decreases s,
{
    Seq::new(s.len(), |i: int| if 0 <= i < s.len() { s[i]@ } else { arbitrary() })
}

/// The views of the steps of a postfix chain, one by one.
pub open spec fn paths_view(s: Seq<Path>) -> Seq<PathView>
    decreases s,
{
    Seq::new(s.len(), |i: int| if 0 <= i < s.len() { s[i]@ } else { arbitrary() })
}

/// The views of the keys and values of an object literal, pair by pair.
pub open spec fn pairs_view(s: Seq<(Expression, Expression)>) -> Seq<
    (ExpressionView, ExpressionView),
>
    decreases s,
{
    Seq::new(s.len(), |i: int| if 0 <= i < s.len() { (s[i].0@, s[i].1@) } else { arbitrary() })
}

/// The views of a list of named properties, one by one.
pub open spec fn tags_view(s: Seq<(String, Vec<Argument>)>) -> Seq<
    (Seq<char>, Seq<ArgumentView>),
>
    decreases s,
{
    Seq::new(
        s.len(),
        |i: int| if 0 <= i < s.len() { (s[i].0@, arguments_view(s[i].1@)) } else { arbitrary() },
    )
}

/// The views of the parameters of a macro, one by one.
pub open spec fn arg_defs_view(s: Seq<ArgDef>) -> Seq<ArgDefView>
    decreases s,
{
    Seq::new(s.len(), |i: int| if 0 <= i < s.len() { arg_def_view(s[i]) } else { arbitrary() })
}

/// The view of an expression that may be missing.
pub open spec fn optional_view(o: Option<Expression>) -> Option<ExpressionView>
    decreases o,
{
    match o {
        Some(e) => Some(e@),
        None => None,
    }
}

/// The view of a macro parameter.
pub open spec fn arg_def_view(a: ArgDef) -> ArgDefView
    decreases a,
{
    (a.0@, optional_view(a.1), a.2@, optional_view(a.3))
}

impl View for DictDef {
    type V = DictDefView;

    open spec fn view(&self) -> DictDefView
        decreases self,
    {
        match self {
            DictDef::Def(d) => DictDefView::Def((d.0@, d.1@)),
            DictDef::Extract(e) => DictDefView::Extract(e@),
        }
    }
}

impl View for Statement {
    type V = StatementView;

    open spec fn view(&self) -> StatementView
        decreases self,
    {
        StatementView { body: self.body@, arrow: self.arrow, line: self.line }
    }
}

impl View for StatementBody {
    type V = StatementBodyView;

    open spec fn view(&self) -> StatementBodyView
        decreases self,
    {
        match self {
            StatementBody::Definition(d) => StatementBodyView::Definition(d@),
            StatementBody::Call(c) => StatementBodyView::Call(c@),
            StatementBody::Expr(e) => StatementBodyView::Expr(e@),
            StatementBody::TypeDef(name) => StatementBodyView::TypeDef(name@),
            StatementBody::Return(e) => StatementBodyView::Return(optional_view(*e)),
            StatementBody::Impl(i) => StatementBodyView::Impl(i@),
            StatementBody::If(i) => StatementBodyView::If(i@),
            StatementBody::For(f) => StatementBodyView::For(f@),
            StatementBody::Error(e) => StatementBodyView::Error(e@),
            StatementBody::Extract(e) => StatementBodyView::Extract(e@),
            StatementBody::Add(e) => StatementBodyView::Add(e@),
            StatementBody::EOI => StatementBodyView::EOI,
        }
    }
}

impl View for ValueLiteral {
    type V = ValueLiteralView;

    open spec fn view(&self) -> ValueLiteralView
        decreases self,
    {
        match self {
            ValueLiteral::ID(id) => ValueLiteralView::ID(*id),
            ValueLiteral::Number(text) => ValueLiteralView::Number(text@),
            ValueLiteral::CmpStmt(c) => ValueLiteralView::CmpStmt(c@),
            ValueLiteral::Dictionary(d) => ValueLiteralView::Dictionary(dict_defs_view(d@)),
            ValueLiteral::Symbol(name) => ValueLiteralView::Symbol(name@),
            ValueLiteral::Bool(b) => ValueLiteralView::Bool(*b),
            ValueLiteral::Expression(e) => ValueLiteralView::Expression(e@),
            ValueLiteral::Str(text) => ValueLiteralView::Str(text@),
            ValueLiteral::Import(path) => ValueLiteralView::Import(path@),
            ValueLiteral::Array(a) => ValueLiteralView::Array(expressions_view(a@)),
            ValueLiteral::Obj(o) => ValueLiteralView::Obj(pairs_view(o@)),
            ValueLiteral::Macro(m) => ValueLiteralView::Macro(m@),
            ValueLiteral::Resolved(r) => ValueLiteralView::Resolved(*r),
            ValueLiteral::TypeIndicator(name) => ValueLiteralView::TypeIndicator(name@),
            ValueLiteral::Null => ValueLiteralView::Null,
        }
    }
}

impl View for Tag {
    type V = TagView;

    open spec fn view(&self) -> TagView
        decreases self,
    {
        TagView { tags: tags_view(self.tags@) }
    }
}

impl View for Path {
    type V = PathView;

    open spec fn view(&self) -> PathView
        decreases self,
    {
        match self {
            Path::Member(name) => PathView::Member(name@),
            Path::Index(e) => PathView::Index(e@),
            Path::Call(args) => PathView::Call(arguments_view(args@)),
        }
    }
}

impl View for Definition {
    type V = DefinitionView;

    open spec fn view(&self) -> DefinitionView
        decreases self,
    {
        DefinitionView { symbol: self.symbol@, value: self.value@, props: self.props@ }
    }
}

impl View for Argument {
    type V = ArgumentView;

    open spec fn view(&self) -> ArgumentView
        decreases self,
    {
        ArgumentView {
            symbol: match self.symbol {
                Some(name) => Some(name@),
                None => None,
            },
            value: self.value@,
        }
    }
}

impl View for Call {
    type V = CallView;

    open spec fn view(&self) -> CallView
        decreases self,
    {
        CallView { function: self.function@ }
    }
}

impl View for Macro {
    type V = MacroView;

    open spec fn view(&self) -> MacroView
        decreases self,
    {
        MacroView {
            args: arg_defs_view(self.args@),
            body: self.body@,
            properties: self.properties@,
        }
    }
}

impl View for For {
    type V = ForView;

    open spec fn view(&self) -> ForView
        decreases self,
    {
        ForView { symbol: self.symbol@, array: self.array@, body: statements_view(self.body@) }
    }
}

impl View for Error {
    type V = ErrorView;

    open spec fn view(&self) -> ErrorView
        decreases self,
    {
        ErrorView { message: self.message@ }
    }
}

impl View for Variable {
    type V = VariableView;

    open spec fn view(&self) -> VariableView
        decreases self,
    {
        VariableView {
            operator: self.operator,
            value: self.value@,
            path: paths_view(self.path@),
        }
    }
}

impl View for Expression {
    type V = ExpressionView;

    open spec fn view(&self) -> ExpressionView
        decreases self,
    {
        ExpressionView { values: variables_view(self.values@), operators: self.operators@ }
    }
}

impl View for CompoundStatement {
    type V = CompoundStatementView;

    open spec fn view(&self) -> CompoundStatementView
        decreases self,
    {
        CompoundStatementView { statements: statements_view(self.statements@) }
    }
}

impl View for Implementation {
    type V = ImplementationView;

    open spec fn view(&self) -> ImplementationView
        decreases self,
    {
        ImplementationView { symbol: self.symbol@, members: dict_defs_view(self.members@) }
    }
}

impl View for If {
    type V = IfView;

    open spec fn view(&self) -> IfView
        decreases self,
    {
        IfView {
            condition: self.condition@,
            if_body: statements_view(self.if_body@),
            else_body: match self.else_body {
                Some(body) => Some(statements_view(body@)),
                None => None,
            },
        }
    }
}

/// The view of a list of statements holds the view of each statement at
/// its place.
pub proof fn lemma_statements_view(s: Seq<Statement>)
    ensures
        statements_view(s).len() == s.len(),
        forall|i: int| 0 <= i < s.len() ==> #[trigger] statements_view(s)[i] == s[i]@,
{
    reveal_with_fuel(statements_view, 3);
}

/// The arguments of the first of `tags` that is named `name`.
pub open spec fn lookup(tags: Seq<(Seq<char>, Seq<ArgumentView>)>, name: Seq<char>) -> Option<
    Seq<ArgumentView>,
>
    decreases tags.len(),
{
    if tags.len() == 0 {
        None
    } else if tags[0].0 == name {
        Some(tags[0].1)
    } else {
        lookup(tags.skip(1), name)
    }
}

/// The text that `{:?}` renders a value as.
pub uninterp spec fn debug_rendering(value: ValueLiteralView) -> Seq<char>;

impl TagView {
    /// The arguments of the first property named `name`.
    pub open spec fn get(self, name: Seq<char>) -> Option<Seq<ArgumentView>> {
        lookup(self.tags, name)
    }

    /// The description that the property `desc` gives: the text of its first
    /// argument where that is a string literal, else the rendering of the
    /// value that the argument starts with. There is none without a property
    /// `desc` and none where that property has no argument.
    pub open spec fn get_desc(self) -> Option<Seq<char>> {
        match self.get("desc"@) {
            Some(args) => if args.len() == 0 {
                None
            } else {
                match args[0].value.values[0].value {
                    ValueLiteralView::Str(text) => Some(text),
                    other => Some(debug_rendering(other)),
                }
            },
            None => None,
        }
    }
}

impl ExpressionView {
    /// The operand that is this expression in parentheses.
    pub open spec fn to_variable(self) -> VariableView {
        VariableView {
            operator: None,
            value: ValueLiteralView::Expression(self),
            path: Seq::empty(),
        }
    }
}

/// Where the first of `tags` that is named `name` stands at place `i`, the
/// lookup gives the arguments at that place.
pub proof fn lemma_lookup_first(
    tags: Seq<(Seq<char>, Seq<ArgumentView>)>,
    name: Seq<char>,
    i: int,
)
    requires
        0 <= i < tags.len(),
        tags[i].0 == name,
        forall|j: int| 0 <= j < i ==> (#[trigger] tags[j]).0 != name,
    ensures
        lookup(tags, name) == Some(tags[i].1),
    decreases i,
{
    if i > 0 {
        let rest = tags.skip(1);
        assert(tags[0].0 != name);
        assert(rest[i - 1] == tags[i]);
        assert forall|j: int| 0 <= j < i - 1 implies (#[trigger] rest[j]).0 != name by {
            assert(rest[j] == tags[j + 1]);
        }
        lemma_lookup_first(rest, name, i - 1);
    }
}

/// Where none of `tags` is named `name`, the lookup gives nothing.
pub proof fn lemma_lookup_none(tags: Seq<(Seq<char>, Seq<ArgumentView>)>, name: Seq<char>)
    requires
        forall|j: int| 0 <= j < tags.len() ==> (#[trigger] tags[j]).0 != name,
    ensures
        lookup(tags, name) is None,
    decreases tags.len(),
{
    if tags.len() > 0 {
        let rest = tags.skip(1);
        assert(tags[0].0 != name);
        assert forall|j: int| 0 <= j < rest.len() implies (#[trigger] rest[j]).0 != name by {
            assert(rest[j] == tags[j + 1]);
        }
        lemma_lookup_none(rest, name);
    }
}

/// A property list without a property `desc` gives no description.
pub proof fn lemma_desc_missing(t: TagView)
    requires
        forall|j: int| 0 <= j < t.tags.len() ==> (#[trigger] t.tags[j]).0 != "desc"@,
    ensures
        t.get_desc() is None,
{
    lemma_lookup_none(t.tags, "desc"@);
}

/// A property list whose first property `desc` has no argument gives no
/// description.
pub proof fn lemma_desc_without_argument(t: TagView, i: int)
    requires
        0 <= i < t.tags.len(),
        t.tags[i].0 == "desc"@,
        forall|j: int| 0 <= j < i ==> (#[trigger] t.tags[j]).0 != "desc"@,
        t.tags[i].1.len() == 0,
    ensures
        t.get_desc() is None,
{
    lemma_lookup_first(t.tags, "desc"@, i);
}

/// A property list whose first property `desc` has a string literal as its
/// first argument gives the text of that literal as description.
pub proof fn lemma_desc_of_string(t: TagView, i: int, text: Seq<char>)
    requires
        0 <= i < t.tags.len(),
        t.tags[i].0 == "desc"@,
        forall|j: int| 0 <= j < i ==> (#[trigger] t.tags[j]).0 != "desc"@,
        t.tags[i].1.len() > 0,
        t.tags[i].1[0].value.values[0].value == ValueLiteralView::Str(text),
    ensures
        t.get_desc() == Some(text),
{
    lemma_lookup_first(t.tags, "desc"@, i);
}

} // verus!
