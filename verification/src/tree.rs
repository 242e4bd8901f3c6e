//! The parse tree that the grammar hands to the tree builder.

use vstd::prelude::*;

verus! {

/// The production of the grammar that a node of the parse tree stands for.
#[derive(Clone, Copy, Debug, PartialEq, Eq, Structural)]
pub enum Rule {
    /// A definition, `name = value`, or an expression that is taken apart.
    Def,
    /// A call that stands as a statement.
    Call,
    IfStmt,
    /// A statement that adds an object.
    AddObj,
    Implement,
    Expr,
    /// A return statement.
    Retrn,
    /// The end of the input.
    EOI,
    /// A handle such as `10g` or `?g`.
    Id,
    MacroDef,
    Number,
    Bool,
    Dictionary,
    /// A block of statements in braces.
    CmpStmt,
    Obj,
    /// A wrapper around one value.
    ValueLiteral,
    /// A wrapper around one value and its postfix chain.
    Variable,
    Symbol,
    Str,
    Array,
    Import,
    /// An expression in square brackets behind a value.
    Index,
    /// A list of arguments in parentheses behind a value.
    Arguments,
    /// A binary operator between two operands.
    Operator,
    /// Any other production.
    Other,
}

/// A node of the parse tree: the production that matched, the text it
/// matched, the first and last line of that text, and the nodes of the
/// productions that matched inside it, in source order.
#[derive(Debug, PartialEq)]
pub struct ParseNode {
    pub rule: Rule,
    pub text: String,
    pub line: (usize, usize),
    pub children: Vec<ParseNode>,
}

/// The model of a `ParseNode`.
pub struct ParseTree {
    pub rule: Rule,
    pub text: Seq<char>,
    pub line: (usize, usize),
    pub children: Seq<ParseTree>,
}

/// The models of a list of nodes, one by one.
pub open spec fn forest(nodes: Seq<ParseNode>) -> Seq<ParseTree>
    decreases nodes,
{
    Seq::new(nodes.len(), |i: int| if 0 <= i < nodes.len() { nodes[i]@ } else { arbitrary() })
}

impl View for ParseNode {
    type V = ParseTree;

    open spec fn view(&self) -> ParseTree
        decreases self,
    {
        ParseTree {
            rule: self.rule,
            text: self.text@,
            line: self.line,
            children: forest(self.children@),
        }
    }
}

/// The model of a list of nodes has the model of each node at its place.
pub proof fn lemma_forest(nodes: Seq<ParseNode>)
    ensures
        forest(nodes).len() == nodes.len(),
        forall|i: int| 0 <= i < nodes.len() ==> #[trigger] forest(nodes)[i] == nodes[i]@,
{
}

/// The model of a node holds the fields of the node and the models of its
/// children.
pub proof fn lemma_node(node: &ParseNode)
    ensures
        node@.rule == node.rule,
        node@.text == node.text@,
        node@.line == node.line,
        node@.children == forest(node.children@),
        node@.children.len() == node.children.len(),
        forall|i: int|
            0 <= i < node.children.len() ==> {
                &&& #[trigger] node@.children[i] == node.children[i]@
                &&& node@.children[i].rule == node.children[i].rule
                &&& node@.children[i].text == node.children[i].text@
                &&& node@.children[i].line == node.children[i].line
                &&& node@.children[i].children.len() == node.children[i].children.len()
            },
{
    lemma_forest(node.children@);
    assert forall|i: int| 0 <= i < node.children.len() implies {
        &&& #[trigger] node@.children[i] == node.children[i]@
        &&& node@.children[i].rule == node.children[i].rule
        &&& node@.children[i].text == node.children[i].text@
        &&& node@.children[i].line == node.children[i].line
        &&& node@.children[i].children.len() == node.children[i].children.len()
    } by {
        lemma_forest(node.children[i].children@);
    }
}

impl Clone for ParseNode {
    fn clone(&self) -> (copy: Self)
        ensures
            copy@ == self@,
        decreases self,
    {
        let mut children: Vec<ParseNode> = Vec::new();
        for i in 0..self.children.len()
            invariant
                children.len() == i,
                forall|j: int| 0 <= j < i ==> children@[j]@ == self.children@[j]@,
        {
            children.push(self.children[i].clone());
        }
        let copy =
            ParseNode { rule: self.rule, text: self.text.clone(), line: self.line, children };
        proof {
            lemma_node(&copy);
            lemma_node(self);
            assert(copy@.children =~= self@.children);
        }
        copy
    }
}

} // verus!
