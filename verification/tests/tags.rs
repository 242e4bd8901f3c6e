use spwn_lang::ast::{
    str_content, Argument, CompoundStatement, Expression, If, Operator, Path, Statement,
    StatementBody, Tag, ValueLiteral, Variable,
};
use spwn_lang::tree::{ParseNode, Rule};

fn plain(value: ValueLiteral) -> Variable {
    Variable { operator: None, value, path: vec![] }
}

fn just(value: ValueLiteral) -> Expression {
    Expression { values: vec![plain(value)], operators: vec![] }
}

fn text(s: &str) -> ValueLiteral {
    ValueLiteral::Str(s.to_string())
}

fn positional(value: ValueLiteral) -> Argument {
    Argument { symbol: None, value: just(value) }
}

#[test]
fn new_tag_is_empty() {
    let tag = Tag::new();
    assert_eq!(tag.tags.len(), 0);
    assert_eq!(tag.get("desc"), None);
    assert_eq!(tag.get_desc(), None);
}

#[test]
fn get_finds_the_first_match() {
    let tag = Tag {
        tags: vec![
            ("a".to_string(), vec![positional(text("one"))]),
            ("b".to_string(), vec![]),
            ("a".to_string(), vec![positional(text("two"))]),
        ],
    };
    assert_eq!(tag.get("a"), Some(vec![positional(text("one"))]));
    assert_eq!(tag.get("b"), Some(vec![]));
    assert_eq!(tag.get("c"), None);
    assert_eq!(tag.get(""), None);
}

#[test]
fn description_without_desc_entry() {
    let tag = Tag { tags: vec![("constructor".to_string(), vec![positional(text("x"))])] };
    assert_eq!(tag.get_desc(), None);
}

#[test]
fn description_without_argument() {
    let tag = Tag {
        tags: vec![
            ("desc".to_string(), vec![]),
            ("desc".to_string(), vec![positional(text("later"))]),
        ],
    };
    assert_eq!(tag.get_desc(), None);
}

#[test]
fn description_from_string_literal() {
    let tag = Tag {
        tags: vec![
            ("other".to_string(), vec![]),
            ("desc".to_string(), vec![positional(text("Moves a group")), positional(text("b"))]),
        ],
    };
    assert_eq!(tag.get_desc(), Some("Moves a group".to_string()));
}

#[test]
fn description_from_other_value_is_its_rendering() {
    let tag = Tag {
        tags: vec![("desc".to_string(), vec![positional(ValueLiteral::Symbol("x".to_string()))])],
    };
    assert_eq!(tag.get_desc(), Some("Symbol(\"x\")".to_string()));
    let tag = Tag { tags: vec![("desc".to_string(), vec![positional(ValueLiteral::Null)])] };
    assert_eq!(tag.get_desc(), Some("Null".to_string()));
    let tag = Tag { tags: vec![("desc".to_string(), vec![positional(ValueLiteral::Bool(true))])] };
    assert_eq!(tag.get_desc(), Some("Bool(true)".to_string()));
}

#[test]
fn expression_as_one_operand() {
    let sum = Expression {
        values: vec![
            plain(ValueLiteral::Symbol("a".to_string())),
            plain(ValueLiteral::Number("1".to_string())),
        ],
        operators: vec![Operator::Plus],
    };
    let variable = sum.to_variable();
    assert_eq!(variable.operator, None);
    assert_eq!(variable.path, vec![]);
    assert_eq!(variable.value, ValueLiteral::Expression(sum));
}

#[test]
fn copies_are_equal() {
    let body = vec![Statement {
        body: StatementBody::Return(Some(just(ValueLiteral::Null))),
        arrow: true,
        line: (3, 4),
    }];
    let tree = Statement {
        body: StatementBody::If(If {
            condition: Expression {
                values: vec![
                    Variable {
                        operator: None,
                        value: ValueLiteral::Symbol("a".to_string()),
                        path: vec![
                            Path::Member("b".to_string()),
                            Path::Call(vec![Argument {
                                symbol: Some("k".to_string()),
                                value: just(ValueLiteral::CmpStmt(CompoundStatement {
                                    statements: body.clone(),
                                })),
                            }]),
                        ],
                    },
                    plain(ValueLiteral::Array(vec![just(text("x"))])),
                ],
                operators: vec![Operator::Equal],
            },
            if_body: body.clone(),
            else_body: Some(vec![]),
        }),
        arrow: false,
        line: (1, 5),
    };
    assert_eq!(tree.clone(), tree);
}

#[test]
fn string_normalizer_beside_the_tree() {
    assert_eq!(str_content("\"quoted\"".to_string()), "quoted");
}

#[test]
fn parse_tree_copies_are_equal() {
    let tree = ParseNode {
        rule: Rule::Expr,
        text: "a".to_string(),
        line: (1, 2),
        children: vec![ParseNode {
            rule: Rule::Symbol,
            text: "a".to_string(),
            line: (1, 1),
            children: vec![],
        }],
    };
    assert_eq!(tree.clone(), tree);
}
