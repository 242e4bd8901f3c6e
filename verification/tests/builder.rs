use spwn_lang::ast::{
    Argument, Call, CompoundStatement, Definition, DictDef, Expression, IDClass, If,
    Implementation, Macro, Operator, Path, Statement, StatementBody, Tag, ValueLiteral, Variable,
    ID,
};
use spwn_lang::notice::{Notice, Place};
use spwn_lang::parser::{
    parse_expr, parse_path, parse_statements, parse_tree, parse_value, parse_variable,
};
use spwn_lang::shape::{check, check_all, Role};
use spwn_lang::tree::{ParseNode, Rule};

fn node(rule: Rule, text: &str, children: Vec<ParseNode>) -> ParseNode {
    ParseNode { rule, text: text.to_string(), line: (1, 1), children }
}

fn leaf(rule: Rule, text: &str) -> ParseNode {
    node(rule, text, vec![])
}

/// A node of a production that the builder knows by no name.
fn other(children: Vec<ParseNode>) -> ParseNode {
    node(Rule::Other, "", children)
}

/// A node without text and children on the lines `line`.
fn on_lines(rule: Rule, line: (usize, usize)) -> ParseNode {
    ParseNode { rule, text: String::new(), line, children: vec![] }
}

/// The parse tree of `left op right`.
fn binary(left: ParseNode, op: &str, right: ParseNode) -> ParseNode {
    node(Rule::Expr, "", vec![operand(left), leaf(Rule::Operator, op), operand(right)])
}

/// The parse tree of an operand that is the one value `value`.
fn operand(value: ParseNode) -> ParseNode {
    node(Rule::Variable, "", vec![value])
}

/// The parse tree of an expression that is the one value `value`.
fn single(value: ParseNode) -> ParseNode {
    node(Rule::Expr, "", vec![operand(value)])
}

fn plain(value: ValueLiteral) -> Variable {
    Variable { operator: None, value, path: vec![] }
}

fn just(value: ValueLiteral) -> Expression {
    Expression { values: vec![plain(value)], operators: vec![] }
}

fn symbol(name: &str) -> ValueLiteral {
    ValueLiteral::Symbol(name.to_string())
}

fn number(text: &str) -> ValueLiteral {
    ValueLiteral::Number(text.to_string())
}

fn statement(body: StatementBody) -> Statement {
    Statement { body, arrow: false, line: (1, 1) }
}

fn value_of(tree: &ParseNode) -> ValueLiteral {
    assert!(check(Role::Value, tree));
    parse_value(tree, &mut Vec::new())
}

fn statements_of(nodes: &Vec<ParseNode>) -> Vec<Statement> {
    assert!(check_all(Role::Statement, nodes));
    parse_statements(nodes, &mut Vec::new())
}

#[test]
fn handle_with_number() {
    let tree = node(Rule::Id, "10g", vec![leaf(Rule::Number, "10"), leaf(Rule::Other, "g")]);
    assert_eq!(
        value_of(&tree),
        ValueLiteral::ID(ID { number: 10, unspecified: false, class_name: IDClass::Group })
    );
}

#[test]
fn handle_without_number() {
    let tree = node(Rule::Id, "?g", vec![leaf(Rule::Other, "g")]);
    assert_eq!(
        value_of(&tree),
        ValueLiteral::ID(ID { number: 0, unspecified: true, class_name: IDClass::Group })
    );
}

#[test]
fn handle_classes() {
    let classes =
        [("g", IDClass::Group), ("c", IDClass::Color), ("i", IDClass::Item), ("b", IDClass::Block)];
    for (letter, class) in classes {
        let tree = node(Rule::Id, "", vec![leaf(Rule::Number, "65535"), leaf(Rule::Other, letter)]);
        assert_eq!(
            value_of(&tree),
            ValueLiteral::ID(ID { number: 65535, unspecified: false, class_name: class })
        );
    }
}

#[test]
fn handle_that_cannot_be_read() {
    let too_large = node(Rule::Id, "", vec![leaf(Rule::Number, "65536"), leaf(Rule::Other, "g")]);
    assert!(!check(Role::Value, &too_large));
    let fraction = node(Rule::Id, "", vec![leaf(Rule::Number, "1.5"), leaf(Rule::Other, "g")]);
    assert!(!check(Role::Value, &fraction));
    let no_class = node(Rule::Id, "", vec![leaf(Rule::Number, "1")]);
    assert!(!check(Role::Value, &no_class));
    let unknown_class = node(Rule::Id, "", vec![leaf(Rule::Other, "x")]);
    assert!(!check(Role::Value, &unknown_class));
    let empty = node(Rule::Id, "", vec![]);
    assert!(!check(Role::Value, &empty));
}

#[test]
fn string_literal() {
    let tree = leaf(Rule::Str, "\"hello\"");
    assert_eq!(value_of(&tree), ValueLiteral::Str("hello".to_string()));
}

#[test]
fn string_literal_loses_embedded_quotes() {
    let tree = leaf(Rule::Str, "\"a\\\"b\"");
    assert_eq!(value_of(&tree), ValueLiteral::Str("a\\b".to_string()));
}

#[test]
fn postfix_chain() {
    // foo.bar[0](x)
    let tree = node(
        Rule::Variable,
        "foo.bar[0](x)",
        vec![
            leaf(Rule::Symbol, "foo"),
            leaf(Rule::Symbol, "bar"),
            node(Rule::Index, "[0]", vec![single(leaf(Rule::Number, "0"))]),
            node(
                Rule::Arguments,
                "(x)",
                vec![node(Rule::Other, "x", vec![single(leaf(Rule::Symbol, "x"))])],
            ),
        ],
    );
    assert!(check(Role::Operand, &tree));
    assert_eq!(
        parse_variable(&tree, &mut Vec::new()),
        Variable {
            operator: None,
            value: symbol("foo"),
            path: vec![
                Path::Member("bar".to_string()),
                Path::Index(just(number("0"))),
                Path::Call(vec![Argument { symbol: None, value: just(symbol("x")) }]),
            ],
        }
    );
}

#[test]
fn path_steps() {
    let member = leaf(Rule::Symbol, "length");
    assert!(check(Role::Path, &member));
    assert_eq!(parse_path(&member, &mut Vec::new()), Path::Member("length".to_string()));

    let index = node(Rule::Index, "", vec![single(leaf(Rule::Symbol, "i"))]);
    assert!(check(Role::Path, &index));
    assert_eq!(parse_path(&index, &mut Vec::new()), Path::Index(just(symbol("i"))));

    let call = node(Rule::Arguments, "()", vec![]);
    assert!(check(Role::Path, &call));
    assert_eq!(parse_path(&call, &mut Vec::new()), Path::Call(vec![]));

    assert!(!check(Role::Path, &leaf(Rule::Number, "1")));
    assert!(!check(Role::Path, &node(Rule::Index, "", vec![])));
}

#[test]
fn keyword_and_positional_arguments() {
    let call = node(
        Rule::Arguments,
        "",
        vec![
            other(vec![leaf(Rule::Symbol, "speed"), single(leaf(Rule::Number, "2"))]),
            node(Rule::Other, "", vec![single(leaf(Rule::Symbol, "x"))]),
        ],
    );
    assert!(check(Role::Path, &call));
    assert_eq!(
        parse_path(&call, &mut Vec::new()),
        Path::Call(vec![
            Argument { symbol: Some("speed".to_string()), value: just(number("2")) },
            Argument { symbol: None, value: just(symbol("x")) },
        ])
    );
    let nameless = node(Rule::Arguments, "", vec![other(vec![leaf(Rule::Symbol, "a")])]);
    assert!(!check(Role::Path, &nameless));
    let neither = node(Rule::Arguments, "", vec![other(vec![leaf(Rule::Number, "1")])]);
    assert!(!check(Role::Path, &neither));
}

#[test]
fn macro_with_default() {
    // (a, b = 5) { }
    let tree = node(
        Rule::MacroDef,
        "",
        vec![
            node(
                Rule::Other,
                "",
                vec![
                    node(Rule::Other, "a", vec![leaf(Rule::Symbol, "a")]),
                    node(
                        Rule::Other,
                        "b = 5",
                        vec![leaf(Rule::Symbol, "b"), single(leaf(Rule::Number, "5"))],
                    ),
                ],
            ),
            node(Rule::CmpStmt, "{ }", vec![]),
        ],
    );
    assert_eq!(
        value_of(&tree),
        ValueLiteral::Macro(Macro {
            args: vec![
                ("a".to_string(), None, Tag { tags: vec![] }, None),
                ("b".to_string(), Some(just(number("5"))), Tag { tags: vec![] }, None),
            ],
            body: CompoundStatement { statements: vec![] },
            properties: Tag { tags: vec![] },
        })
    );
}

#[test]
fn unknown_statement_becomes_placeholder() {
    let nodes = vec![
        single(leaf(Rule::Symbol, "a")),
        ParseNode { rule: Rule::Other, text: "for".to_string(), line: (2, 4), children: vec![] },
        single(leaf(Rule::Symbol, "b")),
    ];
    let stmts = statements_of(&nodes);
    assert_eq!(
        stmts,
        vec![
            statement(StatementBody::Expr(just(symbol("a")))),
            Statement { body: StatementBody::EOI, arrow: false, line: (2, 4) },
            statement(StatementBody::Expr(just(symbol("b")))),
        ]
    );
    let root = node(Rule::Other, "", nodes);
    let (program, notes) = parse_tree(&root).unwrap();
    assert_eq!(program, stmts);
    assert_eq!(notes, vec![Notice { place: Place::Statement, rule: Rule::Other, line: (2, 4) }]);
}

#[test]
fn value_in_statement_position_is_placeholder() {
    let nodes = vec![leaf(Rule::Number, "1"), leaf(Rule::EOI, "")];
    assert_eq!(
        statements_of(&nodes),
        vec![statement(StatementBody::EOI), statement(StatementBody::EOI)]
    );
    let (_, notes) = parse_tree(&node(Rule::Other, "", nodes)).unwrap();
    assert_eq!(notes, vec![Notice { place: Place::Statement, rule: Rule::Number, line: (1, 1) }]);
}

#[test]
fn unknown_value_becomes_zero() {
    let tree = leaf(Rule::Other, "@type");
    assert_eq!(value_of(&tree), number("0"));
    let tree = leaf(Rule::IfStmt, "if");
    assert_eq!(value_of(&tree), number("0"));
    let root = node(Rule::Other, "", vec![single(leaf(Rule::Other, "@type"))]);
    let (program, notes) = parse_tree(&root).unwrap();
    assert_eq!(program, vec![statement(StatementBody::Expr(just(number("0"))))]);
    assert_eq!(notes, vec![Notice { place: Place::Value, rule: Rule::Other, line: (1, 1) }]);
}

#[test]
fn notices_come_in_source_order() {
    let first = on_lines(Rule::Other, (1, 1));
    let second = on_lines(Rule::Other, (2, 2));
    let third = on_lines(Rule::Index, (3, 3));
    let root = node(
        Rule::Other,
        "",
        vec![
            first,
            binary(second, "+", leaf(Rule::Symbol, "a")),
            third,
        ],
    );
    let (_, notes) = parse_tree(&root).unwrap();
    assert_eq!(
        notes,
        vec![
            Notice { place: Place::Statement, rule: Rule::Other, line: (1, 1) },
            Notice { place: Place::Value, rule: Rule::Other, line: (2, 2) },
            Notice { place: Place::Statement, rule: Rule::Index, line: (3, 3) },
        ]
    );
}

#[test]
fn named_definition_with_properties() {
    let prop = node(
        Rule::Other,
        "",
        vec![
            leaf(Rule::Symbol, "desc"),
            node(
                Rule::Arguments,
                "",
                vec![node(Rule::Other, "", vec![single(leaf(Rule::Str, "\"moves\""))])],
            ),
        ],
    );
    let tree = node(
        Rule::Def,
        "",
        vec![leaf(Rule::Symbol, "speed"), single(leaf(Rule::Number, "3")), prop],
    );
    assert_eq!(
        statements_of(&vec![tree]),
        vec![statement(StatementBody::Definition(Definition {
            symbol: "speed".to_string(),
            value: just(number("3")),
            props: Tag {
                tags: vec![(
                    "desc".to_string(),
                    vec![Argument {
                        symbol: None,
                        value: just(ValueLiteral::Str("moves".to_string())),
                    }],
                )],
            },
        }))]
    );
}

#[test]
fn definition_without_name_binds_wildcard() {
    let tree = node(Rule::Def, "", vec![single(leaf(Rule::Symbol, "lib"))]);
    assert_eq!(
        statements_of(&vec![tree]),
        vec![statement(StatementBody::Definition(Definition {
            symbol: "*".to_string(),
            value: just(symbol("lib")),
            props: Tag { tags: vec![] },
        }))]
    );
}

#[test]
fn definition_of_wrong_shape() {
    assert!(!check(Role::Statement, &node(Rule::Def, "", vec![])));
    assert!(!check(Role::Statement, &node(Rule::Def, "", vec![leaf(Rule::Symbol, "a")])));
    assert!(!check(Role::Statement, &node(Rule::Def, "", vec![leaf(Rule::Number, "1")])));
    let bad_prop = node(
        Rule::Def,
        "",
        vec![single(leaf(Rule::Symbol, "a")), node(Rule::Other, "", vec![leaf(Rule::Symbol, "p")])],
    );
    assert!(!check(Role::Statement, &bad_prop));
}

#[test]
fn call_statement() {
    let tree = node(
        Rule::Call,
        "",
        vec![node(
            Rule::Variable,
            "",
            vec![leaf(Rule::Symbol, "run"), node(Rule::Arguments, "()", vec![])],
        )],
    );
    assert_eq!(
        statements_of(&vec![tree]),
        vec![statement(StatementBody::Call(Call {
            function: Variable {
                operator: None,
                value: symbol("run"),
                path: vec![Path::Call(vec![])],
            },
        }))]
    );
    assert!(!check(Role::Statement, &node(Rule::Call, "", vec![])));
}

#[test]
fn if_with_and_without_else() {
    let condition = || single(leaf(Rule::Bool, "true"));
    let body = |name: &str| node(Rule::Other, "", vec![single(leaf(Rule::Symbol, name))]);
    let without = node(Rule::IfStmt, "", vec![condition(), body("a")]);
    let with = node(Rule::IfStmt, "", vec![condition(), body("a"), body("b")]);
    assert_eq!(
        statements_of(&vec![without, with]),
        vec![
            statement(StatementBody::If(If {
                condition: just(ValueLiteral::Bool(true)),
                if_body: vec![statement(StatementBody::Expr(just(symbol("a"))))],
                else_body: None,
            })),
            statement(StatementBody::If(If {
                condition: just(ValueLiteral::Bool(true)),
                if_body: vec![statement(StatementBody::Expr(just(symbol("a"))))],
                else_body: Some(vec![statement(StatementBody::Expr(just(symbol("b"))))]),
            })),
        ]
    );
    assert!(!check(Role::Statement, &node(Rule::IfStmt, "", vec![condition()])));
}

#[test]
fn add_object_statement() {
    let tree = node(Rule::AddObj, "", vec![single(leaf(Rule::Symbol, "o"))]);
    assert_eq!(statements_of(&vec![tree]), vec![statement(StatementBody::Add(just(symbol("o"))))]);
    assert!(!check(Role::Statement, &node(Rule::AddObj, "", vec![])));
}

#[test]
fn implementation_statement() {
    let members = node(
        Rule::Other,
        "",
        vec![
            node(Rule::Def, "", vec![leaf(Rule::Symbol, "size"), single(leaf(Rule::Number, "1"))]),
            node(Rule::Def, "", vec![single(leaf(Rule::Symbol, "base"))]),
        ],
    );
    let tree = node(Rule::Implement, "", vec![operand(leaf(Rule::Symbol, "T")), members]);
    assert_eq!(
        statements_of(&vec![tree]),
        vec![statement(StatementBody::Impl(Implementation {
            symbol: plain(symbol("T")),
            members: vec![
                DictDef::Def(("size".to_string(), just(number("1")))),
                DictDef::Extract(just(symbol("base"))),
            ],
        }))]
    );
    let not_an_entry = node(
        Rule::Implement,
        "",
        vec![operand(leaf(Rule::Symbol, "T")), other(vec![leaf(Rule::EOI, "")])],
    );
    assert!(!check(Role::Statement, &not_an_entry));
}

#[test]
fn return_with_and_without_operand() {
    let with = node(Rule::Retrn, "", vec![single(leaf(Rule::Number, "1"))]);
    let without = node(Rule::Retrn, "", vec![]);
    assert_eq!(
        statements_of(&vec![with, without]),
        vec![
            statement(StatementBody::Return(Some(just(number("1"))))),
            statement(StatementBody::Return(Some(just(ValueLiteral::Null)))),
        ]
    );
}

#[test]
fn statement_keeps_its_lines() {
    let tree = ParseNode {
        rule: Rule::Retrn,
        text: "return".to_string(),
        line: (7, 9),
        children: vec![],
    };
    let stmts = statements_of(&vec![tree]);
    assert_eq!(stmts[0].line, (7, 9));
    assert!(!stmts[0].arrow);
}

#[test]
fn end_of_input() {
    assert_eq!(statements_of(&vec![leaf(Rule::EOI, "")]), vec![statement(StatementBody::EOI)]);
    let (program, notes) = parse_tree(&node(Rule::Other, "", vec![leaf(Rule::EOI, "")])).unwrap();
    assert_eq!(program, vec![statement(StatementBody::EOI)]);
    assert_eq!(notes, vec![]);
}

#[test]
fn empty_program() {
    let (program, notes) = parse_tree(&node(Rule::Other, "", vec![])).unwrap();
    assert_eq!(program, vec![]);
    assert_eq!(notes, vec![]);
}

#[test]
fn malformed_tree_gives_nothing() {
    let root = node(Rule::Other, "", vec![node(Rule::Expr, "", vec![])]);
    assert_eq!(parse_tree(&root), None);
}

#[test]
fn chain_of_operators() {
    // a + b * c written on one tier, the product in parentheses
    let product = binary(leaf(Rule::Symbol, "b"), "*", leaf(Rule::Symbol, "c"));
    let tree = binary(leaf(Rule::Symbol, "a"), "+", product);
    assert!(check(Role::Expr, &tree));
    let expr = parse_expr(&tree, &mut Vec::new());
    assert_eq!(
        expr,
        Expression {
            values: vec![
                plain(symbol("a")),
                plain(ValueLiteral::Expression(Expression {
                    values: vec![plain(symbol("b")), plain(symbol("c"))],
                    operators: vec![Operator::Star],
                })),
            ],
            operators: vec![Operator::Plus],
        }
    );
    assert_eq!(expr.values.len(), expr.operators.len() + 1);
}

#[test]
fn chain_out_of_balance() {
    let dangling =
        node(Rule::Expr, "", vec![operand(leaf(Rule::Symbol, "a")), leaf(Rule::Operator, "+")]);
    assert!(!check(Role::Expr, &dangling));
    let no_operator = node(
        Rule::Expr,
        "",
        vec![operand(leaf(Rule::Symbol, "a")), operand(leaf(Rule::Symbol, "b"))],
    );
    assert!(!check(Role::Expr, &no_operator));
    assert!(!check(Role::Expr, &node(Rule::Expr, "", vec![])));
    let unknown_token = binary(leaf(Rule::Symbol, "a"), "<>", leaf(Rule::Symbol, "b"));
    assert!(!check(Role::Expr, &unknown_token));
    let nested = node(Rule::Expr, "", vec![operand(dangling)]);
    assert!(!check(Role::Expr, &nested));
}

#[test]
fn plain_values() {
    assert_eq!(value_of(&leaf(Rule::Number, "1.5")), number("1.5"));
    assert_eq!(value_of(&leaf(Rule::Bool, "true")), ValueLiteral::Bool(true));
    assert_eq!(value_of(&leaf(Rule::Bool, "false")), ValueLiteral::Bool(false));
    assert_eq!(value_of(&leaf(Rule::Symbol, "x")), symbol("x"));
}

#[test]
fn number_that_cannot_be_read() {
    assert!(!check(Role::Value, &leaf(Rule::Number, "")));
    assert!(!check(Role::Value, &leaf(Rule::Number, "1.2.3")));
    assert!(!check(Role::Value, &leaf(Rule::Number, "ten")));
    let root = other(vec![single(leaf(Rule::Number, "1e"))]);
    assert_eq!(parse_tree(&root), None);
}

#[test]
fn wrapped_values() {
    let tree = node(Rule::ValueLiteral, "", vec![operand(leaf(Rule::Symbol, "x"))]);
    assert_eq!(value_of(&tree), symbol("x"));
    assert!(!check(Role::Value, &node(Rule::ValueLiteral, "", vec![])));
    assert!(!check(Role::Value, &node(Rule::Variable, "", vec![])));
}

#[test]
fn expression_in_parentheses() {
    let tree = single(leaf(Rule::Symbol, "x"));
    assert_eq!(value_of(&tree), ValueLiteral::Expression(just(symbol("x"))));
}

#[test]
fn dictionary_value() {
    let tree = node(
        Rule::Dictionary,
        "",
        vec![
            node(Rule::Def, "", vec![leaf(Rule::Symbol, "a"), single(leaf(Rule::Number, "1"))]),
            node(Rule::Def, "", vec![single(leaf(Rule::Symbol, "rest"))]),
        ],
    );
    assert_eq!(
        value_of(&tree),
        ValueLiteral::Dictionary(vec![
            DictDef::Def(("a".to_string(), just(number("1")))),
            DictDef::Extract(just(symbol("rest"))),
        ])
    );
    assert_eq!(value_of(&node(Rule::Dictionary, "", vec![])), ValueLiteral::Dictionary(vec![]));
    let no_entry = node(Rule::Dictionary, "", vec![single(leaf(Rule::Symbol, "a"))]);
    assert!(!check(Role::Value, &no_entry));
}

#[test]
fn compound_statement_value() {
    let tree = node(Rule::CmpStmt, "", vec![node(Rule::Retrn, "", vec![])]);
    assert_eq!(
        value_of(&tree),
        ValueLiteral::CmpStmt(CompoundStatement {
            statements: vec![statement(StatementBody::Return(Some(just(ValueLiteral::Null))))],
        })
    );
}

#[test]
fn object_value() {
    let tree = node(
        Rule::Obj,
        "",
        vec![node(
            Rule::Other,
            "",
            vec![single(leaf(Rule::Number, "1")), single(leaf(Rule::Number, "2"))],
        )],
    );
    assert_eq!(value_of(&tree), ValueLiteral::Obj(vec![(just(number("1")), just(number("2")))]));
    let short = node(Rule::Obj, "", vec![other(vec![single(leaf(Rule::Number, "1"))])]);
    assert!(!check(Role::Value, &short));
}

#[test]
fn array_value() {
    let tree = node(
        Rule::Array,
        "",
        vec![single(leaf(Rule::Number, "1")), single(leaf(Rule::Symbol, "x"))],
    );
    assert_eq!(value_of(&tree), ValueLiteral::Array(vec![just(number("1")), just(symbol("x"))]));
}

#[test]
fn import_value() {
    let tree = node(Rule::Import, "", vec![leaf(Rule::Str, "\"lib/std.spwn\"")]);
    assert_eq!(value_of(&tree), ValueLiteral::Import("lib/std.spwn".to_string()));
    assert!(!check(Role::Value, &node(Rule::Import, "", vec![])));
}

#[test]
fn macro_of_wrong_shape() {
    assert!(!check(Role::Value, &node(Rule::MacroDef, "", vec![node(Rule::Other, "", vec![])])));
    let nameless = node(
        Rule::MacroDef,
        "",
        vec![other(vec![other(vec![])]), node(Rule::CmpStmt, "", vec![])],
    );
    assert!(!check(Role::Value, &nameless));
}

#[test]
fn operand_needs_a_value() {
    assert!(!check(Role::Operand, &node(Rule::Variable, "", vec![])));
}

#[test]
fn notices_are_appended() {
    let earlier = Notice { place: Place::Value, rule: Rule::Other, line: (9, 9) };
    let mut notes = vec![earlier];
    let nodes = vec![leaf(Rule::Index, ""), single(leaf(Rule::Operator, "+"))];
    assert!(check_all(Role::Statement, &nodes));
    parse_statements(&nodes, &mut notes);
    assert_eq!(
        notes,
        vec![
            earlier,
            Notice { place: Place::Statement, rule: Rule::Index, line: (1, 1) },
            Notice { place: Place::Value, rule: Rule::Operator, line: (1, 1) },
        ]
    );
}

#[test]
fn known_constructs_leave_no_notice() {
    let tree = node(
        Rule::Variable,
        "",
        vec![
            node(Rule::Id, "", vec![leaf(Rule::Number, "1"), leaf(Rule::Other, "g")]),
            leaf(Rule::Symbol, "move"),
            node(
                Rule::Arguments,
                "",
                vec![other(vec![leaf(Rule::Symbol, "x"), single(leaf(Rule::Number, "1"))])],
            ),
        ],
    );
    assert!(check(Role::Operand, &tree));
    let mut notes = Vec::new();
    parse_variable(&tree, &mut notes);
    assert_eq!(notes, vec![]);
}

#[test]
fn notices_from_inside_a_value() {
    let unknown = on_lines(Rule::Other, (4, 4));
    let tree = node(
        Rule::Variable,
        "",
        vec![
            node(Rule::Array, "", vec![single(unknown.clone())]),
            node(Rule::Index, "", vec![single(unknown.clone())]),
            node(Rule::Arguments, "", vec![node(Rule::Other, "", vec![single(unknown)])]),
        ],
    );
    assert!(check(Role::Operand, &tree));
    let mut notes = Vec::new();
    parse_variable(&tree, &mut notes);
    let note = Notice { place: Place::Value, rule: Rule::Other, line: (4, 4) };
    assert_eq!(notes, vec![note, note, note]);
}
