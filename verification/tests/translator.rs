use toyc::ast::{AstError, Expr, ValueType, VarType};
use toyc::ast_parser::AstParser;
use toyc::c_parser::CParser;
use toyc::parse_tree::{ParseNode, RuleTag};
use toyc::symbols::SymbolTable;

fn node(rule: RuleTag, text: &str, children: Vec<ParseNode>) -> ParseNode {
    ParseNode { rule, text: text.to_string(), children }
}

fn leaf(rule: RuleTag, text: &str) -> ParseNode {
    node(rule, text, vec![])
}

fn flt_decl(name: &str, value: Option<ParseNode>) -> ParseNode {
    let mut children = vec![leaf(RuleTag::TId, name)];
    if let Some(v) = value {
        children.push(v);
    }
    node(RuleTag::FltDecl, "", children)
}

fn str_decl(name: &str, value: Option<&str>) -> ParseNode {
    let mut children = vec![leaf(RuleTag::TId, name)];
    if let Some(v) = value {
        children.push(leaf(RuleTag::StrValue, v));
    }
    node(RuleTag::StrDecl, "", children)
}

fn flt_assign(name: &str, value: Option<ParseNode>) -> ParseNode {
    let mut children = vec![leaf(RuleTag::TId, name)];
    if let Some(v) = value {
        children.push(v);
    }
    node(RuleTag::FltAssign, "", children)
}

fn str_assign(name: &str, value: Option<&str>) -> ParseNode {
    let mut children = vec![leaf(RuleTag::TId, name)];
    if let Some(v) = value {
        children.push(leaf(RuleTag::StrValue, v));
    }
    node(RuleTag::StrAssign, "", children)
}

fn translate(nodes: Vec<ParseNode>) -> Result<String, AstError> {
    for n in &nodes {
        assert!(n.well_formed());
    }
    let ast = AstParser::parse(&nodes)?;
    CParser::parse(ast)
}

#[test]
fn float_declaration_round_trip() {
    let tree = vec![flt_decl("x", Some(leaf(RuleTag::FltValue, "3.5")))];
    assert_eq!(translate(tree).unwrap(), "float x=3.5;\n");
}

#[test]
fn float_declaration_without_value() {
    let tree = vec![flt_decl("x", None)];
    assert_eq!(translate(tree).unwrap(), "float x;\n");
}

#[test]
fn string_declaration_round_trip() {
    let tree = vec![str_decl("y", Some("\"abc\""))];
    assert_eq!(translate(tree).unwrap(), "char* y=\"abc\";\n");
}

#[test]
fn string_declaration_without_value() {
    let tree = vec![str_decl("y", None)];
    assert_eq!(translate(tree).unwrap(), "char* y;\n");
}

#[test]
fn conditional_without_else() {
    let if_clause = node(
        RuleTag::IfStmt,
        "",
        vec![
            leaf(RuleTag::BoolExpr, "cond"),
            node(RuleTag::PrintStmt, "", vec![leaf(RuleTag::PrintText, "\"hi\"")]),
        ],
    );
    let tree = vec![node(RuleTag::ConditionStatement, "", vec![if_clause])];
    let out = translate(tree).unwrap();
    assert_eq!(out, "if (cond) { printf(\"hi\"); }");
    assert!(!out.contains("else"));
}

#[test]
fn conditional_with_else() {
    let if_clause = node(
        RuleTag::IfStmt,
        "",
        vec![
            leaf(RuleTag::BoolExpr, "x > 1"),
            flt_assign("x", Some(leaf(RuleTag::FltValue, "1"))),
        ],
    );
    let else_clause = node(
        RuleTag::ElseStmt,
        "",
        vec![flt_assign("x", Some(leaf(RuleTag::FltValue, "2")))],
    );
    let tree = vec![
        flt_decl("x", None),
        node(RuleTag::ConditionStatement, "", vec![if_clause, else_clause]),
    ];
    assert_eq!(
        translate(tree).unwrap(),
        "float x;\nif (x > 1) { x = 1;\n } else { x = 2;\n }"
    );
}

#[test]
fn while_statement_emission() {
    let tree = vec![
        flt_decl("x", None),
        node(
            RuleTag::WhileStatement,
            "",
            vec![
                leaf(RuleTag::BoolExpr, "x < 3"),
                flt_assign("x", Some(leaf(RuleTag::FltValue, "2"))),
            ],
        ),
    ];
    assert_eq!(translate(tree).unwrap(), "float x;\nwhile (x < 3) { x = 2;\n }");
}

#[test]
fn expression_sequence_emission() {
    let value = ValueType::Expression(vec![
        Expr::Term(Box::new(ValueType::Float("2".to_string()))),
        Expr::Add,
        Expr::Term(Box::new(ValueType::Float("3".to_string()))),
    ]);
    assert_eq!(CParser::parse_variable_value(&value), "(2+3)");
}

#[test]
fn power_sequence_emission() {
    let value = ValueType::Expression(vec![Expr::Power {
        base: Box::new(ValueType::Float("2".to_string())),
        exp: Box::new(ValueType::Float("3".to_string())),
    }]);
    assert_eq!(CParser::parse_variable_value(&value), "(pow(2, 3))");
}

#[test]
fn power_normalization_binds_preceding_term() {
    let expr = node(
        RuleTag::Expr,
        "2^3",
        vec![
            leaf(RuleTag::FltValue, "2"),
            leaf(RuleTag::Power, "^"),
            leaf(RuleTag::FltValue, "3"),
        ],
    );
    assert!(expr.operand_well_formed());
    let value = AstParser::parse_numerical_expr(&expr).unwrap();
    assert_eq!(CParser::parse_variable_value(&value), "(pow(2, 3))");
}

#[test]
fn power_binds_only_the_nearest_term() {
    // 1+2^3 normalizes to 1 + pow(2, 3): the rewrite is local and not
    // precedence-aware beyond taking the single preceding term.
    let expr = node(
        RuleTag::Expr,
        "1+2^3",
        vec![
            leaf(RuleTag::FltValue, "1"),
            leaf(RuleTag::Add, "+"),
            leaf(RuleTag::FltValue, "2"),
            leaf(RuleTag::Power, "^"),
            leaf(RuleTag::FltValue, "3"),
        ],
    );
    let value = AstParser::parse_numerical_expr(&expr).unwrap();
    assert_eq!(CParser::parse_variable_value(&value), "(1+pow(2, 3))");
}

#[test]
fn power_without_any_preceding_entry() {
    let expr = node(
        RuleTag::Expr,
        "^3",
        vec![leaf(RuleTag::Power, "^"), leaf(RuleTag::FltValue, "3")],
    );
    assert!(expr.operand_well_formed());
    assert_eq!(
        AstParser::parse_numerical_expr(&expr).unwrap_err(),
        AstError::PowerMissingBase
    );
}

#[test]
fn power_after_operator_marker() {
    let expr = node(
        RuleTag::Expr,
        "2+^3",
        vec![
            leaf(RuleTag::FltValue, "2"),
            leaf(RuleTag::Add, "+"),
            leaf(RuleTag::Power, "^"),
            leaf(RuleTag::FltValue, "3"),
        ],
    );
    assert_eq!(
        AstParser::parse_numerical_expr(&expr).unwrap_err(),
        AstError::PowerMissingBase
    );
}

#[test]
fn power_error_reaches_the_caller() {
    let expr = node(
        RuleTag::Expr,
        "^3",
        vec![leaf(RuleTag::Power, "^"), leaf(RuleTag::FltValue, "3")],
    );
    let tree = vec![flt_decl("x", Some(expr))];
    assert_eq!(translate(tree).unwrap_err(), AstError::PowerMissingBase);
}

#[test]
fn duplicate_declaration_same_type() {
    let tree = vec![flt_decl("x", None), flt_decl("x", None)];
    assert_eq!(
        translate(tree).unwrap_err(),
        AstError::DuplicateDeclaration("x".to_string())
    );
}

#[test]
fn duplicate_declaration_mixed_types_both_orders() {
    let tree = vec![str_decl("x", None), flt_decl("x", None)];
    assert_eq!(
        translate(tree).unwrap_err(),
        AstError::DuplicateDeclaration("x".to_string())
    );
    let tree = vec![flt_decl("x", None), str_decl("x", None)];
    assert_eq!(
        translate(tree).unwrap_err(),
        AstError::DuplicateDeclaration("x".to_string())
    );
}

#[test]
fn duplicate_declaration_inside_nested_body() {
    // One flat namespace: a declaration inside a loop body still owns the
    // name for the whole program.
    let tree = vec![
        node(
            RuleTag::WhileStatement,
            "",
            vec![leaf(RuleTag::BoolExpr, "1"), flt_decl("x", None)],
        ),
        flt_decl("x", None),
    ];
    assert_eq!(
        translate(tree).unwrap_err(),
        AstError::DuplicateDeclaration("x".to_string())
    );
}

#[test]
fn undeclared_assignment() {
    let tree = vec![flt_assign("x", Some(leaf(RuleTag::FltValue, "2")))];
    assert_eq!(
        translate(tree).unwrap_err(),
        AstError::UndeclaredVariable("x".to_string())
    );
}

#[test]
fn type_mismatch_on_assignment() {
    let tree = vec![flt_decl("x", None), str_assign("x", Some("\"oops\""))];
    assert_eq!(
        translate(tree).unwrap_err(),
        AstError::TypeMismatch {
            ident: "x".to_string(),
            expected: VarType::Float,
            actual: VarType::CString,
        }
    );
}

#[test]
fn assignment_inside_conditional_body() {
    let if_clause = node(
        RuleTag::IfStmt,
        "",
        vec![
            leaf(RuleTag::BoolExpr, "x < 1"),
            flt_assign("x", Some(leaf(RuleTag::FltValue, "2"))),
        ],
    );
    let tree = vec![
        flt_decl("x", None),
        node(RuleTag::ConditionStatement, "", vec![if_clause]),
    ];
    assert_eq!(translate(tree).unwrap(), "float x;\nif (x < 1) { x = 2;\n }");
}

#[test]
fn missing_assignment_value() {
    let tree = vec![flt_decl("x", None), flt_assign("x", None)];
    assert_eq!(
        translate(tree).unwrap_err(),
        AstError::MissingAssignmentValue("x".to_string())
    );
    let tree = vec![str_decl("y", None), str_assign("y", None)];
    assert_eq!(
        translate(tree).unwrap_err(),
        AstError::MissingAssignmentValue("y".to_string())
    );
}

#[test]
fn invalid_float_literal() {
    let tree = vec![flt_decl("x", Some(leaf(RuleTag::FltValue, "abc")))];
    assert_eq!(
        translate(tree).unwrap_err(),
        AstError::InvalidFloatLiteral("abc".to_string())
    );
}

#[test]
fn float_literal_shapes() {
    for good in ["2", "2.5", "-2.5", "+2", "007", "0.0"] {
        let r = AstParser::parse_numerical_expr(&leaf(RuleTag::FltValue, good));
        assert_eq!(r.unwrap(), ValueType::Float(good.to_string()));
    }
    for bad in ["", "2.", ".5", "1e5", "2.5.3", "-", "+.", "a1"] {
        let r = AstParser::parse_numerical_expr(&leaf(RuleTag::FltValue, bad));
        assert_eq!(r.unwrap_err(), AstError::InvalidFloatLiteral(bad.to_string()));
    }
}

#[test]
fn io_statement_emission() {
    let cases = [
        (RuleTag::ReadStringStmt, "scanf(\"%s\", &x);"),
        (RuleTag::ReadNumStmt, "scanf(\"%f\", &x);"),
        (RuleTag::PrintStringStmt, "printf(\"%s\", x);"),
        (RuleTag::PrintNumStmt, "printf(\"%f\", x);"),
    ];
    for (tag, expected) in cases {
        let io = node(
            RuleTag::IoStatement,
            "",
            vec![
                leaf(tag, ""),
                node(RuleTag::IoParam, "x", vec![leaf(RuleTag::TId, "x")]),
            ],
        );
        assert_eq!(translate(vec![io]).unwrap(), expected);
    }
}

#[test]
fn unknown_io_operation() {
    let io = node(
        RuleTag::IoStatement,
        "",
        vec![
            leaf(RuleTag::BoolExpr, ""),
            node(RuleTag::IoParam, "x", vec![leaf(RuleTag::TId, "x")]),
        ],
    );
    assert_eq!(translate(vec![io]).unwrap_err(), AstError::UnknownIoOperation);
}

#[test]
fn unexpected_grammar_rule() {
    let tree = vec![leaf(RuleTag::BoolExpr, "z")];
    assert_eq!(translate(tree).unwrap_err(), AstError::UnexpectedGrammarRule);
}

#[test]
fn main_function_wrapper() {
    let main = node(
        RuleTag::MainFunc,
        "",
        vec![
            flt_decl("x", Some(leaf(RuleTag::FltValue, "3.5"))),
            node(RuleTag::PrintStmt, "", vec![leaf(RuleTag::PrintText, "\"hi\"")]),
        ],
    );
    assert_eq!(
        translate(vec![main]).unwrap(),
        "#include <stdio.h>\n#include <math.h>\nint main() { float x=3.5;\nprintf(\"hi\"); return 0; }"
    );
}

#[test]
fn translation_is_deterministic() {
    let build = || {
        vec![node(
            RuleTag::MainFunc,
            "",
            vec![
                flt_decl("x", Some(leaf(RuleTag::FltValue, "3.5"))),
                flt_assign(
                    "x",
                    Some(node(
                        RuleTag::Expr,
                        "x+1",
                        vec![
                            leaf(RuleTag::TId, "x"),
                            leaf(RuleTag::Add, "+"),
                            leaf(RuleTag::FltValue, "1"),
                        ],
                    )),
                ),
            ],
        )]
    };
    let first = translate(build()).unwrap();
    let second = translate(build()).unwrap();
    assert_eq!(first, second);
    assert_eq!(
        first,
        "#include <stdio.h>\n#include <math.h>\nint main() { float x=3.5;\nx = (x+1);\n return 0; }"
    );
}

#[test]
fn symbol_table_operations() {
    let mut table = SymbolTable::new();
    let x = "x".to_string();
    let y = "y".to_string();
    assert!(AstParser::new_var(&mut table, &x, VarType::Float).is_ok());
    assert_eq!(
        AstParser::new_var(&mut table, &x, VarType::CString).unwrap_err(),
        AstError::DuplicateDeclaration("x".to_string())
    );
    assert!(AstParser::assign_var(&mut table, &x, VarType::Float).is_ok());
    assert_eq!(
        AstParser::assign_var(&mut table, &x, VarType::CString).unwrap_err(),
        AstError::TypeMismatch {
            ident: "x".to_string(),
            expected: VarType::Float,
            actual: VarType::CString,
        }
    );
    assert_eq!(
        AstParser::assign_var(&mut table, &y, VarType::Float).unwrap_err(),
        AstError::UndeclaredVariable("y".to_string())
    );
    assert!(AstParser::new_var(&mut table, &y, VarType::CString).is_ok());
    assert!(AstParser::assign_var(&mut table, &y, VarType::CString).is_ok());
}

#[test]
fn error_messages_name_the_offender() {
    assert_eq!(
        AstError::DuplicateDeclaration("x".to_string()).message(),
        "Variable x already declared"
    );
    assert_eq!(
        AstError::UndeclaredVariable("x".to_string()).message(),
        "Variable x was not declared"
    );
    assert_eq!(
        AstError::TypeMismatch {
            ident: "x".to_string(),
            expected: VarType::Float,
            actual: VarType::CString,
        }
        .message(),
        "Trying to assign value of type char* to variable x of type float"
    );
    assert_eq!(
        AstError::InvalidFloatLiteral("abc".to_string()).message(),
        "Error converting abc to float"
    );
}

#[test]
fn well_formed_checks_structure() {
    assert!(flt_decl("x", None).well_formed());
    assert!(!node(RuleTag::FltDecl, "", vec![]).well_formed());
    assert!(!node(RuleTag::WhileStatement, "", vec![]).well_formed());
    let trailing_power = node(
        RuleTag::Expr,
        "2^",
        vec![leaf(RuleTag::FltValue, "2"), leaf(RuleTag::Power, "^")],
    );
    assert!(!trailing_power.operand_well_formed());
    assert!(!flt_decl("x", Some(trailing_power)).well_formed());
    assert!(leaf(RuleTag::PrintStmt, "").well_formed() == false);
}

#[test]
fn nested_expression_operand() {
    // An expression node standing as an operand of another expression.
    let inner = node(
        RuleTag::Expr,
        "1+2",
        vec![
            leaf(RuleTag::FltValue, "1"),
            leaf(RuleTag::Add, "+"),
            leaf(RuleTag::FltValue, "2"),
        ],
    );
    let outer = node(
        RuleTag::Expr,
        "1+2*3",
        vec![inner, leaf(RuleTag::Multiply, "*"), leaf(RuleTag::FltValue, "3")],
    );
    let value = AstParser::parse_numerical_expr(&outer).unwrap();
    assert_eq!(CParser::parse_variable_value(&value), "((1+2)*3)");
}
