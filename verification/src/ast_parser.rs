//! The AST builder: walks the concrete parse tree, validates names and
//! types against the symbol table, normalizes flat expression sequences,
//! and produces the typed abstract syntax tree.
//!
//! The functions [`build_node_spec`], [`build_body_spec`],
//! [`normalize_value`] and [`normalize_children`] are the mathematical
//! model; every executable function returns exactly what its model says.

use vstd::prelude::*;
use crate::ast::{
    AstError, AstErrV, AstNode, AstNodeV, Expr, ExprV, IOFunc, ValueType, ValueTypeV, VarType,
    Variable, VariableV, asts_view, expr_view, exprs_view, lemma_asts_view_push,
    lemma_exprs_view_len, lemma_exprs_view_push, var_view, vars_view,
};
use crate::float_text::{check_float_literal, is_float_literal};
use crate::parse_tree::{
    ParseNode, RuleTag, wf_body, wf_expr_children, wf_operand, wf_parse_node,
};
use crate::symbols::{
    SymbolTable, check_assign_spec, declare_spec, lemma_extends_trans, table_extends,
};

verus! {

/// The symbol table's mathematical content.
pub type SymMap = Map<Seq<char>, VarType>;

/// What the expression normalizer makes of one operand node: a float
/// literal keeps its (validated) text, an identifier its name, and an
/// expression node becomes the normalized sequence of its children.
pub open spec fn normalize_value(n: ParseNode) -> Result<ValueTypeV, AstErrV>
    decreases n, 0nat,
{
    if n.rule == RuleTag::FltValue {
        if is_float_literal(n.text@) {
            Result::Ok(ValueTypeV::Float(n.text@))
        } else {
            Result::Err(AstErrV::InvalidFloatLiteral(n.text@))
        }
    } else if n.rule == RuleTag::TId {
        Result::Ok(ValueTypeV::Ident(n.text@))
    } else if n.rule == RuleTag::Expr {
        match normalize_children(n.children@, Seq::empty()) {
            Result::Ok(es) => Result::Ok(ValueTypeV::Expression(es)),
            Result::Err(e) => Result::Err(e),
        }
    } else {
        Result::Err(AstErrV::UnexpectedGrammarRule)
    }
}

/// Normalizes the children of an expression node, left to right, into
/// `acc`.  Operator tags append their marker; a power operator pops the
/// immediately preceding entry as base (it must be a plain term) and
/// consumes the next child as exponent; anything else is normalized
/// recursively and appended as a term.
pub open spec fn normalize_children(ns: Seq<ParseNode>, acc: Seq<ExprV>) -> Result<
    Seq<ExprV>,
    AstErrV,
>
    decreases ns, 1nat,
{
    if ns.len() == 0 {
        Result::Ok(acc)
    } else {
        let c = ns[0];
        if c.rule == RuleTag::Add {
            normalize_children(ns.skip(1), acc.push(ExprV::Add))
        } else if c.rule == RuleTag::Subtract {
            normalize_children(ns.skip(1), acc.push(ExprV::Subtract))
        } else if c.rule == RuleTag::Multiply {
            normalize_children(ns.skip(1), acc.push(ExprV::Multiply))
        } else if c.rule == RuleTag::Divide {
            normalize_children(ns.skip(1), acc.push(ExprV::Divide))
        } else if c.rule == RuleTag::Power {
            if acc.len() == 0 {
                Result::Err(AstErrV::PowerMissingBase)
            } else if ns.len() < 2 {
                Result::Err(AstErrV::UnexpectedGrammarRule)
            } else {
                match normalize_value(ns[1]) {
                    Result::Err(e) => Result::Err(e),
                    Result::Ok(exp) => match acc.last() {
                        ExprV::Term(base) => normalize_children(
                            ns.skip(2),
                            acc.drop_last().push(
                                ExprV::Power { base, exp: Box::new(exp) },
                            ),
                        ),
                        _ => Result::Err(AstErrV::PowerMissingBase),
                    },
                }
            }
        } else {
            match normalize_value(c) {
                Result::Err(e) => Result::Err(e),
                Result::Ok(v) => normalize_children(
                    ns.skip(1),
                    acc.push(ExprV::Term(Box::new(v))),
                ),
            }
        }
    }
}

/// What the builder makes of one parse node, given the table `st` of the
/// names declared so far: the statement's AST node together with the
/// table after the statement, or the first error the statement raises.
pub open spec fn build_node_spec(st: SymMap, n: ParseNode) -> Result<(AstNodeV, SymMap), AstErrV>
    decreases n, 0nat,
{
    match n.rule {
        RuleTag::StrDecl => {
            let ident = n.children@[0].text@;
            let value = if n.children@.len() >= 2 {
                Option::Some(ValueTypeV::Str(n.children@[1].text@))
            } else {
                Option::None
            };
            match declare_spec(st, ident, VarType::CString) {
                Result::Ok(st2) => Result::Ok(
                    (
                        AstNodeV::VariableDeclaration(
                            seq![VariableV { var_type: VarType::CString, ident, value }],
                        ),
                        st2,
                    ),
                ),
                Result::Err(e) => Result::Err(e),
            }
        },
        RuleTag::FltDecl => {
            let ident = n.children@[0].text@;
            if n.children@.len() >= 2 {
                match normalize_value(n.children@[1]) {
                    Result::Err(e) => Result::Err(e),
                    Result::Ok(v) => match declare_spec(st, ident, VarType::Float) {
                        Result::Ok(st2) => Result::Ok(
                            (
                                AstNodeV::VariableDeclaration(
                                    seq![
                                        VariableV {
                                            var_type: VarType::Float,
                                            ident,
                                            value: Option::Some(v),
                                        }
                                    ],
                                ),
                                st2,
                            ),
                        ),
                        Result::Err(e) => Result::Err(e),
                    },
                }
            } else {
                match declare_spec(st, ident, VarType::Float) {
                    Result::Ok(st2) => Result::Ok(
                        (
                            AstNodeV::VariableDeclaration(
                                seq![
                                    VariableV {
                                        var_type: VarType::Float,
                                        ident,
                                        value: Option::None,
                                    }
                                ],
                            ),
                            st2,
                        ),
                    ),
                    Result::Err(e) => Result::Err(e),
                }
            }
        },
        RuleTag::StrAssign => {
            let ident = n.children@[0].text@;
            match check_assign_spec(st, ident, VarType::CString) {
                Result::Err(e) => Result::Err(e),
                Result::Ok(u) => {
                    if n.children@.len() >= 2 {
                        Result::Ok(
                            (
                                AstNodeV::VariableAssignment {
                                    ident,
                                    value: Option::Some(ValueTypeV::Str(n.children@[1].text@)),
                                },
                                st,
                            ),
                        )
                    } else {
                        Result::Err(AstErrV::MissingAssignmentValue(ident))
                    }
                },
            }
        },
        RuleTag::FltAssign => {
            let ident = n.children@[0].text@;
            match check_assign_spec(st, ident, VarType::Float) {
                Result::Err(e) => Result::Err(e),
                Result::Ok(u) => {
                    if n.children@.len() >= 2 {
                        match normalize_value(n.children@[1]) {
                            Result::Err(e) => Result::Err(e),
                            Result::Ok(v) => Result::Ok(
                                (
                                    AstNodeV::VariableAssignment {
                                        ident,
                                        value: Option::Some(v),
                                    },
                                    st,
                                ),
                            ),
                        }
                    } else {
                        Result::Err(AstErrV::MissingAssignmentValue(ident))
                    }
                },
            }
        },
        RuleTag::ConditionStatement => {
            if n.children@.len() >= 1 && n.children@[0].children@.len() >= 1 {
                let if_stmt = n.children@[0];
                let bool_expr = if_stmt.children@[0].text@;
                match build_body_spec(st, if_stmt.children@.skip(1)) {
                    Result::Err(e) => Result::Err(e),
                    Result::Ok((body, st2)) => {
                        if n.children@.len() >= 2 {
                            match build_body_spec(st2, n.children@[1].children@) {
                                Result::Err(e) => Result::Err(e),
                                Result::Ok((eb, st3)) => Result::Ok(
                                    (
                                        AstNodeV::ConditionalStatement {
                                            bool_expr,
                                            body,
                                            else_stmt: Option::Some(eb),
                                        },
                                        st3,
                                    ),
                                ),
                            }
                        } else {
                            Result::Ok(
                                (
                                    AstNodeV::ConditionalStatement {
                                        bool_expr,
                                        body,
                                        else_stmt: Option::None,
                                    },
                                    st2,
                                ),
                            )
                        }
                    },
                }
            } else {
                Result::Err(AstErrV::UnexpectedGrammarRule)
            }
        },
        RuleTag::WhileStatement => {
            if n.children@.len() >= 1 {
                let bool_expr = n.children@[0].text@;
                match build_body_spec(st, n.children@.skip(1)) {
                    Result::Err(e) => Result::Err(e),
                    Result::Ok((body, st2)) => Result::Ok(
                        (AstNodeV::WhileStatement { bool_expr, body }, st2),
                    ),
                }
            } else {
                Result::Err(AstErrV::UnexpectedGrammarRule)
            }
        },
        RuleTag::IoStatement => {
            let kind = n.children@[0].rule;
            let param = n.children@[1].children@[0].text@;
            if kind == RuleTag::ReadStringStmt {
                Result::Ok((AstNodeV::IOStatement { io_stmt: IOFunc::ReadStr, param }, st))
            } else if kind == RuleTag::ReadNumStmt {
                Result::Ok((AstNodeV::IOStatement { io_stmt: IOFunc::ReadNum, param }, st))
            } else if kind == RuleTag::PrintStringStmt {
                Result::Ok((AstNodeV::IOStatement { io_stmt: IOFunc::PrintStr, param }, st))
            } else if kind == RuleTag::PrintNumStmt {
                Result::Ok((AstNodeV::IOStatement { io_stmt: IOFunc::PrintNum, param }, st))
            } else {
                Result::Err(AstErrV::UnknownIoOperation)
            }
        },
        RuleTag::PrintStmt => Result::Ok(
            (AstNodeV::PrintStatement { printable: n.children@[0].text@ }, st),
        ),
        RuleTag::MainFunc => {
            match build_body_spec(st, n.children@) {
                Result::Err(e) => Result::Err(e),
                Result::Ok((body, st2)) => Result::Ok((AstNodeV::MainFunction(body), st2)),
            }
        },
        _ => Result::Err(AstErrV::UnexpectedGrammarRule),
    }
}

/// Builds a sequence of statements, threading the symbol table from each
/// statement to the next and stopping at the first error.
pub open spec fn build_body_spec(st: SymMap, ns: Seq<ParseNode>) -> Result<
    (Seq<AstNodeV>, SymMap),
    AstErrV,
>
    decreases ns, 1nat,
{
    if ns.len() == 0 {
        Result::Ok((Seq::empty(), st))
    } else {
        match build_node_spec(st, ns[0]) {
            Result::Err(e) => Result::Err(e),
            Result::Ok((a, st2)) => match build_body_spec(st2, ns.skip(1)) {
                Result::Err(e) => Result::Err(e),
                Result::Ok((rest, st3)) => Result::Ok((seq![a] + rest, st3)),
            },
        }
    }
}

/// The AST builder.
pub struct AstParser;

impl AstParser {
    /// Declares a new variable, failing on a duplicate name, as
    /// [`declare_spec`] says.
    pub fn new_var(variables: &mut SymbolTable, ident: &String, var_type: VarType) -> (r: Result<
        (),
        AstError,
    >)
        requires
            old(variables).inv(),
        ensures
            final(variables).inv(),
            match declare_spec(old(variables)@, ident@, var_type) {
                Result::Ok(m) => r is Ok && final(variables)@ == m,
                Result::Err(e) => r matches Err(ae) && ae@ == e && final(variables)@ == old(
                    variables,
                )@,
            },
    {
        variables.declare(ident, var_type)
    }

    /// Validates an assignment target against the table, as
    /// [`check_assign_spec`] says: the name must be declared, with the
    /// assigned type.  The table never changes.
    pub fn assign_var(variables: &mut SymbolTable, ident: &String, var_type: VarType) -> (r: Result<
        (),
        AstError,
    >)
        requires
            old(variables).inv(),
        ensures
            *final(variables) == *old(variables),
            match check_assign_spec(old(variables)@, ident@, var_type) {
                Result::Ok(u) => r is Ok,
                Result::Err(e) => r matches Err(ae) && ae@ == e,
            },
    {
        match variables.find(ident) {
            Option::None => Result::Err(AstError::UndeclaredVariable(ident.clone())),
            Option::Some(t) => {
                if t == var_type {
                    Result::Ok(())
                } else {
                    Result::Err(
                        AstError::TypeMismatch {
                            ident: ident.clone(),
                            expected: t,
                            actual: var_type,
                        },
                    )
                }
            },
        }
    }

    /// Normalizes one operand node, exactly as [`normalize_value`] says.
    pub fn parse_numerical_expr(node: &ParseNode) -> (r: Result<ValueType, AstError>)
        requires
            wf_operand(*node),
        ensures
            match normalize_value(*node) {
                Result::Ok(v) => r matches Ok(val) && val@ == v,
                Result::Err(e) => r matches Err(ae) && ae@ == e,
            },
        decreases *node,
    {
        match node.rule {
            RuleTag::FltValue => {
                if check_float_literal(node.text.as_str()) {
                    Result::Ok(ValueType::Float(node.text.clone()))
                } else {
                    Result::Err(AstError::InvalidFloatLiteral(node.text.clone()))
                }
            },
            RuleTag::TId => Result::Ok(ValueType::Ident(node.text.clone())),
            RuleTag::Expr => {
                let mut terms: Vec<Expr> = Vec::new();
                let mut i: usize = 0;
                proof {
                    assert(node.children@.skip(0) =~= node.children@);
                }
                while i < node.children.len()
                    invariant
                        node.rule == RuleTag::Expr,
                        wf_expr_children(node.children@),
                        0 <= i <= node.children@.len(),
                        normalize_children(node.children@, Seq::empty()) == normalize_children(
                            node.children@.skip(i as int),
                            exprs_view(terms@),
                        ),
                    decreases node.children@.len() - i,
                {
                    let ghost pre_suffix = node.children@.skip(i as int);
                    let ghost pre_acc = exprs_view(terms@);
                    proof {
                        assert(pre_suffix[0] == node.children@[i as int]);
                    }
                    let rule = node.children[i].rule;
                    if rule == RuleTag::Add || rule == RuleTag::Subtract || rule
                        == RuleTag::Multiply || rule == RuleTag::Divide {
                        let marker = if rule == RuleTag::Add {
                            Expr::Add
                        } else if rule == RuleTag::Subtract {
                            Expr::Subtract
                        } else if rule == RuleTag::Multiply {
                            Expr::Multiply
                        } else {
                            Expr::Divide
                        };
                        proof {
                            lemma_exprs_view_push(terms@, marker);
                            assert(pre_suffix.skip(1) =~= node.children@.skip(i + 1));
                        }
                        terms.push(marker);
                        i = i + 1;
                    } else if rule == RuleTag::Power {
                        proof {
                            lemma_exprs_view_len(terms@);
                        }
                        if terms.len() == 0 {
                            return Result::Err(AstError::PowerMissingBase);
                        }
                        // The grammar guarantees an exponent operand after
                        // every power operator.
                        assert(i + 1 < node.children@.len());
                        proof {
                            assert(pre_suffix[1] == node.children@[i + 1]);
                        }
                        let exp = match AstParser::parse_numerical_expr(&node.children[i + 1]) {
                            Result::Err(e) => return Result::Err(e),
                            Result::Ok(v) => v,
                        };
                        let base = terms.pop().unwrap();
                        match base {
                            Expr::Term(t) => {
                                proof {
                                    assert(pre_acc == exprs_view(terms@).push(
                                        expr_view(Expr::Term(t)),
                                    ));
                                    assert(pre_acc.drop_last() =~= exprs_view(terms@));
                                    assert(pre_suffix.skip(2) =~= node.children@.skip(i + 2));
                                }
                                let e = Expr::Power { base: t, exp: Box::new(exp) };
                                proof {
                                    lemma_exprs_view_push(terms@, e);
                                }
                                terms.push(e);
                                i = i + 2;
                            },
                            _ => {
                                proof {
                                    assert(pre_acc == exprs_view(terms@).push(expr_view(base)));
                                }
                                return Result::Err(AstError::PowerMissingBase);
                            },
                        }
                    } else {
                        let v = match AstParser::parse_numerical_expr(&node.children[i]) {
                            Result::Err(e) => return Result::Err(e),
                            Result::Ok(v) => v,
                        };
                        let e = Expr::Term(Box::new(v));
                        proof {
                            lemma_exprs_view_push(terms@, e);
                            assert(pre_suffix.skip(1) =~= node.children@.skip(i + 1));
                        }
                        terms.push(e);
                        i = i + 1;
                    }
                }
                proof {
                    assert(node.children@.skip(i as int).len() == 0);
                }
                Result::Ok(ValueType::Expression(terms))
            },
            _ => Result::Err(AstError::UnexpectedGrammarRule),
        }
    }

    /// Builds the statements of `nodes` from position `start` on, exactly
    /// as [`build_body_spec`] says, threading the symbol table through
    /// and stopping at the first error.
    pub fn parse_body(variables: &mut SymbolTable, nodes: &Vec<ParseNode>, start: usize) -> (r:
        Result<Vec<AstNode>, AstError>)
        requires
            old(variables).inv(),
            start <= nodes@.len(),
            wf_body(nodes@.skip(start as int)),
        ensures
            final(variables).inv(),
            table_extends(old(variables)@, final(variables)@),
            match build_body_spec(old(variables)@, nodes@.skip(start as int)) {
                Result::Ok(p) => r matches Ok(v) && asts_view(v@) == p.0 && final(variables)@
                    == p.1,
                Result::Err(e) => r matches Err(ae) && ae@ == e,
            },
        decreases nodes@, 1nat,
    {
        let ghost st0 = variables@;
        let ghost whole = nodes@.skip(start as int);
        let mut acc: Vec<AstNode> = Vec::new();
        let mut j: usize = start;
        proof {
            if let Result::Ok(p) = build_body_spec(st0, whole) {
                assert(asts_view(acc@) + p.0 =~= p.0);
            }
        }
        while j < nodes.len()
            invariant
                variables.inv(),
                start <= j <= nodes@.len(),
                whole == nodes@.skip(start as int),
                st0 == old(variables)@,
                wf_body(whole),
                table_extends(st0, variables@),
                match build_body_spec(variables@, nodes@.skip(j as int)) {
                    Result::Ok(p) => build_body_spec(st0, whole) matches Ok(q) && q.0
                        == asts_view(acc@) + p.0 && q.1 == p.1,
                    Result::Err(e) => build_body_spec(st0, whole) == Result::<
                        (Seq<AstNodeV>, SymMap),
                        AstErrV,
                    >::Err(e),
                },
            decreases nodes@.len() - j,
        {
            let ghost st_pre = variables@;
            let ghost suffix = nodes@.skip(j as int);
            proof {
                assert(suffix[0] == nodes@[j as int]);
                assert(whole[j - start] == nodes@[j as int]);
                assert(suffix.skip(1) =~= nodes@.skip(j + 1));
            }
            let node_result = AstParser::parse_to_ast_node(variables, &nodes[j]);
            let a = match node_result {
                Result::Err(e) => {
                    proof {
                        lemma_extends_trans(st0, st_pre, variables@);
                    }
                    return Result::Err(e);
                },
                Result::Ok(a) => a,
            };
            proof {
                lemma_extends_trans(st0, st_pre, variables@);
                lemma_asts_view_push(acc@, a);
                if let Result::Ok((av, m)) = build_node_spec(st_pre, nodes@[j as int]) {
                    if let Result::Ok((rest, stf)) = build_body_spec(m, nodes@.skip(j + 1)) {
                        assert(asts_view(acc@) + (seq![av] + rest) =~= asts_view(acc@).push(av)
                            + rest);
                    }
                }
            }
            acc.push(a);
            j = j + 1;
        }
        proof {
            assert(nodes@.skip(j as int).len() == 0);
            assert(asts_view(acc@) + Seq::<AstNodeV>::empty() =~= asts_view(acc@));
        }
        Result::Ok(acc)
    }

    /// Builds one statement node, exactly as [`build_node_spec`] says:
    /// the resulting AST node and symbol table on success, the statement's
    /// first error otherwise.
    pub fn parse_to_ast_node(variables: &mut SymbolTable, node: &ParseNode) -> (r: Result<
        AstNode,
        AstError,
    >)
        requires
            old(variables).inv(),
            wf_parse_node(*node),
        ensures
            final(variables).inv(),
            table_extends(old(variables)@, final(variables)@),
            match build_node_spec(old(variables)@, *node) {
                Result::Ok(p) => r matches Ok(a) && a@ == p.0 && final(variables)@ == p.1,
                Result::Err(e) => r matches Err(ae) && ae@ == e,
            },
        decreases *node, 0nat,
    {
        match node.rule {
            RuleTag::StrDecl => {
                let ident = node.children[0].text.clone();
                let value = if node.children.len() >= 2 {
                    Option::Some(ValueType::Str(node.children[1].text.clone()))
                } else {
                    Option::None
                };
                match AstParser::new_var(variables, &ident, VarType::CString) {
                    Result::Err(e) => Result::Err(e),
                    Result::Ok(u) => {
                        let mut vars: Vec<Variable> = Vec::new();
                        vars.push(Variable { var_type: VarType::CString, ident, value });
                        proof {
                            reveal_with_fuel(vars_view, 2);
                            assert(vars@.drop_last() =~= Seq::<Variable>::empty());
                            assert(vars_view(vars@) =~= seq![var_view(vars@[0])]);
                        }
                        Result::Ok(AstNode::VariableDeclaration(vars))
                    },
                }
            },
            RuleTag::FltDecl => {
                let ident = node.children[0].text.clone();
                let value = if node.children.len() >= 2 {
                    match AstParser::parse_numerical_expr(&node.children[1]) {
                        Result::Err(e) => return Result::Err(e),
                        Result::Ok(v) => Option::Some(v),
                    }
                } else {
                    Option::None
                };
                match AstParser::new_var(variables, &ident, VarType::Float) {
                    Result::Err(e) => Result::Err(e),
                    Result::Ok(u) => {
                        let mut vars: Vec<Variable> = Vec::new();
                        vars.push(Variable { var_type: VarType::Float, ident, value });
                        proof {
                            reveal_with_fuel(vars_view, 2);
                            assert(vars@.drop_last() =~= Seq::<Variable>::empty());
                            assert(vars_view(vars@) =~= seq![var_view(vars@[0])]);
                        }
                        Result::Ok(AstNode::VariableDeclaration(vars))
                    },
                }
            },
            RuleTag::StrAssign => {
                let ident = node.children[0].text.clone();
                match AstParser::assign_var(variables, &ident, VarType::CString) {
                    Result::Err(e) => Result::Err(e),
                    Result::Ok(u) => {
                        if node.children.len() >= 2 {
                            Result::Ok(
                                AstNode::VariableAssignment {
                                    ident,
                                    value: Option::Some(
                                        ValueType::Str(node.children[1].text.clone()),
                                    ),
                                },
                            )
                        } else {
                            Result::Err(AstError::MissingAssignmentValue(ident))
                        }
                    },
                }
            },
            RuleTag::FltAssign => {
                let ident = node.children[0].text.clone();
                match AstParser::assign_var(variables, &ident, VarType::Float) {
                    Result::Err(e) => Result::Err(e),
                    Result::Ok(u) => {
                        if node.children.len() >= 2 {
                            match AstParser::parse_numerical_expr(&node.children[1]) {
                                Result::Err(e) => Result::Err(e),
                                Result::Ok(v) => Result::Ok(
                                    AstNode::VariableAssignment {
                                        ident,
                                        value: Option::Some(v),
                                    },
                                ),
                            }
                        } else {
                            Result::Err(AstError::MissingAssignmentValue(ident))
                        }
                    },
                }
            },
            RuleTag::ConditionStatement => {
                let if_stmt = &node.children[0];
                let bool_expr = if_stmt.children[0].text.clone();
                let ghost st_in = variables@;
                let body = match AstParser::parse_body(variables, &if_stmt.children, 1) {
                    Result::Err(e) => return Result::Err(e),
                    Result::Ok(b) => b,
                };
                if node.children.len() >= 2 {
                    let ghost st_mid = variables@;
                    proof {
                        assert(node.children@[1].children@.skip(0) =~= node.children@[1].children@);
                    }
                    let else_body = match AstParser::parse_body(
                        variables,
                        &node.children[1].children,
                        0,
                    ) {
                        Result::Err(e) => {
                            proof {
                                lemma_extends_trans(st_in, st_mid, variables@);
                            }
                            return Result::Err(e);
                        },
                        Result::Ok(b) => b,
                    };
                    proof {
                        lemma_extends_trans(st_in, st_mid, variables@);
                    }
                    Result::Ok(
                        AstNode::ConditionalStatement {
                            bool_expr,
                            body,
                            else_stmt: Option::Some(else_body),
                        },
                    )
                } else {
                    Result::Ok(
                        AstNode::ConditionalStatement {
                            bool_expr,
                            body,
                            else_stmt: Option::None,
                        },
                    )
                }
            },
            RuleTag::WhileStatement => {
                let bool_expr = node.children[0].text.clone();
                let body = match AstParser::parse_body(variables, &node.children, 1) {
                    Result::Err(e) => return Result::Err(e),
                    Result::Ok(b) => b,
                };
                Result::Ok(AstNode::WhileStatement { bool_expr, body })
            },
            RuleTag::IoStatement => {
                let kind = node.children[0].rule;
                let io = if kind == RuleTag::ReadStringStmt {
                    IOFunc::ReadStr
                } else if kind == RuleTag::ReadNumStmt {
                    IOFunc::ReadNum
                } else if kind == RuleTag::PrintStringStmt {
                    IOFunc::PrintStr
                } else if kind == RuleTag::PrintNumStmt {
                    IOFunc::PrintNum
                } else {
                    return Result::Err(AstError::UnknownIoOperation);
                };
                let param = node.children[1].children[0].text.clone();
                Result::Ok(AstNode::IOStatement { io_stmt: io, param })
            },
            RuleTag::PrintStmt => Result::Ok(
                AstNode::PrintStatement { printable: node.children[0].text.clone() },
            ),
            RuleTag::MainFunc => {
                proof {
                    assert(node.children@.skip(0) =~= node.children@);
                }
                let body = match AstParser::parse_body(variables, &node.children, 0) {
                    Result::Err(e) => return Result::Err(e),
                    Result::Ok(b) => b,
                };
                Result::Ok(AstNode::MainFunction(body))
            },
            _ => Result::Err(AstError::UnexpectedGrammarRule),
        }
    }

    /// Builds the whole program from the top-level parse nodes, with a
    /// fresh symbol table, as [`build_body_spec`] from the empty table
    /// says.  The table is discarded once the tree is built; the emitter
    /// never consults it.
    pub fn parse(nodes: &Vec<ParseNode>) -> (r: Result<Vec<AstNode>, AstError>)
        requires
            wf_body(nodes@),
        ensures
            match build_body_spec(Map::empty(), nodes@) {
                Result::Ok(p) => r matches Ok(v) && asts_view(v@) == p.0,
                Result::Err(e) => r matches Err(ae) && ae@ == e,
            },
    {
        let mut variables = SymbolTable::new();
        proof {
            assert(nodes@.skip(0) =~= nodes@);
        }
        AstParser::parse_body(&mut variables, nodes, 0)
    }
}

} // verus!
