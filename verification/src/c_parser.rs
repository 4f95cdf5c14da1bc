//! The code emitter: renders the abstract syntax tree as one
//! C-compatible translation unit.
//!
//! The functions [`emit_node`], [`emit_nodes`], [`emit_value`],
//! [`emit_terms`] and [`emit_vars`] are the mathematical model of the
//! output text; every executable function returns exactly the text its
//! model says.

use vstd::prelude::*;
use crate::ast::{
    AstError, AstErrV, AstNode, AstNodeV, Expr, ExprV, IOFunc, ValueType, ValueTypeV, VariableV,
    asts_view, exprs_view, lemma_asts_view_index, lemma_asts_view_len, lemma_exprs_view_index,
    lemma_exprs_view_len, lemma_vars_view_index, lemma_vars_view_len, var_type_text, vars_view,
};

verus! {

/// The text of one value: literals and identifiers stand as their own
/// text; an expression sequence is wrapped in parentheses as a whole, so
/// the target language's own precedence reproduces the source grouping.
pub open spec fn emit_value(v: ValueTypeV) -> Seq<char>
    decreases v, 0nat,
{
    match v {
        ValueTypeV::Ident(s) => s,
        ValueTypeV::Str(s) => s,
        ValueTypeV::Float(s) => s,
        ValueTypeV::Expression(es) => "("@ + emit_terms(es) + ")"@,
    }
}

/// The text of an expression sequence: each entry's rendering, in source
/// order, with the power pair rendered as a `pow` call.
pub open spec fn emit_terms(es: Seq<ExprV>) -> Seq<char>
    decreases es, 1nat,
{
    if es.len() == 0 {
        Seq::empty()
    } else {
        let piece = match es[0] {
            ExprV::Add => "+"@,
            ExprV::Subtract => "-"@,
            ExprV::Multiply => "*"@,
            ExprV::Divide => "/"@,
            ExprV::Power { base, exp } => "pow("@ + emit_value(*base) + ", "@ + emit_value(*exp)
                + ")"@,
            ExprV::Term(v) => emit_value(*v),
        };
        piece + emit_terms(es.skip(1))
    }
}

/// The declaration line of one variable.
pub open spec fn emit_var_decl(v: VariableV) -> Seq<char> {
    match v.value {
        Option::Some(val) => var_type_text(v.var_type) + " "@ + v.ident + "="@ + emit_value(val)
            + ";\n"@,
        Option::None => var_type_text(v.var_type) + " "@ + v.ident + ";\n"@,
    }
}

/// The declaration lines of a declaration statement, concatenated.
pub open spec fn emit_vars(vs: Seq<VariableV>) -> Seq<char>
    decreases vs,
{
    if vs.len() == 0 {
        Seq::empty()
    } else {
        emit_var_decl(vs[0]) + emit_vars(vs.skip(1))
    }
}

/// The text of one statement (or of the whole program, for the root
/// node).  Only an assignment that carries no value fails: the builder
/// never constructs one, so this is a renderer-side invariant check.
pub open spec fn emit_node(n: AstNodeV) -> Result<Seq<char>, AstErrV>
    decreases n, 0nat,
{
    match n {
        AstNodeV::MainFunction(body) => match emit_nodes(body) {
            Result::Err(e) => Result::Err(e),
            Result::Ok(s) => Result::Ok(
                "#include <stdio.h>\n#include <math.h>\nint main() { "@ + s + " return 0; }"@,
            ),
        },
        AstNodeV::VariableDeclaration(vs) => Result::Ok(emit_vars(vs)),
        AstNodeV::VariableAssignment { ident, value } => match value {
            Option::Some(v) => Result::Ok(ident + " = "@ + emit_value(v) + ";\n"@),
            Option::None => Result::Err(AstErrV::MissingAssignmentValue(ident)),
        },
        AstNodeV::ConditionalStatement { bool_expr, body, else_stmt } => match emit_nodes(body) {
            Result::Err(e) => Result::Err(e),
            Result::Ok(tb) => match else_stmt {
                Option::None => Result::Ok("if ("@ + bool_expr + ") { "@ + tb + " }"@),
                Option::Some(eb) => match emit_nodes(eb) {
                    Result::Err(e) => Result::Err(e),
                    Result::Ok(te) => Result::Ok(
                        "if ("@ + bool_expr + ") { "@ + tb + " } else { "@ + te + " }"@,
                    ),
                },
            },
        },
        AstNodeV::WhileStatement { bool_expr, body } => match emit_nodes(body) {
            Result::Err(e) => Result::Err(e),
            Result::Ok(tb) => Result::Ok("while ("@ + bool_expr + ") { "@ + tb + " }"@),
        },
        AstNodeV::IOStatement { io_stmt, param } => match io_stmt {
            IOFunc::ReadStr => Result::Ok("scanf(\"%s\", &"@ + param + ");"@),
            IOFunc::ReadNum => Result::Ok("scanf(\"%f\", &"@ + param + ");"@),
            IOFunc::PrintStr => Result::Ok("printf(\"%s\", "@ + param + ");"@),
            IOFunc::PrintNum => Result::Ok("printf(\"%f\", "@ + param + ");"@),
        },
        AstNodeV::PrintStatement { printable } => Result::Ok("printf("@ + printable + ");"@),
    }
}

/// The concatenated text of a statement sequence, stopping at the first
/// error.
pub open spec fn emit_nodes(ns: Seq<AstNodeV>) -> Result<Seq<char>, AstErrV>
    decreases ns, 1nat,
{
    if ns.len() == 0 {
        Result::Ok(Seq::empty())
    } else {
        match emit_node(ns[0]) {
            Result::Err(e) => Result::Err(e),
            Result::Ok(s1) => match emit_nodes(ns.skip(1)) {
                Result::Err(e) => Result::Err(e),
                Result::Ok(s2) => Result::Ok(s1 + s2),
            },
        }
    }
}

/// The code emitter.
pub struct CParser;

impl CParser {
    /// Renders the top-level AST nodes as one translation unit, exactly
    /// as [`emit_nodes`] says.
    pub fn parse(nodes: Vec<AstNode>) -> (r: Result<String, AstError>)
        ensures
            match emit_nodes(asts_view(nodes@)) {
                Result::Ok(s) => r matches Ok(out) && out@ == s,
                Result::Err(e) => r matches Err(ae) && ae@ == e,
            },
    {
        CParser::emit_body(&nodes)
    }

    /// Renders a statement sequence, exactly as [`emit_nodes`] says.
    fn emit_body(nodes: &Vec<AstNode>) -> (r: Result<String, AstError>)
        ensures
            match emit_nodes(asts_view(nodes@)) {
                Result::Ok(s) => r matches Ok(out) && out@ == s,
                Result::Err(e) => r matches Err(ae) && ae@ == e,
            },
        decreases nodes@, 1nat,
    {
        let ghost vs = asts_view(nodes@);
        let mut out = String::new();
        let mut i: usize = 0;
        proof {
            lemma_asts_view_len(nodes@);
            assert(vs.skip(0) =~= vs);
            if let Result::Ok(s) = emit_nodes(vs) {
                assert(Seq::<char>::empty() + s =~= s);
            }
        }
        while i < nodes.len()
            invariant
                vs == asts_view(nodes@),
                vs.len() == nodes@.len(),
                0 <= i <= nodes@.len(),
                match emit_nodes(vs.skip(i as int)) {
                    Result::Ok(s) => emit_nodes(vs) matches Ok(t) && t == out@ + s,
                    Result::Err(e) => emit_nodes(vs) == Result::<Seq<char>, AstErrV>::Err(e),
                },
            decreases nodes@.len() - i,
        {
            proof {
                lemma_asts_view_index(nodes@, i as int);
                assert(vs.skip(i as int)[0] == vs[i as int]);
                assert(vs.skip(i as int).skip(1) =~= vs.skip(i + 1));
            }
            let piece = match CParser::parse_to_c_expr(&nodes[i]) {
                Result::Err(e) => return Result::Err(e),
                Result::Ok(s) => s,
            };
            proof {
                if let Result::Ok(s1) = emit_node(vs[i as int]) {
                    if let Result::Ok(s2) = emit_nodes(vs.skip(i + 1)) {
                        assert(out@ + (s1 + s2) =~= (out@ + s1) + s2);
                    }
                }
            }
            out.append(piece.as_str());
            i = i + 1;
        }
        proof {
            assert(vs.skip(i as int).len() == 0);
            if let Result::Ok(s) = emit_nodes(vs.skip(i as int)) {
                assert(out@ + s =~= out@);
            }
        }
        Result::Ok(out)
    }

    /// Renders one statement, exactly as [`emit_node`] says.
    pub fn parse_to_c_expr(node: &AstNode) -> (r: Result<String, AstError>)
        ensures
            match emit_node(node@) {
                Result::Ok(s) => r matches Ok(out) && out@ == s,
                Result::Err(e) => r matches Err(ae) && ae@ == e,
            },
        decreases *node, 0nat,
    {
        match node {
            AstNode::MainFunction(body) => {
                let inner = match CParser::emit_body(body) {
                    Result::Err(e) => return Result::Err(e),
                    Result::Ok(s) => s,
                };
                let mut out = String::from_str("#include <stdio.h>\n#include <math.h>\nint main() { ");
                out.append(inner.as_str());
                out.append(" return 0; }");
                proof {
                    if let Result::Ok(s) = emit_node(node@) {
                        assert(out@ =~= s);
                    }
                }
                Result::Ok(out)
            },
            AstNode::VariableDeclaration(vars) => {
                let ghost ws = vars_view(vars@);
                let mut out = String::new();
                let mut i: usize = 0;
                proof {
                    lemma_vars_view_len(vars@);
                    assert(ws.skip(0) =~= ws);
                    assert(Seq::<char>::empty() + emit_vars(ws) =~= emit_vars(ws));
                }
                while i < vars.len()
                    invariant
                        ws == vars_view(vars@),
                        ws.len() == vars@.len(),
                        0 <= i <= vars@.len(),
                        out@ + emit_vars(ws.skip(i as int)) == emit_vars(ws),
                    decreases vars@.len() - i,
                {
                    let ghost out0 = out@;
                    proof {
                        lemma_vars_view_index(vars@, i as int);
                        assert(ws.skip(i as int)[0] == ws[i as int]);
                        assert(ws.skip(i as int).skip(1) =~= ws.skip(i + 1));
                    }
                    let v = &vars[i];
                    out.append(v.var_type.text());
                    out.append(" ");
                    out.append(v.ident.as_str());
                    match &v.value {
                        Option::Some(val) => {
                            out.append("=");
                            let vtext = CParser::parse_variable_value(val);
                            out.append(vtext.as_str());
                            out.append(";\n");
                        },
                        Option::None => {
                            out.append(";\n");
                        },
                    }
                    proof {
                        assert(out@ =~= out0 + emit_var_decl(ws[i as int]));
                        assert(out0 + (emit_var_decl(ws[i as int]) + emit_vars(ws.skip(i + 1)))
                            =~= (out0 + emit_var_decl(ws[i as int])) + emit_vars(ws.skip(i + 1)));
                    }
                    i = i + 1;
                }
                proof {
                    assert(ws.skip(i as int).len() == 0);
                    assert(out@ + emit_vars(ws.skip(i as int)) =~= out@);
                }
                Result::Ok(out)
            },
            AstNode::VariableAssignment { ident, value } => {
                match value {
                    Option::None => Result::Err(
                        AstError::MissingAssignmentValue(ident.clone()),
                    ),
                    Option::Some(v) => {
                        let mut out = ident.clone();
                        out.append(" = ");
                        let vtext = CParser::parse_variable_value(v);
                        out.append(vtext.as_str());
                        out.append(";\n");
                        proof {
                            if let Result::Ok(s) = emit_node(node@) {
                                assert(out@ =~= s);
                            }
                        }
                        Result::Ok(out)
                    },
                }
            },
            AstNode::ConditionalStatement { bool_expr, body, else_stmt } => {
                let tb = match CParser::emit_body(body) {
                    Result::Err(e) => return Result::Err(e),
                    Result::Ok(s) => s,
                };
                let mut out = String::from_str("if (");
                out.append(bool_expr.as_str());
                out.append(") { ");
                out.append(tb.as_str());
                match else_stmt {
                    Option::None => {
                        out.append(" }");
                        proof {
                            if let Result::Ok(s) = emit_node(node@) {
                                assert(out@ =~= s);
                            }
                        }
                        Result::Ok(out)
                    },
                    Option::Some(eb) => {
                        let te = match CParser::emit_body(eb) {
                            Result::Err(e) => return Result::Err(e),
                            Result::Ok(s) => s,
                        };
                        out.append(" } else { ");
                        out.append(te.as_str());
                        out.append(" }");
                        proof {
                            if let Result::Ok(s) = emit_node(node@) {
                                assert(out@ =~= s);
                            }
                        }
                        Result::Ok(out)
                    },
                }
            },
            AstNode::WhileStatement { bool_expr, body } => {
                let tb = match CParser::emit_body(body) {
                    Result::Err(e) => return Result::Err(e),
                    Result::Ok(s) => s,
                };
                let mut out = String::from_str("while (");
                out.append(bool_expr.as_str());
                out.append(") { ");
                out.append(tb.as_str());
                out.append(" }");
                proof {
                    if let Result::Ok(s) = emit_node(node@) {
                        assert(out@ =~= s);
                    }
                }
                Result::Ok(out)
            },
            AstNode::IOStatement { io_stmt, param } => {
                let mut out = match io_stmt {
                    IOFunc::ReadStr => String::from_str("scanf(\"%s\", &"),
                    IOFunc::ReadNum => String::from_str("scanf(\"%f\", &"),
                    IOFunc::PrintStr => String::from_str("printf(\"%s\", "),
                    IOFunc::PrintNum => String::from_str("printf(\"%f\", "),
                };
                out.append(param.as_str());
                out.append(");");
                proof {
                    if let Result::Ok(s) = emit_node(node@) {
                        assert(out@ =~= s);
                    }
                }
                Result::Ok(out)
            },
            AstNode::PrintStatement { printable } => {
                let mut out = String::from_str("printf(");
                out.append(printable.as_str());
                out.append(");");
                proof {
                    if let Result::Ok(s) = emit_node(node@) {
                        assert(out@ =~= s);
                    }
                }
                Result::Ok(out)
            },
        }
    }

    /// Renders one value, exactly as [`emit_value`] says.
    pub fn parse_variable_value(value: &ValueType) -> (r: String)
        ensures
            r@ == emit_value(value@),
        decreases *value, 0nat,
    {
        match value {
            ValueType::Ident(s) => s.clone(),
            ValueType::Str(s) => s.clone(),
            ValueType::Float(s) => s.clone(),
            ValueType::Expression(es) => {
                let mut out = String::from_str("(");
                let terms = CParser::render_terms(es);
                out.append(terms.as_str());
                out.append(")");
                proof {
                    assert(out@ =~= "("@ + emit_terms(exprs_view(es@)) + ")"@);
                }
                out
            },
        }
    }

    /// Renders an expression sequence, exactly as [`emit_terms`] says.
    fn render_terms(es: &Vec<Expr>) -> (r: String)
        ensures
            r@ == emit_terms(exprs_view(es@)),
        decreases es@, 1nat,
    {
        let ghost ts = exprs_view(es@);
        let mut out = String::new();
        let mut i: usize = 0;
        proof {
            lemma_exprs_view_len(es@);
            assert(ts.skip(0) =~= ts);
            assert(Seq::<char>::empty() + emit_terms(ts) =~= emit_terms(ts));
        }
        while i < es.len()
            invariant
                ts == exprs_view(es@),
                ts.len() == es@.len(),
                0 <= i <= es@.len(),
                out@ + emit_terms(ts.skip(i as int)) == emit_terms(ts),
            decreases es@.len() - i,
        {
            let ghost out0 = out@;
            proof {
                lemma_exprs_view_index(es@, i as int);
                assert(ts.skip(i as int)[0] == ts[i as int]);
                assert(ts.skip(i as int).skip(1) =~= ts.skip(i + 1));
            }
            match &es[i] {
                Expr::Add => out.append("+"),
                Expr::Subtract => out.append("-"),
                Expr::Multiply => out.append("*"),
                Expr::Divide => out.append("/"),
                Expr::Power { base, exp } => {
                    let mut piece = String::from_str("pow(");
                    let btext = CParser::parse_variable_value(&**base);
                    piece.append(btext.as_str());
                    piece.append(", ");
                    let etext = CParser::parse_variable_value(&**exp);
                    piece.append(etext.as_str());
                    piece.append(")");
                    out.append(piece.as_str());
                },
                Expr::Term(v) => {
                    let vtext = CParser::parse_variable_value(&**v);
                    out.append(vtext.as_str());
                },
            }
            proof {
                let piece_spec = match ts[i as int] {
                    ExprV::Add => "+"@,
                    ExprV::Subtract => "-"@,
                    ExprV::Multiply => "*"@,
                    ExprV::Divide => "/"@,
                    ExprV::Power { base, exp } => "pow("@ + emit_value(*base) + ", "@
                        + emit_value(*exp) + ")"@,
                    ExprV::Term(v) => emit_value(*v),
                };
                assert(out@ =~= out0 + piece_spec);
                assert(out0 + (piece_spec + emit_terms(ts.skip(i + 1))) =~= (out0 + piece_spec)
                    + emit_terms(ts.skip(i + 1)));
            }
            i = i + 1;
        }
        proof {
            assert(ts.skip(i as int).len() == 0);
            assert(out@ + emit_terms(ts.skip(i as int)) =~= out@);
        }
        out
    }
}

} // verus!
