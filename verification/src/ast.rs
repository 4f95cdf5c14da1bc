//! The typed abstract syntax tree and its mathematical model.
//!
//! Exec values ([`AstNode`], [`ValueType`], [`Expr`], [`Variable`]) carry
//! `String`s and `Vec`s; contracts speak about their views ([`AstNodeV`]
//! and friends), in which every text is a `Seq<char>` and every list a
//! `Seq`.

use vstd::prelude::*;

verus! {

/// The type a variable is declared with, rendered as `char*` or `float`
/// in the target language.
#[derive(Clone, Copy, PartialEq, Eq, Structural, Debug)]
pub enum VarType {
    CString,
    Float,
}

/// The four console I/O operations of the language.
#[derive(Clone, Copy, PartialEq, Eq, Structural, Debug)]
pub enum IOFunc {
    ReadStr,
    ReadNum,
    PrintStr,
    PrintNum,
}

/// A value standing on the right-hand side of a declaration or
/// assignment.  A float literal is carried as its decimal source text,
/// validated by the expression normalizer.
#[derive(Debug, PartialEq, Eq)]
pub enum ValueType {
    Ident(String),
    Str(String),
    Float(String),
    Expression(Vec<Expr>),
}

/// One entry of a flat operator/operand expression sequence.  Operator
/// markers stand positionally between operand terms; only the power
/// operator is restructured into an explicit base/exponent pair.
#[derive(Debug, PartialEq, Eq)]
pub enum Expr {
    Add,
    Subtract,
    Multiply,
    Divide,
    Power { base: Box<ValueType>, exp: Box<ValueType> },
    Term(Box<ValueType>),
}

/// A declared variable: its type, name and optional initial value.
#[derive(Debug, PartialEq, Eq)]
pub struct Variable {
    pub var_type: VarType,
    pub ident: String,
    pub value: Option<ValueType>,
}

/// A statement (or the program root) of the abstract syntax tree.
#[derive(Debug, PartialEq, Eq)]
pub enum AstNode {
    MainFunction(Vec<AstNode>),
    VariableDeclaration(Vec<Variable>),
    VariableAssignment { ident: String, value: Option<ValueType> },
    ConditionalStatement { bool_expr: String, body: Vec<AstNode>, else_stmt: Option<Vec<AstNode>> },
    WhileStatement { bool_expr: String, body: Vec<AstNode> },
    IOStatement { io_stmt: IOFunc, param: String },
    PrintStatement { printable: String },
}

/// Mathematical view of [`ValueType`].
pub enum ValueTypeV {
    Ident(Seq<char>),
    Str(Seq<char>),
    Float(Seq<char>),
    Expression(Seq<ExprV>),
}

/// Mathematical view of [`Expr`].
pub enum ExprV {
    Add,
    Subtract,
    Multiply,
    Divide,
    Power { base: Box<ValueTypeV>, exp: Box<ValueTypeV> },
    Term(Box<ValueTypeV>),
}

/// Mathematical view of [`Variable`].
pub struct VariableV {
    pub var_type: VarType,
    pub ident: Seq<char>,
    pub value: Option<ValueTypeV>,
}

/// Mathematical view of [`AstNode`].
pub enum AstNodeV {
    MainFunction(Seq<AstNodeV>),
    VariableDeclaration(Seq<VariableV>),
    VariableAssignment { ident: Seq<char>, value: Option<ValueTypeV> },
    ConditionalStatement {
        bool_expr: Seq<char>,
        body: Seq<AstNodeV>,
        else_stmt: Option<Seq<AstNodeV>>,
    },
    WhileStatement { bool_expr: Seq<char>, body: Seq<AstNodeV> },
    IOStatement { io_stmt: IOFunc, param: Seq<char> },
    PrintStatement { printable: Seq<char> },
}

pub open spec fn value_view(v: ValueType) -> ValueTypeV
    decreases v,
{
    match v {
        ValueType::Ident(s) => ValueTypeV::Ident(s@),
        ValueType::Str(s) => ValueTypeV::Str(s@),
        ValueType::Float(s) => ValueTypeV::Float(s@),
        ValueType::Expression(es) => ValueTypeV::Expression(exprs_view(es@)),
    }
}

pub open spec fn expr_view(e: Expr) -> ExprV
    decreases e,
{
    match e {
        Expr::Add => ExprV::Add,
        Expr::Subtract => ExprV::Subtract,
        Expr::Multiply => ExprV::Multiply,
        Expr::Divide => ExprV::Divide,
        Expr::Power { base, exp } => ExprV::Power {
            base: Box::new(value_view(*base)),
            exp: Box::new(value_view(*exp)),
        },
        Expr::Term(v) => ExprV::Term(Box::new(value_view(*v))),
    }
}

pub open spec fn exprs_view(es: Seq<Expr>) -> Seq<ExprV>
    decreases es,
{
    if es.len() == 0 {
        Seq::empty()
    } else {
        exprs_view(es.drop_last()).push(expr_view(es.last()))
    }
}

pub open spec fn opt_value_view(v: Option<ValueType>) -> Option<ValueTypeV> {
    match v {
        Option::Some(x) => Option::Some(value_view(x)),
        Option::None => Option::None,
    }
}

pub open spec fn var_view(v: Variable) -> VariableV {
    VariableV { var_type: v.var_type, ident: v.ident@, value: opt_value_view(v.value) }
}

pub open spec fn vars_view(vs: Seq<Variable>) -> Seq<VariableV>
    decreases vs,
{
    if vs.len() == 0 {
        Seq::empty()
    } else {
        vars_view(vs.drop_last()).push(var_view(vs.last()))
    }
}

pub open spec fn ast_view(n: AstNode) -> AstNodeV
    decreases n,
{
    match n {
        AstNode::MainFunction(body) => AstNodeV::MainFunction(asts_view(body@)),
        AstNode::VariableDeclaration(vs) => AstNodeV::VariableDeclaration(vars_view(vs@)),
        AstNode::VariableAssignment { ident, value } => AstNodeV::VariableAssignment {
            ident: ident@,
            value: opt_value_view(value),
        },
        AstNode::ConditionalStatement { bool_expr, body, else_stmt } => {
            AstNodeV::ConditionalStatement {
                bool_expr: bool_expr@,
                body: asts_view(body@),
                else_stmt: match else_stmt {
                    Option::Some(es) => Option::Some(asts_view(es@)),
                    Option::None => Option::None,
                },
            }
        },
        AstNode::WhileStatement { bool_expr, body } => AstNodeV::WhileStatement {
            bool_expr: bool_expr@,
            body: asts_view(body@),
        },
        AstNode::IOStatement { io_stmt, param } => AstNodeV::IOStatement {
            io_stmt,
            param: param@,
        },
        AstNode::PrintStatement { printable } => AstNodeV::PrintStatement { printable: printable@ },
    }
}

pub open spec fn asts_view(ns: Seq<AstNode>) -> Seq<AstNodeV>
    decreases ns,
{
    if ns.len() == 0 {
        Seq::empty()
    } else {
        asts_view(ns.drop_last()).push(ast_view(ns.last()))
    }
}

impl View for ValueType {
    type V = ValueTypeV;

    open spec fn view(&self) -> ValueTypeV {
        value_view(*self)
    }
}

impl View for Expr {
    type V = ExprV;

    open spec fn view(&self) -> ExprV {
        expr_view(*self)
    }
}

impl View for Variable {
    type V = VariableV;

    open spec fn view(&self) -> VariableV {
        var_view(*self)
    }
}

impl View for AstNode {
    type V = AstNodeV;

    open spec fn view(&self) -> AstNodeV {
        ast_view(*self)
    }
}

pub proof fn lemma_asts_view_push(ns: Seq<AstNode>, n: AstNode)
    ensures
        asts_view(ns.push(n)) == asts_view(ns).push(ast_view(n)),
{
    assert(ns.push(n).drop_last() =~= ns);
}

pub proof fn lemma_exprs_view_push(es: Seq<Expr>, e: Expr)
    ensures
        exprs_view(es.push(e)) == exprs_view(es).push(expr_view(e)),
{
    assert(es.push(e).drop_last() =~= es);
}

pub proof fn lemma_exprs_view_len(es: Seq<Expr>)
    ensures
        exprs_view(es).len() == es.len(),
    decreases es,
{
    if es.len() > 0 {
        lemma_exprs_view_len(es.drop_last());
    }
}

pub proof fn lemma_exprs_view_index(es: Seq<Expr>, i: int)
    requires
        0 <= i < es.len(),
    ensures
        exprs_view(es).len() == es.len(),
        exprs_view(es)[i] == expr_view(es[i]),
    decreases es,
{
    lemma_exprs_view_len(es);
    if i < es.len() - 1 {
        assert(es.drop_last()[i] == es[i]);
        lemma_exprs_view_index(es.drop_last(), i);
    }
}

pub proof fn lemma_asts_view_len(ns: Seq<AstNode>)
    ensures
        asts_view(ns).len() == ns.len(),
    decreases ns,
{
    if ns.len() > 0 {
        lemma_asts_view_len(ns.drop_last());
    }
}

pub proof fn lemma_asts_view_index(ns: Seq<AstNode>, i: int)
    requires
        0 <= i < ns.len(),
    ensures
        asts_view(ns).len() == ns.len(),
        asts_view(ns)[i] == ast_view(ns[i]),
    decreases ns,
{
    lemma_asts_view_len(ns);
    if i < ns.len() - 1 {
        assert(ns.drop_last()[i] == ns[i]);
        lemma_asts_view_index(ns.drop_last(), i);
    }
}

pub proof fn lemma_vars_view_len(vs: Seq<Variable>)
    ensures
        vars_view(vs).len() == vs.len(),
    decreases vs,
{
    if vs.len() > 0 {
        lemma_vars_view_len(vs.drop_last());
    }
}

pub proof fn lemma_vars_view_index(vs: Seq<Variable>, i: int)
    requires
        0 <= i < vs.len(),
    ensures
        vars_view(vs).len() == vs.len(),
        vars_view(vs)[i] == var_view(vs[i]),
    decreases vs,
{
    lemma_vars_view_len(vs);
    if i < vs.len() - 1 {
        assert(vs.drop_last()[i] == vs[i]);
        lemma_vars_view_index(vs.drop_last(), i);
    }
}

/// A fatal translation error.  Every detected violation aborts the whole
/// translation; there are no warnings and no partial output.
#[derive(Debug, PartialEq, Eq)]
pub enum AstError {
    /// A name was declared twice (one flat namespace, no shadowing).
    DuplicateDeclaration(String),
    /// An assignment targets a name that was never declared.
    UndeclaredVariable(String),
    /// An assignment's value type disagrees with the declared type.
    TypeMismatch { ident: String, expected: VarType, actual: VarType },
    /// An assignment construct lacks a value where one is required.
    MissingAssignmentValue(String),
    /// A float literal's text cannot be read as a decimal number.
    InvalidFloatLiteral(String),
    /// A power operator has no preceding operand term to serve as base.
    PowerMissingBase,
    /// An I/O statement names none of the four I/O operations.
    UnknownIoOperation,
    /// A rule tag the builder does not recognize at this position.
    UnexpectedGrammarRule,
}

/// Mathematical view of [`AstError`].
pub enum AstErrV {
    DuplicateDeclaration(Seq<char>),
    UndeclaredVariable(Seq<char>),
    TypeMismatch { ident: Seq<char>, expected: VarType, actual: VarType },
    MissingAssignmentValue(Seq<char>),
    InvalidFloatLiteral(Seq<char>),
    PowerMissingBase,
    UnknownIoOperation,
    UnexpectedGrammarRule,
}

pub open spec fn err_view(e: AstError) -> AstErrV {
    match e {
        AstError::DuplicateDeclaration(s) => AstErrV::DuplicateDeclaration(s@),
        AstError::UndeclaredVariable(s) => AstErrV::UndeclaredVariable(s@),
        AstError::TypeMismatch { ident, expected, actual } => AstErrV::TypeMismatch {
            ident: ident@,
            expected,
            actual,
        },
        AstError::MissingAssignmentValue(s) => AstErrV::MissingAssignmentValue(s@),
        AstError::InvalidFloatLiteral(s) => AstErrV::InvalidFloatLiteral(s@),
        AstError::PowerMissingBase => AstErrV::PowerMissingBase,
        AstError::UnknownIoOperation => AstErrV::UnknownIoOperation,
        AstError::UnexpectedGrammarRule => AstErrV::UnexpectedGrammarRule,
    }
}

impl View for AstError {
    type V = AstErrV;

    open spec fn view(&self) -> AstErrV {
        err_view(*self)
    }
}

/// The target-language spelling of a variable type.
pub open spec fn var_type_text(t: VarType) -> Seq<char> {
    match t {
        VarType::CString => "char*"@,
        VarType::Float => "float"@,
    }
}

impl VarType {
    /// Runtime spelling for [`var_type_text`].
    pub fn text(&self) -> (r: &'static str)
        ensures
            r@ == var_type_text(*self),
    {
        match self {
            VarType::CString => "char*",
            VarType::Float => "float",
        }
    }
}

/// The diagnostic text of an error, identifying the offending name or
/// literal where one applies.
pub open spec fn error_message(e: AstErrV) -> Seq<char> {
    match e {
        AstErrV::DuplicateDeclaration(name) => "Variable "@ + name + " already declared"@,
        AstErrV::UndeclaredVariable(name) => "Variable "@ + name + " was not declared"@,
        AstErrV::TypeMismatch { ident, expected, actual } => "Trying to assign value of type "@
            + var_type_text(actual) + " to variable "@ + ident + " of type "@ + var_type_text(
            expected,
        ),
        AstErrV::MissingAssignmentValue(name) => "No value in assignment of variable "@ + name,
        AstErrV::InvalidFloatLiteral(text) => "Error converting "@ + text + " to float"@,
        AstErrV::PowerMissingBase => "Power operator without a preceding base term"@,
        AstErrV::UnknownIoOperation => "Unexpected IO identifier"@,
        AstErrV::UnexpectedGrammarRule => "Unexpected grammar rule"@,
    }
}

impl AstError {
    /// The diagnostic text of this error.
    pub fn message(&self) -> (r: String)
        ensures
            r@ == error_message(self@),
    {
        match self {
            AstError::DuplicateDeclaration(name) => {
                let mut s = String::from_str("Variable ");
                s.append(name.as_str());
                s.append(" already declared");
                s
            },
            AstError::UndeclaredVariable(name) => {
                let mut s = String::from_str("Variable ");
                s.append(name.as_str());
                s.append(" was not declared");
                s
            },
            AstError::TypeMismatch { ident, expected, actual } => {
                let mut s = String::from_str("Trying to assign value of type ");
                s.append(actual.text());
                s.append(" to variable ");
                s.append(ident.as_str());
                s.append(" of type ");
                s.append(expected.text());
                s
            },
            AstError::MissingAssignmentValue(name) => {
                let mut s = String::from_str("No value in assignment of variable ");
                s.append(name.as_str());
                s
            },
            AstError::InvalidFloatLiteral(text) => {
                let mut s = String::from_str("Error converting ");
                s.append(text.as_str());
                s.append(" to float");
                s
            },
            AstError::PowerMissingBase => String::from_str(
                "Power operator without a preceding base term",
            ),
            AstError::UnknownIoOperation => String::from_str("Unexpected IO identifier"),
            AstError::UnexpectedGrammarRule => String::from_str("Unexpected grammar rule"),
        }
    }
}

} // verus!
