//! The concrete parse tree handed to the translator.
//!
//! An external grammar engine matches raw source text and produces a tree
//! of rule-tagged nodes.  The translator only dispatches on the rule tag,
//! reads the matched text and walks the children; it never re-implements
//! lexing or grammar matching.

use vstd::prelude::*;

verus! {

/// Grammar rule tags that can label a parse node.
///
/// The AST builder dispatches on a subset of these; a tag it does not
/// recognize at a given position is a contract violation between the
/// grammar and the builder and aborts the translation.
#[derive(Clone, Copy, PartialEq, Eq, Structural, Debug)]
pub enum RuleTag {
    MainFunc,
    StrDecl,
    FltDecl,
    StrAssign,
    FltAssign,
    ConditionStatement,
    IfStmt,
    ElseStmt,
    WhileStatement,
    IoStatement,
    ReadStringStmt,
    ReadNumStmt,
    PrintStringStmt,
    PrintNumStmt,
    IoParam,
    PrintStmt,
    PrintText,
    Expr,
    Add,
    Subtract,
    Multiply,
    Divide,
    Power,
    FltValue,
    TId,
    StrValue,
    BoolExpr,
}

/// One node of the concrete parse tree: a rule tag, the source text the
/// rule matched, and the child nodes in source order.
pub struct ParseNode {
    pub rule: RuleTag,
    pub text: String,
    pub children: Vec<ParseNode>,
}

/// Structural well-formedness of a parse node, as the external grammar
/// guarantees it: every construct carries the children that its grammar
/// rule always produces (an identifier in a declaration, a condition in a
/// loop, an operand after a power operator).  Semantic rules (duplicate
/// declarations, type mismatches, malformed literals) are *not* part of
/// this predicate; the AST builder checks those and reports them.
pub open spec fn wf_parse_node(n: ParseNode) -> bool
    decreases n, 0nat,
{
    match n.rule {
        RuleTag::StrDecl => n.children@.len() >= 1,
        RuleTag::FltDecl => n.children@.len() >= 1 && (n.children@.len() >= 2 ==> wf_operand(
            n.children@[1],
        )),
        RuleTag::StrAssign => n.children@.len() >= 1,
        RuleTag::FltAssign => n.children@.len() >= 1 && (n.children@.len() >= 2 ==> wf_operand(
            n.children@[1],
        )),
        RuleTag::ConditionStatement => {
            &&& n.children@.len() >= 1
            &&& n.children@[0].children@.len() >= 1
            &&& wf_body(n.children@[0].children@.skip(1))
            &&& n.children@.len() >= 2 ==> wf_body(n.children@[1].children@)
        },
        RuleTag::WhileStatement => n.children@.len() >= 1 && wf_body(n.children@.skip(1)),
        RuleTag::IoStatement => n.children@.len() >= 2 && n.children@[1].children@.len() >= 1,
        RuleTag::PrintStmt => n.children@.len() >= 1,
        RuleTag::MainFunc => wf_body(n.children@),
        _ => true,
    }
}

/// Every node of a statement body is well-formed.
pub open spec fn wf_body(ns: Seq<ParseNode>) -> bool
    decreases ns, 1nat,
{
    forall|i: int| 0 <= i < ns.len() ==> wf_parse_node(#[trigger] ns[i])
}

/// Structural well-formedness of a node standing where the expression
/// normalizer reads an operand.  Inside an expression node, every power
/// operator must be followed by an operand child (the exponent).
pub open spec fn wf_operand(n: ParseNode) -> bool
    decreases n, 0nat,
{
    match n.rule {
        RuleTag::Expr => wf_expr_children(n.children@),
        _ => true,
    }
}

/// Children of an expression node: no power operator stands last, and
/// every child is itself a well-formed operand (operator tags trivially
/// are).
pub open spec fn wf_expr_children(ns: Seq<ParseNode>) -> bool
    decreases ns, 1nat,
{
    &&& forall|i: int|
        0 <= i < ns.len() && (#[trigger] ns[i]).rule == RuleTag::Power ==> i + 1 < ns.len()
    &&& forall|i: int| 0 <= i < ns.len() ==> wf_operand(#[trigger] ns[i])
}

impl ParseNode {
    /// Runtime check for [`wf_parse_node`], so that unverified callers can
    /// establish the builder's precondition before handing a tree over.
    pub fn well_formed(&self) -> (b: bool)
        ensures
            b == wf_parse_node(*self),
        decreases *self, 0nat,
    {
        match self.rule {
            RuleTag::StrDecl => self.children.len() >= 1,
            RuleTag::FltDecl => self.children.len() >= 1 && (self.children.len() < 2
                || self.children[1].operand_well_formed()),
            RuleTag::StrAssign => self.children.len() >= 1,
            RuleTag::FltAssign => self.children.len() >= 1 && (self.children.len() < 2
                || self.children[1].operand_well_formed()),
            RuleTag::ConditionStatement => {
                if self.children.len() >= 1 && self.children[0].children.len() >= 1 {
                    let then_ok = body_well_formed(&self.children[0].children, 1);
                    if self.children.len() >= 2 {
                        let else_ok = body_well_formed(&self.children[1].children, 0);
                        proof {
                            assert(self.children@[1].children@.skip(0)
                                =~= self.children@[1].children@);
                        }
                        then_ok && else_ok
                    } else {
                        then_ok
                    }
                } else {
                    false
                }
            },
            RuleTag::WhileStatement => self.children.len() >= 1 && body_well_formed(
                &self.children,
                1,
            ),
            RuleTag::IoStatement => self.children.len() >= 2 && self.children[1].children.len()
                >= 1,
            RuleTag::PrintStmt => self.children.len() >= 1,
            RuleTag::MainFunc => {
                let b = body_well_formed(&self.children, 0);
                proof {
                    assert(self.children@.skip(0) =~= self.children@);
                }
                b
            },
            _ => true,
        }
    }

    /// Runtime check for [`wf_operand`].
    pub fn operand_well_formed(&self) -> (b: bool)
        ensures
            b == wf_operand(*self),
        decreases *self, 1nat,
    {
        match self.rule {
            RuleTag::Expr => {
                let mut i: usize = 0;
                let mut ok = true;
                while i < self.children.len()
                    invariant
                        0 <= i <= self.children@.len(),
                        ok == ((forall|k: int|
                            0 <= k < i && (#[trigger] self.children@[k]).rule == RuleTag::Power
                                ==> k + 1 < self.children@.len()) && (forall|k: int|
                            0 <= k < i ==> wf_operand(#[trigger] self.children@[k]))),
                    decreases self.children@.len() - i,
                {
                    let child_ok = self.children[i].operand_well_formed();
                    let power_ok = !(self.children[i].rule == RuleTag::Power) || i + 1
                        < self.children.len();
                    ok = ok && child_ok && power_ok;
                    i = i + 1;
                }
                ok
            },
            _ => true,
        }
    }
}

/// Runtime check that every node of `nodes` from position `start` on is
/// well-formed ([`wf_body`] of the suffix).
pub fn body_well_formed(nodes: &Vec<ParseNode>, start: usize) -> (b: bool)
    requires
        start <= nodes@.len(),
    ensures
        b == wf_body(nodes@.skip(start as int)),
    decreases nodes@, 2nat,
{
    let mut i: usize = start;
    let mut ok = true;
    while i < nodes.len()
        invariant
            start <= i <= nodes@.len(),
            ok == (forall|k: int| start <= k < i ==> wf_parse_node(#[trigger] nodes@[k])),
        decreases nodes@.len() - i,
    {
        let this_ok = nodes[i].well_formed();
        ok = ok && this_ok;
        i = i + 1;
    }
    proof {
        if ok {
            assert forall|k: int| 0 <= k < nodes@.skip(start as int).len() implies wf_parse_node(
                #[trigger] nodes@.skip(start as int)[k],
            ) by {
                assert(nodes@.skip(start as int)[k] == nodes@[k + start]);
            }
        } else {
            let k = choose|k: int|
                start <= k < nodes@.len() && !wf_parse_node(#[trigger] nodes@[k]);
            assert(nodes@.skip(start as int)[k - start] == nodes@[k]);
        }
    }
    ok
}

} // verus!
