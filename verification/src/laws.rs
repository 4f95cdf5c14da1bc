//! Laws of the translator, stated and proved over the mathematical
//! models: when building succeeds, what the semantic errors are, and that
//! every tree the builder produces can be rendered.

use vstd::prelude::*;
use crate::ast::{AstErrV, AstNodeV, VarType};
use crate::ast_parser::{
    SymMap, build_body_spec, build_node_spec, normalize_children, normalize_value,
};
use crate::c_parser::{emit_node, emit_nodes};
use crate::parse_tree::{ParseNode, RuleTag, wf_body, wf_parse_node};
use crate::symbols::declare_spec;

verus! {

/// The symbol table after one statement: declarations insert their name,
/// control constructs thread the table through their bodies (one flat
/// namespace: nothing nested releases a name), everything else leaves it
/// unchanged.
pub open spec fn decls_node(st: SymMap, n: ParseNode) -> SymMap
    decreases n, 0nat,
{
    match n.rule {
        RuleTag::StrDecl => st.insert(n.children@[0].text@, VarType::CString),
        RuleTag::FltDecl => st.insert(n.children@[0].text@, VarType::Float),
        RuleTag::ConditionStatement => {
            if n.children@.len() >= 1 && n.children@[0].children@.len() >= 1 {
                let st2 = decls_body(st, n.children@[0].children@.skip(1));
                if n.children@.len() >= 2 {
                    decls_body(st2, n.children@[1].children@)
                } else {
                    st2
                }
            } else {
                st
            }
        },
        RuleTag::WhileStatement => {
            if n.children@.len() >= 1 {
                decls_body(st, n.children@.skip(1))
            } else {
                st
            }
        },
        RuleTag::MainFunc => decls_body(st, n.children@),
        _ => st,
    }
}

/// The symbol table after a statement sequence.
pub open spec fn decls_body(st: SymMap, ns: Seq<ParseNode>) -> SymMap
    decreases ns, 1nat,
{
    if ns.len() == 0 {
        st
    } else {
        decls_body(decls_node(st, ns[0]), ns.skip(1))
    }
}

/// Semantic validity of one statement against the table of the names
/// declared so far: no name declared twice, every assignment to a
/// declared name of the assigned type and carrying a value, every float
/// literal readable, every power operator based, every rule tag known.
pub open spec fn clean_node(st: SymMap, n: ParseNode) -> bool
    decreases n, 0nat,
{
    match n.rule {
        RuleTag::StrDecl => n.children@.len() >= 1 && !st.contains_key(n.children@[0].text@),
        RuleTag::FltDecl => n.children@.len() >= 1 && !st.contains_key(n.children@[0].text@) && (
        n.children@.len() >= 2 ==> normalize_value(n.children@[1]) is Ok),
        RuleTag::StrAssign => n.children@.len() >= 2 && st.contains_key(n.children@[0].text@)
            && st[n.children@[0].text@] == VarType::CString,
        RuleTag::FltAssign => n.children@.len() >= 2 && st.contains_key(n.children@[0].text@)
            && st[n.children@[0].text@] == VarType::Float && normalize_value(n.children@[1]) is Ok,
        RuleTag::ConditionStatement => n.children@.len() >= 1 && n.children@[0].children@.len()
            >= 1 && clean_body(st, n.children@[0].children@.skip(1)) && (n.children@.len() >= 2
            ==> clean_body(
            decls_body(st, n.children@[0].children@.skip(1)),
            n.children@[1].children@,
        )),
        RuleTag::WhileStatement => n.children@.len() >= 1 && clean_body(st, n.children@.skip(1)),
        RuleTag::IoStatement => n.children@.len() >= 1 && (n.children@[0].rule
            == RuleTag::ReadStringStmt || n.children@[0].rule == RuleTag::ReadNumStmt
            || n.children@[0].rule == RuleTag::PrintStringStmt || n.children@[0].rule
            == RuleTag::PrintNumStmt),
        RuleTag::PrintStmt => true,
        RuleTag::MainFunc => clean_body(st, n.children@),
        _ => false,
    }
}

/// Semantic validity of a statement sequence, each statement judged
/// against the table its predecessors leave behind.
pub open spec fn clean_body(st: SymMap, ns: Seq<ParseNode>) -> bool
    decreases ns, 1nat,
{
    if ns.len() == 0 {
        true
    } else {
        clean_node(st, ns[0]) && clean_body(decls_node(st, ns[0]), ns.skip(1))
    }
}

/// Law: a well-formed statement that is semantically valid against `st`
/// builds successfully, and leaves exactly the table [`decls_node`]
/// describes.
pub proof fn lemma_build_succeeds(st: SymMap, n: ParseNode)
    requires
        wf_parse_node(n),
        clean_node(st, n),
    ensures
        build_node_spec(st, n) matches Ok(p) && p.1 == decls_node(st, n),
    decreases n, 0nat,
{
    match n.rule {
        RuleTag::ConditionStatement => {
            let if_body = n.children@[0].children@.skip(1);
            lemma_build_body_succeeds(st, if_body);
            if n.children@.len() >= 2 {
                lemma_build_body_succeeds(decls_body(st, if_body), n.children@[1].children@);
            }
        },
        RuleTag::WhileStatement => {
            lemma_build_body_succeeds(st, n.children@.skip(1));
        },
        RuleTag::MainFunc => {
            lemma_build_body_succeeds(st, n.children@);
        },
        _ => {},
    }
}

/// Law: a well-formed, semantically valid statement sequence builds
/// successfully, and leaves exactly the table [`decls_body`] describes.
pub proof fn lemma_build_body_succeeds(st: SymMap, ns: Seq<ParseNode>)
    requires
        wf_body(ns),
        clean_body(st, ns),
    ensures
        build_body_spec(st, ns) matches Ok(p) && p.1 == decls_body(st, ns),
    decreases ns, 1nat,
{
    if ns.len() > 0 {
        assert(wf_parse_node(ns[0]));
        lemma_build_succeeds(st, ns[0]);
        assert(wf_body(ns.skip(1))) by {
            assert forall|k: int| 0 <= k < ns.skip(1).len() implies wf_parse_node(
                #[trigger] ns.skip(1)[k],
            ) by {
                assert(ns.skip(1)[k] == ns[k + 1]);
            }
        }
        lemma_build_body_succeeds(decls_node(st, ns[0]), ns.skip(1));
    }
}

/// Law: every tree the builder produces renders without error: the
/// builder never constructs an assignment without a value, which is the
/// only failure the emitter knows.
pub proof fn lemma_emit_total(st: SymMap, n: ParseNode)
    ensures
        build_node_spec(st, n) matches Ok(p) ==> emit_node(p.0) is Ok,
    decreases n, 0nat,
{
    match n.rule {
        RuleTag::ConditionStatement => {
            if n.children@.len() >= 1 && n.children@[0].children@.len() >= 1 {
                let if_body = n.children@[0].children@.skip(1);
                lemma_emit_body_total(st, if_body);
                if let Result::Ok(p) = build_body_spec(st, if_body) {
                    if n.children@.len() >= 2 {
                        lemma_emit_body_total(p.1, n.children@[1].children@);
                    }
                }
            }
        },
        RuleTag::WhileStatement => {
            if n.children@.len() >= 1 {
                lemma_emit_body_total(st, n.children@.skip(1));
            }
        },
        RuleTag::MainFunc => {
            lemma_emit_body_total(st, n.children@);
        },
        _ => {},
    }
}

/// Law: every statement sequence the builder produces renders without
/// error.
pub proof fn lemma_emit_body_total(st: SymMap, ns: Seq<ParseNode>)
    ensures
        build_body_spec(st, ns) matches Ok(p) ==> emit_nodes(p.0) is Ok,
    decreases ns, 1nat,
{
    if ns.len() > 0 {
        lemma_emit_total(st, ns[0]);
        if let Result::Ok(q) = build_node_spec(st, ns[0]) {
            lemma_emit_body_total(q.1, ns.skip(1));
            if let Result::Ok(rest) = build_body_spec(q.1, ns.skip(1)) {
                let whole = seq![q.0] + rest.0;
                assert(whole[0] == q.0);
                assert(whole.skip(1) =~= rest.0);
            }
        }
    }
}

/// Law: a well-formed program whose declarations never repeat a name and
/// whose assignments all follow a matching declaration (that is,
/// [`clean_body`] from the empty table) builds successfully, and the
/// emitter renders the built tree without error.
pub proof fn lemma_translation_succeeds(ns: Seq<ParseNode>)
    requires
        wf_body(ns),
        clean_body(Map::empty(), ns),
    ensures
        build_body_spec(Map::empty(), ns) matches Ok(p) && emit_nodes(p.0) is Ok,
{
    lemma_build_body_succeeds(Map::empty(), ns);
    lemma_emit_body_total(Map::empty(), ns);
}

/// Law: translation is deterministic.  Building and emission are spec
/// functions of the parse tree alone (and the executable functions
/// return exactly their value), so the same tree always yields the same
/// table, the same AST and byte-identical output text.
pub proof fn lemma_translation_deterministic(a: Seq<ParseNode>, b: Seq<ParseNode>)
    requires
        a == b,
    ensures
        build_body_spec(Map::empty(), a) == build_body_spec(Map::empty(), b),
        (build_body_spec(Map::empty(), a) matches Ok(p) ==> (build_body_spec(Map::empty(), b)
            matches Ok(q) && emit_nodes(p.0) == emit_nodes(q.0))),
{
}

/// Law: declaring a name twice, with any types and in any order, always
/// fails with `DuplicateDeclaration` of that name.
pub proof fn lemma_duplicate_declaration(st: SymMap, ident: Seq<char>, t1: VarType, t2: VarType)
    ensures
        declare_spec(st, ident, t1) matches Ok(st2) ==> declare_spec(st2, ident, t2)
            == Result::<SymMap, AstErrV>::Err(AstErrV::DuplicateDeclaration(ident)),
{
}

/// Law: a declaration statement for a name already in the table fails
/// with `DuplicateDeclaration` of that name, whatever the old and the new
/// types, provided its initial value (if any) raises no earlier error.
pub proof fn lemma_declared_twice_node(st: SymMap, n: ParseNode)
    requires
        n.rule == RuleTag::StrDecl || n.rule == RuleTag::FltDecl,
        n.children@.len() >= 1,
        st.contains_key(n.children@[0].text@),
        n.rule == RuleTag::FltDecl && n.children@.len() >= 2 ==> normalize_value(n.children@[1])
            is Ok,
    ensures
        build_node_spec(st, n) == Result::<(AstNodeV, SymMap), AstErrV>::Err(
            AstErrV::DuplicateDeclaration(n.children@[0].text@),
        ),
{
}

/// Law: an assignment to a name that was never declared fails with
/// `UndeclaredVariable` of that name, whether or not a value follows.
pub proof fn lemma_undeclared_assignment(st: SymMap, n: ParseNode)
    requires
        n.rule == RuleTag::StrAssign || n.rule == RuleTag::FltAssign,
        n.children@.len() >= 1,
        !st.contains_key(n.children@[0].text@),
    ensures
        build_node_spec(st, n) == Result::<(AstNodeV, SymMap), AstErrV>::Err(
            AstErrV::UndeclaredVariable(n.children@[0].text@),
        ),
{
}

/// Law: an assignment whose value type differs from the declared type of
/// its target fails with `TypeMismatch`, naming the target, the declared
/// type and the assigned type.
pub proof fn lemma_type_mismatch(st: SymMap, n: ParseNode)
    requires
        n.rule == RuleTag::StrAssign || n.rule == RuleTag::FltAssign,
        n.children@.len() >= 1,
        st.contains_key(n.children@[0].text@),
        st[n.children@[0].text@] != (if n.rule == RuleTag::StrAssign {
            VarType::CString
        } else {
            VarType::Float
        }),
    ensures
        build_node_spec(st, n) == Result::<(AstNodeV, SymMap), AstErrV>::Err(
            AstErrV::TypeMismatch {
                ident: n.children@[0].text@,
                expected: st[n.children@[0].text@],
                actual: if n.rule == RuleTag::StrAssign {
                    VarType::CString
                } else {
                    VarType::Float
                },
            },
        ),
{
}

/// Law: a power operator whose sequence holds no preceding operand term
/// fails with `PowerMissingBase` (either nothing at all precedes it, or
/// what precedes it is not a plain term), and the emitter never sees a
/// malformed power entry: the error aborts the build.
pub proof fn lemma_power_missing_base(ns: Seq<ParseNode>, acc: Seq<crate::ast::ExprV>)
    requires
        ns.len() >= 1,
        ns[0].rule == RuleTag::Power,
        acc.len() == 0 || (ns.len() >= 2 && normalize_value(ns[1]) is Ok && !(acc.last()
            is Term)),
    ensures
        normalize_children(ns, acc) == Result::<Seq<crate::ast::ExprV>, AstErrV>::Err(
            AstErrV::PowerMissingBase,
        ),
{
}

/// Law: an expression whose first entry is a power operator fails with
/// `PowerMissingBase`: there is no preceding term at all.
pub proof fn lemma_power_first_is_base_error(n: ParseNode)
    requires
        n.rule == RuleTag::Expr,
        n.children@.len() >= 1,
        n.children@[0].rule == RuleTag::Power,
    ensures
        normalize_value(n) == Result::<crate::ast::ValueTypeV, AstErrV>::Err(
            AstErrV::PowerMissingBase,
        ),
{
}

} // verus!
