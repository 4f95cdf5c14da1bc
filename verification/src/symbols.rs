//! The symbol table: one flat mapping from variable name to declared
//! type, for the whole program.  It only ever grows; no block exit
//! releases a name.

use vstd::prelude::*;
use crate::ast::{AstErrV, VarType};

verus! {

struct SymEntry {
    name: String,
    ty: VarType,
}

/// The symbol table.  Its view is the mapping from declared name to
/// declared type.
pub struct SymbolTable {
    entries: Vec<SymEntry>,
}

spec fn sym_map(s: Seq<SymEntry>) -> Map<Seq<char>, VarType>
    decreases s,
{
    if s.len() == 0 {
        Map::empty()
    } else {
        sym_map(s.drop_last()).insert(s.last().name@, s.last().ty)
    }
}

impl View for SymbolTable {
    type V = Map<Seq<char>, VarType>;

    closed spec fn view(&self) -> Map<Seq<char>, VarType> {
        sym_map(self.entries@)
    }
}

/// The table `m2` holds every entry of `m1`, unchanged.  Building never
/// removes or overwrites a declaration, so every table a build step
/// produces extends the one it started from.
pub open spec fn table_extends(m1: Map<Seq<char>, VarType>, m2: Map<Seq<char>, VarType>) -> bool {
    forall|k: Seq<char>|
        #[trigger] m1.contains_key(k) ==> m2.contains_key(k) && m2[k] == m1[k]
}

pub proof fn lemma_extends_trans(
    a: Map<Seq<char>, VarType>,
    b: Map<Seq<char>, VarType>,
    c: Map<Seq<char>, VarType>,
)
    requires
        table_extends(a, b),
        table_extends(b, c),
    ensures
        table_extends(a, c),
{
    assert forall|k: Seq<char>| #[trigger] a.contains_key(k) implies c.contains_key(k) && c[k]
        == a[k] by {
        assert(b.contains_key(k));
    }
}

/// What declaring a name does to the table: a second declaration of the
/// same name fails, whatever the types and whichever came first.
pub open spec fn declare_spec(st: Map<Seq<char>, VarType>, ident: Seq<char>, t: VarType) -> Result<
    Map<Seq<char>, VarType>,
    AstErrV,
> {
    if st.contains_key(ident) {
        Result::Err(AstErrV::DuplicateDeclaration(ident))
    } else {
        Result::Ok(st.insert(ident, t))
    }
}

/// What validating an assignment does: the name must have been declared,
/// with the very type that is now assigned.  The table never changes.
pub open spec fn check_assign_spec(
    st: Map<Seq<char>, VarType>,
    ident: Seq<char>,
    t: VarType,
) -> Result<(), AstErrV> {
    if !st.contains_key(ident) {
        Result::Err(AstErrV::UndeclaredVariable(ident))
    } else if st[ident] != t {
        Result::Err(
            AstErrV::TypeMismatch { ident, expected: st[ident], actual: t },
        )
    } else {
        Result::Ok(())
    }
}

proof fn lemma_sym_map_contains(s: Seq<SymEntry>, k: Seq<char>)
    ensures
        sym_map(s).contains_key(k) <==> exists|i: int| 0 <= i < s.len() && (#[trigger] s[i]).name@
            == k,
    decreases s,
{
    if s.len() > 0 {
        lemma_sym_map_contains(s.drop_last(), k);
        if s.last().name@ == k {
            assert(s[s.len() - 1].name@ == k);
        } else if sym_map(s).contains_key(k) {
            let i = choose|i: int| 0 <= i < s.drop_last().len() && (#[trigger] s.drop_last()[i]).name@
                == k;
            assert(s[i].name@ == k);
        } else {
            assert forall|i: int| 0 <= i < s.len() implies (#[trigger] s[i]).name@ != k by {
                if i < s.len() - 1 {
                    assert(s.drop_last()[i] == s[i]);
                }
            }
        }
    }
}

proof fn lemma_sym_map_at(s: Seq<SymEntry>, i: int)
    requires
        0 <= i < s.len(),
        forall|p: int, q: int|
            0 <= p < q < s.len() ==> (#[trigger] s[p]).name@ != (#[trigger] s[q]).name@,
    ensures
        sym_map(s).contains_key(s[i].name@),
        sym_map(s)[s[i].name@] == s[i].ty,
    decreases s,
{
    if i == s.len() - 1 {
    } else {
        assert(s.drop_last()[i] == s[i]);
        lemma_sym_map_at(s.drop_last(), i);
        assert(s[i].name@ != s[s.len() - 1].name@);
    }
}

impl SymbolTable {
    /// The names in the table are pairwise distinct.
    spec fn unique(&self) -> bool {
        forall|p: int, q: int|
            0 <= p < q < self.entries@.len() ==> (#[trigger] self.entries@[p]).name@ != (
            #[trigger] self.entries@[q]).name@
    }

    /// Well-formedness: established by [`SymbolTable::new`] and preserved
    /// by every operation.
    pub closed spec fn inv(&self) -> bool {
        self.unique()
    }

    /// A fresh, empty table.  Each translation of one program gets its
    /// own; no state is retained between translations.
    pub fn new() -> (r: SymbolTable)
        ensures
            r.inv(),
            r@ == Map::<Seq<char>, VarType>::empty(),
    {
        SymbolTable { entries: Vec::new() }
    }

    /// The declared type of `ident`, if `ident` was declared.
    pub fn find(&self, ident: &String) -> (r: Option<VarType>)
        requires
            self.inv(),
        ensures
            match r {
                Option::Some(t) => self@.contains_key(ident@) && self@[ident@] == t,
                Option::None => !self@.contains_key(ident@),
            },
    {
        let mut i: usize = 0;
        while i < self.entries.len()
            invariant
                self.inv(),
                0 <= i <= self.entries@.len(),
                forall|k: int| 0 <= k < i ==> (#[trigger] self.entries@[k]).name@ != ident@,
            decreases self.entries@.len() - i,
        {
            if self.entries[i].name == *ident {
                proof {
                    lemma_sym_map_at(self.entries@, i as int);
                }
                return Option::Some(self.entries[i].ty);
            }
            i = i + 1;
        }
        proof {
            lemma_sym_map_contains(self.entries@, ident@);
        }
        Option::None
    }

    /// Declares `ident` with type `t`, as [`declare_spec`] says: an error
    /// if and only if `ident` is already present, otherwise the table
    /// grows by the one new entry.
    pub fn declare(&mut self, ident: &String, t: VarType) -> (r: Result<(), crate::ast::AstError>)
        requires
            old(self).inv(),
        ensures
            final(self).inv(),
            match declare_spec(old(self)@, ident@, t) {
                Result::Ok(m) => r is Ok && final(self)@ == m,
                Result::Err(e) => r matches Err(ae) && ae@ == e && final(self)@ == old(self)@,
            },
    {
        match self.find(ident) {
            Option::Some(_) => Result::Err(
                crate::ast::AstError::DuplicateDeclaration(ident.clone()),
            ),
            Option::None => {
                proof {
                    lemma_sym_map_contains(self.entries@, ident@);
                }
                self.entries.push(SymEntry { name: ident.clone(), ty: t });
                proof {
                    assert(self.entries@.drop_last() =~= old(self).entries@);
                }
                Result::Ok(())
            },
        }
    }
}

} // verus!
