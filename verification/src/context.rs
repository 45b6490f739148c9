//! Naming: allocation of unique SQL aliases and resolution of column
//! references, scoped to one translation.

use vstd::prelude::*;
use crate::error::TranslationError;
use crate::sql::{ident_same, SqlIdent};

verus! {

/// A pool of names already in use within one SQL scope. `declare` hands out
/// a name that collides with none of them: the preferred base when it is
/// still free, else the base with a numeric suffix tied to the pool's size,
/// which no earlier name can carry.
pub struct NamePool {
    pub used: Vec<SqlIdent>,
}

impl NamePool {
    /// All handed-out names are pairwise distinct, and every suffixed name
    /// carries its own position plus one as the suffix.
    pub open spec fn wf(self) -> bool {
        &&& forall|i: int, j: int|
            0 <= i < j < self.used@.len() ==> !ident_same(self.used@[i], self.used@[j])
        &&& forall|i: int|
            0 <= i < self.used@.len() ==> (self.used@[i].n == 0 || self.used@[i].n == i + 1)
    }

    /// An empty pool.
    pub fn new() -> (r: NamePool)
        ensures
            r.wf(),
            r.used@.len() == 0,
    {
        NamePool { used: Vec::new() }
    }

    /// Whether some unsuffixed name in the pool has this base.
    fn base_taken(&self, base: &String) -> (r: bool)
        ensures
            r == exists|i: int|
                0 <= i < self.used@.len() && self.used@[i].n == 0 && self.used@[i].base@
                    == base@,
    {
        let mut k: usize = 0;
        while k < self.used.len()
            invariant
                k <= self.used@.len(),
                forall|i: int| 0 <= i < k ==> !(self.used@[i].n == 0 && self.used@[i].base@ == base@),
            decreases self.used@.len() - k,
        {
            if self.used[k].n == 0 && self.used[k].base == *base {
                return true;
            }
            k = k + 1;
        }
        false
    }

    /// Allocates a name with the given base that no name in the pool
    /// carries, and records it.
    pub fn declare(&mut self, base: &String) -> (r: SqlIdent)
        requires
            old(self).wf(),
        ensures
            final(self).wf(),
            final(self).used@ == old(self).used@.push(r),
            r.base@ == base@,
            forall|i: int| 0 <= i < old(self).used@.len() ==> !ident_same(r, old(self).used@[i]),
    {
        let l = self.used.len();
        if !self.base_taken(base) {
            let r = SqlIdent { base: base.clone(), n: 0 };
            let ghost pre = self.used@;
            self.used.push(SqlIdent { base: base.clone(), n: 0 });
            proof {
                assert forall|i: int, j: int|
                    0 <= i < j < self.used@.len() implies !ident_same(
                    self.used@[i],
                    self.used@[j],
                ) by {
                    if j == pre.len() {
                        assert(self.used@[i] == pre[i]);
                    }
                }
            }
            r
        } else if l == usize::MAX {
            // One more name would exceed the vector bound; the state is
            // contradictory, as the pool is about to grow past it.
            self.used.push(SqlIdent { base: base.clone(), n: 0 });
            let l2 = self.used.len();
            proof {
                assert(false);
            }
            SqlIdent { base: String::new(), n: 0 }
        } else {
            let n: u64 = ((l + 1) as u64);
            let r = SqlIdent { base: base.clone(), n };
            let ghost pre = self.used@;
            self.used.push(SqlIdent { base: base.clone(), n });
            proof {
                assert forall|i: int, j: int|
                    0 <= i < j < self.used@.len() implies !ident_same(
                    self.used@[i],
                    self.used@[j],
                ) by {
                    if j == pre.len() {
                        assert(self.used@[i] == pre[i]);
                        assert(pre[i].n == 0 || pre[i].n == i + 1);
                    }
                }
            }
            r
        }
    }
}

/// One visible column: its opaque identity, the alias of the relation that
/// carries it, and its column alias there.
pub struct Binding {
    pub cid: u64,
    pub table: SqlIdent,
    pub column: SqlIdent,
}

impl Clone for Binding {
    /// A copy equal to the original.
    fn clone(&self) -> (r: Binding)
        ensures
            r == *self,
    {
        Binding { cid: self.cid, table: self.table.clone(), column: self.column.clone() }
    }
}

/// The columns visible at one point of one stage, in order. A child stage's
/// scope is seeded from its input stage's output bindings.
pub struct Scope {
    pub cols: Vec<Binding>,
}

/// The first visible binding that carries a cid, scanning front to back.
pub open spec fn resolve_spec(cols: Seq<Binding>, cid: u64) -> Option<Binding>
    decreases cols.len(),
{
    if cols.len() == 0 {
        None
    } else if cols[0].cid == cid {
        Some(cols[0])
    } else {
        resolve_spec(cols.drop_first(), cid)
    }
}

impl Scope {
    /// Whether some binding carries this cid.
    pub open spec fn has_cid(self, cid: u64) -> bool {
        resolve_spec(self.cols@, cid) is Some
    }

    /// An empty scope.
    pub fn new() -> (r: Scope)
        ensures
            r.cols@.len() == 0,
    {
        Scope { cols: Vec::new() }
    }

    /// Looks a column reference up: hands back the first visible binding
    /// that carries it, and fails with `UnresolvedReference` when none does.
    pub fn resolve(&self, cid: u64) -> (r: Result<&Binding, TranslationError>)
        ensures
            match r {
                Ok(b) => resolve_spec(self.cols@, cid) == Some(*b),
                Err(e) => {
                    &&& !self.has_cid(cid)
                    &&& e == (TranslationError::UnresolvedReference { cid })
                },
            },
    {
        let mut k: usize = 0;
        proof {
            assert(self.cols@.skip(0) =~= self.cols@);
        }
        while k < self.cols.len()
            invariant
                k <= self.cols@.len(),
                resolve_spec(self.cols@, cid) == resolve_spec(
                    self.cols@.skip(k as int),
                    cid,
                ),
            decreases self.cols@.len() - k,
        {
            proof {
                assert(self.cols@.skip(k as int)[0] == self.cols@[k as int]);
                assert(self.cols@.skip(k as int).drop_first() =~= self.cols@.skip(k + 1));
            }
            if self.cols[k].cid == cid {
                return Ok(&self.cols[k]);
            }
            k = k + 1;
        }
        proof {
            assert(self.cols@.skip(self.cols@.len() as int).len() == 0);
        }
        Err(TranslationError::UnresolvedReference { cid })
    }
}

impl Clone for Scope {
    /// A copy whose bindings are those of the original.
    fn clone(&self) -> (r: Scope)
        ensures
            r.cols@ == self.cols@,
    {
        let mut cols: Vec<Binding> = Vec::new();
        let mut k: usize = 0;
        while k < self.cols.len()
            invariant
                k <= self.cols@.len(),
                cols@ == self.cols@.subrange(0, k as int),
            decreases self.cols@.len() - k,
        {
            cols.push(self.cols[k].clone());
            proof {
                assert(cols@ == self.cols@.subrange(0, k + 1 as int));
            }
            k = k + 1;
        }
        proof {
            assert(cols@ == self.cols@);
        }
        Scope { cols }
    }
}

} // verus!
