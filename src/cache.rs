use std::sync::Arc;

use vstd::prelude::*;

use crate::defs::{GenericDef, SourceDb};
use crate::generics::{rank, resolved, GenericParams};

verus! {

/// Tables already computed for the declarations of one snapshot, one slot
/// per declaration.
pub struct ParamsCache {
    entries: Vec<Option<Arc<GenericParams>>>,
}

impl ParamsCache {
    /// There is a slot for each declaration of `db`, and each filled slot
    /// holds that declaration's table.
    pub closed spec fn wf(&self, db: SourceDb) -> bool {
        &&& self.entries@.len() == db.size()
        &&& forall|d: GenericDef|
            db.contains(d) && (#[trigger] self.entries@[db.key_of(d)]) is Some ==> self.entries@[db.key_of(
                d,
            )].unwrap()@ == resolved(db, d)
    }

    /// An empty cache for the declarations of `db`.
    pub fn new(db: &SourceDb) -> (r: ParamsCache)
        requires
            db.wf(),
        ensures
            r.wf(*db),
    {
        let n = db.functions.len() + db.structs.len() + db.enums.len() + db.traits.len()
            + db.type_aliases.len() + db.impl_blocks.len();
        let mut entries: Vec<Option<Arc<GenericParams>>> = Vec::new();
        let mut i: usize = 0;
        while i < n
            invariant
                i <= n,
                entries@.len() == i,
                forall|k: int| 0 <= k < i ==> (#[trigger] entries@[k]) is None,
            decreases n - i,
        {
            entries.push(None);
            i = i + 1;
        }
        ParamsCache { entries }
    }

    /// The table of `def`: the one stored for it, or else a new one, which
    /// is then stored.
    pub fn generic_params(&mut self, db: &SourceDb, def: GenericDef) -> (r: Arc<GenericParams>)
        requires
            db.wf(),
            db.contains(def),
            old(self).wf(*db),
            resolved(*db, def).count() <= u32::MAX,
        ensures
            final(self).wf(*db),
            r@ == resolved(*db, def),
        decreases rank(def), 1nat,
    {
        let k = db.key(def);
        match &self.entries[k] {
            Some(p) => {
                return p.clone();
            },
            None => {},
        }
        let p = GenericParams::generic_params_query(db, self, def);
        let ghost before = self.entries@;
        self.entries.set(k, Some(p.clone()));
        assert forall|d: GenericDef|
            db.contains(d) && (#[trigger] self.entries@[db.key_of(d)]) is Some implies self.entries@[db.key_of(
                d,
            )].unwrap()@ == resolved(*db, d) by {
            if db.key_of(d) == k {
                crate::defs::lemma_key_injective(db, d, def);
            } else {
                assert(self.entries@[db.key_of(d)] == before[db.key_of(d)]);
            }
        }
        p
    }
}

} // verus!
