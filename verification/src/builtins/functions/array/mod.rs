use vstd::prelude::*;

use crate::builtins::{BuiltinFunction, FunctionEntry};

mod constructors;
mod core_items;
mod mutation;
mod ordering;
mod search;
mod slice;
mod stats;

verus! {

/// The entries of all groups, in order.
pub open spec fn entries() -> Seq<FunctionEntry> {
    core_items::entries()
        + constructors::entries()
        + mutation::entries()
        + slice::entries()
        + ordering::entries()
        + search::entries()
        + stats::entries()
}

pub fn list() -> (r: Vec<BuiltinFunction>)
    ensures
        r@.map_values(|f: BuiltinFunction| f.model()) == entries(),
{
    let mut all: Vec<BuiltinFunction> = Vec::new();
    let mut part = core_items::list();
    proof {
        let before = all@;
        assert((before + part@).map_values(|f: BuiltinFunction| f.model()) =~= before.map_values(|f: BuiltinFunction| f.model()) + part@.map_values(|f: BuiltinFunction| f.model()));
    }
    all.append(&mut part);
    let mut part = constructors::list();
    proof {
        let before = all@;
        assert((before + part@).map_values(|f: BuiltinFunction| f.model()) =~= before.map_values(|f: BuiltinFunction| f.model()) + part@.map_values(|f: BuiltinFunction| f.model()));
    }
    all.append(&mut part);
    let mut part = mutation::list();
    proof {
        let before = all@;
        assert((before + part@).map_values(|f: BuiltinFunction| f.model()) =~= before.map_values(|f: BuiltinFunction| f.model()) + part@.map_values(|f: BuiltinFunction| f.model()));
    }
    all.append(&mut part);
    let mut part = slice::list();
    proof {
        let before = all@;
        assert((before + part@).map_values(|f: BuiltinFunction| f.model()) =~= before.map_values(|f: BuiltinFunction| f.model()) + part@.map_values(|f: BuiltinFunction| f.model()));
    }
    all.append(&mut part);
    let mut part = ordering::list();
    proof {
        let before = all@;
        assert((before + part@).map_values(|f: BuiltinFunction| f.model()) =~= before.map_values(|f: BuiltinFunction| f.model()) + part@.map_values(|f: BuiltinFunction| f.model()));
    }
    all.append(&mut part);
    let mut part = search::list();
    proof {
        let before = all@;
        assert((before + part@).map_values(|f: BuiltinFunction| f.model()) =~= before.map_values(|f: BuiltinFunction| f.model()) + part@.map_values(|f: BuiltinFunction| f.model()));
    }
    all.append(&mut part);
    let mut part = stats::list();
    proof {
        let before = all@;
        assert((before + part@).map_values(|f: BuiltinFunction| f.model()) =~= before.map_values(|f: BuiltinFunction| f.model()) + part@.map_values(|f: BuiltinFunction| f.model()));
    }
    all.append(&mut part);
    assert(all@.map_values(|f: BuiltinFunction| f.model()) =~= entries());
    all
}

} // verus!
