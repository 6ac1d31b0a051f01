use vstd::prelude::*;

use crate::builtins::{BuiltinFunction, FunctionEntry};

mod access;
mod create;
mod inspect;
mod row_column;
mod transform;

verus! {

/// The entries of all groups, in order.
pub open spec fn entries() -> Seq<FunctionEntry> {
    create::entries()
        + access::entries()
        + row_column::entries()
        + inspect::entries()
        + transform::entries()
}

pub fn list() -> (r: Vec<BuiltinFunction>)
    ensures
        r@.map_values(|f: BuiltinFunction| f.model()) == entries(),
{
    let mut all: Vec<BuiltinFunction> = Vec::new();
    let mut part = create::list();
    proof {
        let before = all@;
        assert((before + part@).map_values(|f: BuiltinFunction| f.model()) =~= before.map_values(|f: BuiltinFunction| f.model()) + part@.map_values(|f: BuiltinFunction| f.model()));
    }
    all.append(&mut part);
    let mut part = access::list();
    proof {
        let before = all@;
        assert((before + part@).map_values(|f: BuiltinFunction| f.model()) =~= before.map_values(|f: BuiltinFunction| f.model()) + part@.map_values(|f: BuiltinFunction| f.model()));
    }
    all.append(&mut part);
    let mut part = row_column::list();
    proof {
        let before = all@;
        assert((before + part@).map_values(|f: BuiltinFunction| f.model()) =~= before.map_values(|f: BuiltinFunction| f.model()) + part@.map_values(|f: BuiltinFunction| f.model()));
    }
    all.append(&mut part);
    let mut part = inspect::list();
    proof {
        let before = all@;
        assert((before + part@).map_values(|f: BuiltinFunction| f.model()) =~= before.map_values(|f: BuiltinFunction| f.model()) + part@.map_values(|f: BuiltinFunction| f.model()));
    }
    all.append(&mut part);
    let mut part = transform::list();
    proof {
        let before = all@;
        assert((before + part@).map_values(|f: BuiltinFunction| f.model()) =~= before.map_values(|f: BuiltinFunction| f.model()) + part@.map_values(|f: BuiltinFunction| f.model()));
    }
    all.append(&mut part);
    assert(all@.map_values(|f: BuiltinFunction| f.model()) =~= entries());
    all
}

} // verus!
