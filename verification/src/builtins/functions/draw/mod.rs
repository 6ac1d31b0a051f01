use vstd::prelude::*;

use crate::builtins::{BuiltinFunction, FunctionEntry};

mod box_getters;
mod box_setters;
mod core_items;
mod label_getters;
mod label_setters;
mod line_getters;
mod line_setters;
mod linefill;
mod polyline;
mod table;

verus! {

/// The entries of all groups, in order.
pub open spec fn entries() -> Seq<FunctionEntry> {
    core_items::entries()
        + label_setters::entries()
        + label_getters::entries()
        + line_setters::entries()
        + line_getters::entries()
        + box_setters::entries()
        + box_getters::entries()
        + table::entries()
        + polyline::entries()
        + linefill::entries()
}

pub fn list() -> (r: Vec<BuiltinFunction>)
    ensures
        r@.map_values(|f: BuiltinFunction| f.model()) == entries(),
{
    let mut all: Vec<BuiltinFunction> = Vec::new();
    let mut part = core_items::list();
    proof {
        let before = all@;
        assert((before + part@).map_values(|f: BuiltinFunction| f.model()) =~= before.map_values(|f: BuiltinFunction| f.model()) + part@.map_values(|f: BuiltinFunction| f.model()));
    }
    all.append(&mut part);
    let mut part = label_setters::list();
    proof {
        let before = all@;
        assert((before + part@).map_values(|f: BuiltinFunction| f.model()) =~= before.map_values(|f: BuiltinFunction| f.model()) + part@.map_values(|f: BuiltinFunction| f.model()));
    }
    all.append(&mut part);
    let mut part = label_getters::list();
    proof {
        let before = all@;
        assert((before + part@).map_values(|f: BuiltinFunction| f.model()) =~= before.map_values(|f: BuiltinFunction| f.model()) + part@.map_values(|f: BuiltinFunction| f.model()));
    }
    all.append(&mut part);
    let mut part = line_setters::list();
    proof {
        let before = all@;
        assert((before + part@).map_values(|f: BuiltinFunction| f.model()) =~= before.map_values(|f: BuiltinFunction| f.model()) + part@.map_values(|f: BuiltinFunction| f.model()));
    }
    all.append(&mut part);
    let mut part = line_getters::list();
    proof {
        let before = all@;
        assert((before + part@).map_values(|f: BuiltinFunction| f.model()) =~= before.map_values(|f: BuiltinFunction| f.model()) + part@.map_values(|f: BuiltinFunction| f.model()));
    }
    all.append(&mut part);
    let mut part = box_setters::list();
    proof {
        let before = all@;
        assert((before + part@).map_values(|f: BuiltinFunction| f.model()) =~= before.map_values(|f: BuiltinFunction| f.model()) + part@.map_values(|f: BuiltinFunction| f.model()));
    }
    all.append(&mut part);
    let mut part = box_getters::list();
    proof {
        let before = all@;
        assert((before + part@).map_values(|f: BuiltinFunction| f.model()) =~= before.map_values(|f: BuiltinFunction| f.model()) + part@.map_values(|f: BuiltinFunction| f.model()));
    }
    all.append(&mut part);
    let mut part = table::list();
    proof {
        let before = all@;
        assert((before + part@).map_values(|f: BuiltinFunction| f.model()) =~= before.map_values(|f: BuiltinFunction| f.model()) + part@.map_values(|f: BuiltinFunction| f.model()));
    }
    all.append(&mut part);
    let mut part = polyline::list();
    proof {
        let before = all@;
        assert((before + part@).map_values(|f: BuiltinFunction| f.model()) =~= before.map_values(|f: BuiltinFunction| f.model()) + part@.map_values(|f: BuiltinFunction| f.model()));
    }
    all.append(&mut part);
    let mut part = linefill::list();
    proof {
        let before = all@;
        assert((before + part@).map_values(|f: BuiltinFunction| f.model()) =~= before.map_values(|f: BuiltinFunction| f.model()) + part@.map_values(|f: BuiltinFunction| f.model()));
    }
    all.append(&mut part);
    assert(all@.map_values(|f: BuiltinFunction| f.model()) =~= entries());
    all
}

} // verus!
