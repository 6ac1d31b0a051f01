use vstd::prelude::*;

use crate::builtins::{BuiltinFunction, FunctionEntry};

pub mod array;
pub mod chart;
pub mod color;
pub mod compat;
pub mod core_items;
pub mod draw;
pub mod input;
pub mod map;
pub mod math;
pub mod matrix;
pub mod request;
pub mod runtime;
pub mod strategy;
pub mod string;
pub mod ta;
pub mod timeframe;

verus! {

/// The entries of all groups, in order.
pub open spec fn entries() -> Seq<FunctionEntry> {
    core_items::entries()
        + chart::entries()
        + ta::entries()
        + timeframe::entries()
        + math::entries()
        + string::entries()
        + array::entries()
        + map::entries()
        + matrix::entries()
        + draw::entries()
        + color::entries()
        + runtime::entries()
        + strategy::entries()
        + input::entries()
        + request::entries()
        + compat::entries()
}

/// Every built-in function, group after group.
pub fn builtin_functions() -> (r: Vec<BuiltinFunction>)
    ensures
        r@.map_values(|f: BuiltinFunction| f.model()) == entries(),
{
    let mut all: Vec<BuiltinFunction> = Vec::new();
    let mut part = core_items::list();
    proof {
        let before = all@;
        assert((before + part@).map_values(|f: BuiltinFunction| f.model()) =~= before.map_values(|f: BuiltinFunction| f.model()) + part@.map_values(|f: BuiltinFunction| f.model()));
    }
    all.append(&mut part);
    let mut part = chart::list();
    proof {
        let before = all@;
        assert((before + part@).map_values(|f: BuiltinFunction| f.model()) =~= before.map_values(|f: BuiltinFunction| f.model()) + part@.map_values(|f: BuiltinFunction| f.model()));
    }
    all.append(&mut part);
    let mut part = ta::list();
    proof {
        let before = all@;
        assert((before + part@).map_values(|f: BuiltinFunction| f.model()) =~= before.map_values(|f: BuiltinFunction| f.model()) + part@.map_values(|f: BuiltinFunction| f.model()));
    }
    all.append(&mut part);
    let mut part = timeframe::list();
    proof {
        let before = all@;
        assert((before + part@).map_values(|f: BuiltinFunction| f.model()) =~= before.map_values(|f: BuiltinFunction| f.model()) + part@.map_values(|f: BuiltinFunction| f.model()));
    }
    all.append(&mut part);
    let mut part = math::list();
    proof {
        let before = all@;
        assert((before + part@).map_values(|f: BuiltinFunction| f.model()) =~= before.map_values(|f: BuiltinFunction| f.model()) + part@.map_values(|f: BuiltinFunction| f.model()));
    }
    all.append(&mut part);
    let mut part = string::list();
    proof {
        let before = all@;
        assert((before + part@).map_values(|f: BuiltinFunction| f.model()) =~= before.map_values(|f: BuiltinFunction| f.model()) + part@.map_values(|f: BuiltinFunction| f.model()));
    }
    all.append(&mut part);
    let mut part = array::list();
    proof {
        let before = all@;
        assert((before + part@).map_values(|f: BuiltinFunction| f.model()) =~= before.map_values(|f: BuiltinFunction| f.model()) + part@.map_values(|f: BuiltinFunction| f.model()));
    }
    all.append(&mut part);
    let mut part = map::list();
    proof {
        let before = all@;
        assert((before + part@).map_values(|f: BuiltinFunction| f.model()) =~= before.map_values(|f: BuiltinFunction| f.model()) + part@.map_values(|f: BuiltinFunction| f.model()));
    }
    all.append(&mut part);
    let mut part = matrix::list();
    proof {
        let before = all@;
        assert((before + part@).map_values(|f: BuiltinFunction| f.model()) =~= before.map_values(|f: BuiltinFunction| f.model()) + part@.map_values(|f: BuiltinFunction| f.model()));
    }
    all.append(&mut part);
    let mut part = draw::list();
    proof {
        let before = all@;
        assert((before + part@).map_values(|f: BuiltinFunction| f.model()) =~= before.map_values(|f: BuiltinFunction| f.model()) + part@.map_values(|f: BuiltinFunction| f.model()));
    }
    all.append(&mut part);
    let mut part = color::list();
    proof {
        let before = all@;
        assert((before + part@).map_values(|f: BuiltinFunction| f.model()) =~= before.map_values(|f: BuiltinFunction| f.model()) + part@.map_values(|f: BuiltinFunction| f.model()));
    }
    all.append(&mut part);
    let mut part = runtime::list();
    proof {
        let before = all@;
        assert((before + part@).map_values(|f: BuiltinFunction| f.model()) =~= before.map_values(|f: BuiltinFunction| f.model()) + part@.map_values(|f: BuiltinFunction| f.model()));
    }
    all.append(&mut part);
    let mut part = strategy::list();
    proof {
        let before = all@;
        assert((before + part@).map_values(|f: BuiltinFunction| f.model()) =~= before.map_values(|f: BuiltinFunction| f.model()) + part@.map_values(|f: BuiltinFunction| f.model()));
    }
    all.append(&mut part);
    let mut part = input::list();
    proof {
        let before = all@;
        assert((before + part@).map_values(|f: BuiltinFunction| f.model()) =~= before.map_values(|f: BuiltinFunction| f.model()) + part@.map_values(|f: BuiltinFunction| f.model()));
    }
    all.append(&mut part);
    let mut part = request::list();
    proof {
        let before = all@;
        assert((before + part@).map_values(|f: BuiltinFunction| f.model()) =~= before.map_values(|f: BuiltinFunction| f.model()) + part@.map_values(|f: BuiltinFunction| f.model()));
    }
    all.append(&mut part);
    let mut part = compat::list();
    proof {
        let before = all@;
        assert((before + part@).map_values(|f: BuiltinFunction| f.model()) =~= before.map_values(|f: BuiltinFunction| f.model()) + part@.map_values(|f: BuiltinFunction| f.model()));
    }
    all.append(&mut part);
    assert(all@.map_values(|f: BuiltinFunction| f.model()) =~= entries());
    all
}

} // verus!
