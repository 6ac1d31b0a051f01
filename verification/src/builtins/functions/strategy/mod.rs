use vstd::prelude::*;

use crate::builtins::{BuiltinFunction, FunctionEntry};

mod closed_trades;
mod open_trades;
mod trading;

verus! {

/// The entries of all groups, in order.
pub open spec fn entries() -> Seq<FunctionEntry> {
    trading::entries()
        + closed_trades::entries()
        + open_trades::entries()
}

pub fn list() -> (r: Vec<BuiltinFunction>)
    ensures
        r@.map_values(|f: BuiltinFunction| f.model()) == entries(),
{
    let mut all: Vec<BuiltinFunction> = Vec::new();
    let mut part = trading::list();
    proof {
        let before = all@;
        assert((before + part@).map_values(|f: BuiltinFunction| f.model()) =~= before.map_values(|f: BuiltinFunction| f.model()) + part@.map_values(|f: BuiltinFunction| f.model()));
    }
    all.append(&mut part);
    let mut part = closed_trades::list();
    proof {
        let before = all@;
        assert((before + part@).map_values(|f: BuiltinFunction| f.model()) =~= before.map_values(|f: BuiltinFunction| f.model()) + part@.map_values(|f: BuiltinFunction| f.model()));
    }
    all.append(&mut part);
    let mut part = open_trades::list();
    proof {
        let before = all@;
        assert((before + part@).map_values(|f: BuiltinFunction| f.model()) =~= before.map_values(|f: BuiltinFunction| f.model()) + part@.map_values(|f: BuiltinFunction| f.model()));
    }
    all.append(&mut part);
    assert(all@.map_values(|f: BuiltinFunction| f.model()) =~= entries());
    all
}

} // verus!
