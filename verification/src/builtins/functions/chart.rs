use vstd::prelude::*;

use crate::builtins::{BuiltinFunction, FunctionEntry};
#[allow(unused_imports)]
use crate::types::{BaseType, Type, TypeModel};

verus! {

/// The entries of this group, as values.
pub open spec fn entries() -> Seq<FunctionEntry> {
    seq![
        FunctionEntry { name: "chart.point.from_index"@, signature: "chart.point.from_index(index, price)"@, return_type: TypeModel::Unknown },
        FunctionEntry { name: "chart.point.from_time"@, signature: "chart.point.from_time(time, price)"@, return_type: TypeModel::Unknown },
        FunctionEntry { name: "chart.point.now"@, signature: "chart.point.now(price)"@, return_type: TypeModel::Unknown },
        FunctionEntry { name: "chart.point.new"@, signature: "chart.point.new(x, price)"@, return_type: TypeModel::Unknown },
    ]
}

/// The built-in functions of the `chart` group.
pub fn list() -> (r: Vec<BuiltinFunction>)
    ensures
        r@.map_values(|f: BuiltinFunction| f.model()) == entries(),
{
    let r = vec![
        BuiltinFunction { name: "chart.point.from_index", signature: "chart.point.from_index(index, price)", return_type: Type::unknown() },
        BuiltinFunction { name: "chart.point.from_time", signature: "chart.point.from_time(time, price)", return_type: Type::unknown() },
        BuiltinFunction { name: "chart.point.now", signature: "chart.point.now(price)", return_type: Type::unknown() },
        BuiltinFunction { name: "chart.point.new", signature: "chart.point.new(x, price)", return_type: Type::unknown() },
    ];
    assert(r@.map_values(|f: BuiltinFunction| f.model()) =~= entries());
    r
}

} // verus!
