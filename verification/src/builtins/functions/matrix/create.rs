use vstd::prelude::*;

use crate::builtins::{BuiltinFunction, FunctionEntry};
#[allow(unused_imports)]
use crate::types::{BaseType, Type, TypeModel};

verus! {

/// The entries of this group, as values.
pub open spec fn entries() -> Seq<FunctionEntry> {
    seq![
        FunctionEntry { name: "matrix.new"@, signature: "matrix.new<type>(rows, columns, initial_value?)"@, return_type: TypeModel::Unknown },
        FunctionEntry { name: "matrix.copy"@, signature: "matrix.copy(m)"@, return_type: TypeModel::Unknown },
        FunctionEntry { name: "matrix.from_array"@, signature: "matrix.from_array(array)"@, return_type: TypeModel::Unknown },
    ]
}

/// The built-in functions of the `matrix / create` group.
pub fn list() -> (r: Vec<BuiltinFunction>)
    ensures
        r@.map_values(|f: BuiltinFunction| f.model()) == entries(),
{
    let r = vec![
        BuiltinFunction { name: "matrix.new", signature: "matrix.new<type>(rows, columns, initial_value?)", return_type: Type::unknown() },
        BuiltinFunction { name: "matrix.copy", signature: "matrix.copy(m)", return_type: Type::unknown() },
        BuiltinFunction { name: "matrix.from_array", signature: "matrix.from_array(array)", return_type: Type::unknown() },
    ];
    assert(r@.map_values(|f: BuiltinFunction| f.model()) =~= entries());
    r
}

} // verus!
