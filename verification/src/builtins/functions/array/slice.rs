use vstd::prelude::*;

use crate::builtins::{BuiltinFunction, FunctionEntry};
#[allow(unused_imports)]
use crate::types::{BaseType, Type, TypeModel};

verus! {

/// The entries of this group, as values.
pub open spec fn entries() -> Seq<FunctionEntry> {
    seq![
        FunctionEntry { name: "array.concat"@, signature: "array.concat(arr1, arr2)"@, return_type: TypeModel::Unknown },
        FunctionEntry { name: "array.copy"@, signature: "array.copy(arr)"@, return_type: TypeModel::Unknown },
        FunctionEntry { name: "array.slice"@, signature: "array.slice(arr, index_from, index_to)"@, return_type: TypeModel::Unknown },
        FunctionEntry { name: "array.fill"@, signature: "array.fill(arr, value, index_from?, index_to?)"@, return_type: TypeModel::Scalar(BaseType::Void) },
    ]
}

/// The built-in functions of the `array / slice` group.
pub fn list() -> (r: Vec<BuiltinFunction>)
    ensures
        r@.map_values(|f: BuiltinFunction| f.model()) == entries(),
{
    let r = vec![
        BuiltinFunction { name: "array.concat", signature: "array.concat(arr1, arr2)", return_type: Type::unknown() },
        BuiltinFunction { name: "array.copy", signature: "array.copy(arr)", return_type: Type::unknown() },
        BuiltinFunction { name: "array.slice", signature: "array.slice(arr, index_from, index_to)", return_type: Type::unknown() },
        BuiltinFunction { name: "array.fill", signature: "array.fill(arr, value, index_from?, index_to?)", return_type: Type::scalar(BaseType::Void) },
    ];
    assert(r@.map_values(|f: BuiltinFunction| f.model()) =~= entries());
    r
}

} // verus!
