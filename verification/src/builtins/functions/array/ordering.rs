use vstd::prelude::*;

use crate::builtins::{BuiltinFunction, FunctionEntry};
#[allow(unused_imports)]
use crate::types::{BaseType, Type, TypeModel};

verus! {

/// The entries of this group, as values.
pub open spec fn entries() -> Seq<FunctionEntry> {
    seq![
        FunctionEntry { name: "array.reverse"@, signature: "array.reverse(arr)"@, return_type: TypeModel::Scalar(BaseType::Void) },
        FunctionEntry { name: "array.sort"@, signature: "array.sort(arr, order)"@, return_type: TypeModel::Scalar(BaseType::Void) },
        FunctionEntry { name: "array.sort_indices"@, signature: "array.sort_indices(arr, order)"@, return_type: TypeModel::Unknown },
    ]
}

/// The built-in functions of the `array / ordering` group.
pub fn list() -> (r: Vec<BuiltinFunction>)
    ensures
        r@.map_values(|f: BuiltinFunction| f.model()) == entries(),
{
    let r = vec![
        BuiltinFunction { name: "array.reverse", signature: "array.reverse(arr)", return_type: Type::scalar(BaseType::Void) },
        BuiltinFunction { name: "array.sort", signature: "array.sort(arr, order)", return_type: Type::scalar(BaseType::Void) },
        BuiltinFunction { name: "array.sort_indices", signature: "array.sort_indices(arr, order)", return_type: Type::unknown() },
    ];
    assert(r@.map_values(|f: BuiltinFunction| f.model()) =~= entries());
    r
}

} // verus!
