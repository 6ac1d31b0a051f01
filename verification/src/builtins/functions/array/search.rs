use vstd::prelude::*;

use crate::builtins::{BuiltinFunction, FunctionEntry};
#[allow(unused_imports)]
use crate::types::{BaseType, Type, TypeModel};

verus! {

/// The entries of this group, as values.
pub open spec fn entries() -> Seq<FunctionEntry> {
    seq![
        FunctionEntry { name: "array.includes"@, signature: "array.includes(arr, value)"@, return_type: TypeModel::Scalar(BaseType::Bool) },
        FunctionEntry { name: "array.indexof"@, signature: "array.indexof(arr, value)"@, return_type: TypeModel::Scalar(BaseType::Int) },
        FunctionEntry { name: "array.lastindexof"@, signature: "array.lastindexof(arr, value)"@, return_type: TypeModel::Scalar(BaseType::Int) },
        FunctionEntry { name: "array.binary_search"@, signature: "array.binary_search(arr, val)"@, return_type: TypeModel::Scalar(BaseType::Int) },
        FunctionEntry { name: "array.binary_search_leftmost"@, signature: "array.binary_search_leftmost(arr, val)"@, return_type: TypeModel::Scalar(BaseType::Int) },
        FunctionEntry { name: "array.binary_search_rightmost"@, signature: "array.binary_search_rightmost(arr, val)"@, return_type: TypeModel::Scalar(BaseType::Int) },
    ]
}

/// The built-in functions of the `array / search` group.
pub fn list() -> (r: Vec<BuiltinFunction>)
    ensures
        r@.map_values(|f: BuiltinFunction| f.model()) == entries(),
{
    let r = vec![
        BuiltinFunction { name: "array.includes", signature: "array.includes(arr, value)", return_type: Type::scalar(BaseType::Bool) },
        BuiltinFunction { name: "array.indexof", signature: "array.indexof(arr, value)", return_type: Type::scalar(BaseType::Int) },
        BuiltinFunction { name: "array.lastindexof", signature: "array.lastindexof(arr, value)", return_type: Type::scalar(BaseType::Int) },
        BuiltinFunction { name: "array.binary_search", signature: "array.binary_search(arr, val)", return_type: Type::scalar(BaseType::Int) },
        BuiltinFunction { name: "array.binary_search_leftmost", signature: "array.binary_search_leftmost(arr, val)", return_type: Type::scalar(BaseType::Int) },
        BuiltinFunction { name: "array.binary_search_rightmost", signature: "array.binary_search_rightmost(arr, val)", return_type: Type::scalar(BaseType::Int) },
    ];
    assert(r@.map_values(|f: BuiltinFunction| f.model()) =~= entries());
    r
}

} // verus!
