use vstd::prelude::*;

use crate::builtins::{BuiltinFunction, FunctionEntry};
#[allow(unused_imports)]
use crate::types::{BaseType, Type, TypeModel};

verus! {

/// The entries of this group, as values.
pub open spec fn entries() -> Seq<FunctionEntry> {
    seq![
        FunctionEntry { name: "array.insert"@, signature: "array.insert(arr, index, value)"@, return_type: TypeModel::Scalar(BaseType::Void) },
        FunctionEntry { name: "array.shift"@, signature: "array.shift(arr)"@, return_type: TypeModel::Unknown },
        FunctionEntry { name: "array.unshift"@, signature: "array.unshift(arr, value)"@, return_type: TypeModel::Scalar(BaseType::Void) },
        FunctionEntry { name: "array.remove"@, signature: "array.remove(arr, index)"@, return_type: TypeModel::Unknown },
    ]
}

/// The built-in functions of the `array / mutation` group.
pub fn list() -> (r: Vec<BuiltinFunction>)
    ensures
        r@.map_values(|f: BuiltinFunction| f.model()) == entries(),
{
    let r = vec![
        BuiltinFunction { name: "array.insert", signature: "array.insert(arr, index, value)", return_type: Type::scalar(BaseType::Void) },
        BuiltinFunction { name: "array.shift", signature: "array.shift(arr)", return_type: Type::unknown() },
        BuiltinFunction { name: "array.unshift", signature: "array.unshift(arr, value)", return_type: Type::scalar(BaseType::Void) },
        BuiltinFunction { name: "array.remove", signature: "array.remove(arr, index)", return_type: Type::unknown() },
    ];
    assert(r@.map_values(|f: BuiltinFunction| f.model()) =~= entries());
    r
}

} // verus!
