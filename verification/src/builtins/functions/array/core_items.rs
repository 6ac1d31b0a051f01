use vstd::prelude::*;

use crate::builtins::{BuiltinFunction, FunctionEntry};
#[allow(unused_imports)]
use crate::types::{BaseType, Type, TypeModel};

verus! {

/// The entries of this group, as values.
pub open spec fn entries() -> Seq<FunctionEntry> {
    seq![
        FunctionEntry { name: "array.new_int"@, signature: "array.new_int(size, val?)"@, return_type: TypeModel::Unknown },
        FunctionEntry { name: "array.new_float"@, signature: "array.new_float(size, val?)"@, return_type: TypeModel::Unknown },
        FunctionEntry { name: "array.new_bool"@, signature: "array.new_bool(size, val?)"@, return_type: TypeModel::Unknown },
        FunctionEntry { name: "array.size"@, signature: "array.size(arr)"@, return_type: TypeModel::Scalar(BaseType::Int) },
        FunctionEntry { name: "array.push"@, signature: "array.push(arr, value)"@, return_type: TypeModel::Scalar(BaseType::Void) },
        FunctionEntry { name: "array.pop"@, signature: "array.pop(arr)"@, return_type: TypeModel::Unknown },
        FunctionEntry { name: "array.get"@, signature: "array.get(arr, index)"@, return_type: TypeModel::Unknown },
        FunctionEntry { name: "array.set"@, signature: "array.set(arr, index, value)"@, return_type: TypeModel::Scalar(BaseType::Void) },
        FunctionEntry { name: "array.from"@, signature: "array.from(values...)"@, return_type: TypeModel::Unknown },
        FunctionEntry { name: "array.clear"@, signature: "array.clear(arr)"@, return_type: TypeModel::Scalar(BaseType::Void) },
    ]
}

/// The built-in functions of the `array / core` group.
pub fn list() -> (r: Vec<BuiltinFunction>)
    ensures
        r@.map_values(|f: BuiltinFunction| f.model()) == entries(),
{
    let r = vec![
        BuiltinFunction { name: "array.new_int", signature: "array.new_int(size, val?)", return_type: Type::unknown() },
        BuiltinFunction { name: "array.new_float", signature: "array.new_float(size, val?)", return_type: Type::unknown() },
        BuiltinFunction { name: "array.new_bool", signature: "array.new_bool(size, val?)", return_type: Type::unknown() },
        BuiltinFunction { name: "array.size", signature: "array.size(arr)", return_type: Type::scalar(BaseType::Int) },
        BuiltinFunction { name: "array.push", signature: "array.push(arr, value)", return_type: Type::scalar(BaseType::Void) },
        BuiltinFunction { name: "array.pop", signature: "array.pop(arr)", return_type: Type::unknown() },
        BuiltinFunction { name: "array.get", signature: "array.get(arr, index)", return_type: Type::unknown() },
        BuiltinFunction { name: "array.set", signature: "array.set(arr, index, value)", return_type: Type::scalar(BaseType::Void) },
        BuiltinFunction { name: "array.from", signature: "array.from(values...)", return_type: Type::unknown() },
        BuiltinFunction { name: "array.clear", signature: "array.clear(arr)", return_type: Type::scalar(BaseType::Void) },
    ];
    assert(r@.map_values(|f: BuiltinFunction| f.model()) =~= entries());
    r
}

} // verus!
