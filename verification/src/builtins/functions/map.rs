use vstd::prelude::*;

use crate::builtins::{BuiltinFunction, FunctionEntry};
#[allow(unused_imports)]
use crate::types::{BaseType, Type, TypeModel};

verus! {

/// The entries of this group, as values.
pub open spec fn entries() -> Seq<FunctionEntry> {
    seq![
        FunctionEntry { name: "map.new"@, signature: "map.new()"@, return_type: TypeModel::Unknown },
        FunctionEntry { name: "map.put"@, signature: "map.put(m, key, value)"@, return_type: TypeModel::Unknown },
        FunctionEntry { name: "map.get"@, signature: "map.get(m, key)"@, return_type: TypeModel::Unknown },
        FunctionEntry { name: "map.contains"@, signature: "map.contains(m, key)"@, return_type: TypeModel::Scalar(BaseType::Bool) },
        FunctionEntry { name: "map.keys"@, signature: "map.keys(m)"@, return_type: TypeModel::Unknown },
        FunctionEntry { name: "map.values"@, signature: "map.values(m)"@, return_type: TypeModel::Unknown },
        FunctionEntry { name: "map.remove"@, signature: "map.remove(m, key)"@, return_type: TypeModel::Unknown },
        FunctionEntry { name: "map.clear"@, signature: "map.clear(m)"@, return_type: TypeModel::Scalar(BaseType::Void) },
        FunctionEntry { name: "map.put_all"@, signature: "map.put_all(m1, m2)"@, return_type: TypeModel::Scalar(BaseType::Void) },
        FunctionEntry { name: "map.copy"@, signature: "map.copy(m)"@, return_type: TypeModel::Unknown },
        FunctionEntry { name: "map.size"@, signature: "map.size(m)"@, return_type: TypeModel::Scalar(BaseType::Int) },
    ]
}

/// The built-in functions of the `map` group.
pub fn list() -> (r: Vec<BuiltinFunction>)
    ensures
        r@.map_values(|f: BuiltinFunction| f.model()) == entries(),
{
    let r = vec![
        BuiltinFunction { name: "map.new", signature: "map.new()", return_type: Type::unknown() },
        BuiltinFunction { name: "map.put", signature: "map.put(m, key, value)", return_type: Type::unknown() },
        BuiltinFunction { name: "map.get", signature: "map.get(m, key)", return_type: Type::unknown() },
        BuiltinFunction { name: "map.contains", signature: "map.contains(m, key)", return_type: Type::scalar(BaseType::Bool) },
        BuiltinFunction { name: "map.keys", signature: "map.keys(m)", return_type: Type::unknown() },
        BuiltinFunction { name: "map.values", signature: "map.values(m)", return_type: Type::unknown() },
        BuiltinFunction { name: "map.remove", signature: "map.remove(m, key)", return_type: Type::unknown() },
        BuiltinFunction { name: "map.clear", signature: "map.clear(m)", return_type: Type::scalar(BaseType::Void) },
        BuiltinFunction { name: "map.put_all", signature: "map.put_all(m1, m2)", return_type: Type::scalar(BaseType::Void) },
        BuiltinFunction { name: "map.copy", signature: "map.copy(m)", return_type: Type::unknown() },
        BuiltinFunction { name: "map.size", signature: "map.size(m)", return_type: Type::scalar(BaseType::Int) },
    ];
    assert(r@.map_values(|f: BuiltinFunction| f.model()) =~= entries());
    r
}

} // verus!
