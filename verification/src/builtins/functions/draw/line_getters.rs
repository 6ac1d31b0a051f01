use vstd::prelude::*;

use crate::builtins::{BuiltinFunction, FunctionEntry};
#[allow(unused_imports)]
use crate::types::{BaseType, Type, TypeModel};

verus! {

/// The entries of this group, as values.
pub open spec fn entries() -> Seq<FunctionEntry> {
    seq![
        FunctionEntry { name: "line.get_x1"@, signature: "line.get_x1(id)"@, return_type: TypeModel::Scalar(BaseType::Int) },
        FunctionEntry { name: "line.get_y1"@, signature: "line.get_y1(id)"@, return_type: TypeModel::Scalar(BaseType::Float) },
        FunctionEntry { name: "line.get_x2"@, signature: "line.get_x2(id)"@, return_type: TypeModel::Scalar(BaseType::Int) },
        FunctionEntry { name: "line.get_y2"@, signature: "line.get_y2(id)"@, return_type: TypeModel::Scalar(BaseType::Float) },
        FunctionEntry { name: "line.get_price"@, signature: "line.get_price(id, x)"@, return_type: TypeModel::Scalar(BaseType::Float) },
        FunctionEntry { name: "line.delete"@, signature: "line.delete(id)"@, return_type: TypeModel::Scalar(BaseType::Void) },
        FunctionEntry { name: "line.copy"@, signature: "line.copy(id)"@, return_type: TypeModel::Unknown },
    ]
}

/// The built-in functions of the `draw / line_getters` group.
pub fn list() -> (r: Vec<BuiltinFunction>)
    ensures
        r@.map_values(|f: BuiltinFunction| f.model()) == entries(),
{
    let r = vec![
        BuiltinFunction { name: "line.get_x1", signature: "line.get_x1(id)", return_type: Type::scalar(BaseType::Int) },
        BuiltinFunction { name: "line.get_y1", signature: "line.get_y1(id)", return_type: Type::scalar(BaseType::Float) },
        BuiltinFunction { name: "line.get_x2", signature: "line.get_x2(id)", return_type: Type::scalar(BaseType::Int) },
        BuiltinFunction { name: "line.get_y2", signature: "line.get_y2(id)", return_type: Type::scalar(BaseType::Float) },
        BuiltinFunction { name: "line.get_price", signature: "line.get_price(id, x)", return_type: Type::scalar(BaseType::Float) },
        BuiltinFunction { name: "line.delete", signature: "line.delete(id)", return_type: Type::scalar(BaseType::Void) },
        BuiltinFunction { name: "line.copy", signature: "line.copy(id)", return_type: Type::unknown() },
    ];
    assert(r@.map_values(|f: BuiltinFunction| f.model()) =~= entries());
    r
}

} // verus!
