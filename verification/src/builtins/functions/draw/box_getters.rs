use vstd::prelude::*;

use crate::builtins::{BuiltinFunction, FunctionEntry};
#[allow(unused_imports)]
use crate::types::{BaseType, Type, TypeModel};

verus! {

/// The entries of this group, as values.
pub open spec fn entries() -> Seq<FunctionEntry> {
    seq![
        FunctionEntry { name: "box.get_top"@, signature: "box.get_top(id)"@, return_type: TypeModel::Scalar(BaseType::Float) },
        FunctionEntry { name: "box.get_bottom"@, signature: "box.get_bottom(id)"@, return_type: TypeModel::Scalar(BaseType::Float) },
        FunctionEntry { name: "box.get_left"@, signature: "box.get_left(id)"@, return_type: TypeModel::Scalar(BaseType::Int) },
        FunctionEntry { name: "box.get_right"@, signature: "box.get_right(id)"@, return_type: TypeModel::Scalar(BaseType::Int) },
        FunctionEntry { name: "box.delete"@, signature: "box.delete(id)"@, return_type: TypeModel::Scalar(BaseType::Void) },
        FunctionEntry { name: "box.copy"@, signature: "box.copy(id)"@, return_type: TypeModel::Unknown },
    ]
}

/// The built-in functions of the `draw / box_getters` group.
pub fn list() -> (r: Vec<BuiltinFunction>)
    ensures
        r@.map_values(|f: BuiltinFunction| f.model()) == entries(),
{
    let r = vec![
        BuiltinFunction { name: "box.get_top", signature: "box.get_top(id)", return_type: Type::scalar(BaseType::Float) },
        BuiltinFunction { name: "box.get_bottom", signature: "box.get_bottom(id)", return_type: Type::scalar(BaseType::Float) },
        BuiltinFunction { name: "box.get_left", signature: "box.get_left(id)", return_type: Type::scalar(BaseType::Int) },
        BuiltinFunction { name: "box.get_right", signature: "box.get_right(id)", return_type: Type::scalar(BaseType::Int) },
        BuiltinFunction { name: "box.delete", signature: "box.delete(id)", return_type: Type::scalar(BaseType::Void) },
        BuiltinFunction { name: "box.copy", signature: "box.copy(id)", return_type: Type::unknown() },
    ];
    assert(r@.map_values(|f: BuiltinFunction| f.model()) =~= entries());
    r
}

} // verus!
