use vstd::prelude::*;

use crate::builtins::{BuiltinFunction, FunctionEntry};
#[allow(unused_imports)]
use crate::types::{BaseType, Type, TypeModel};

verus! {

/// The entries of this group, as values.
pub open spec fn entries() -> Seq<FunctionEntry> {
    seq![
        FunctionEntry { name: "color.from_gradient"@, signature: "color.from_gradient(value, bottom_value, top_value, bottom_color, top_color)"@, return_type: TypeModel::Scalar(BaseType::Color) },
        FunctionEntry { name: "color.rgb"@, signature: "color.rgb(red, green, blue, transp?)"@, return_type: TypeModel::Scalar(BaseType::Color) },
        FunctionEntry { name: "color.r"@, signature: "color.r(color)"@, return_type: TypeModel::Scalar(BaseType::Int) },
        FunctionEntry { name: "color.g"@, signature: "color.g(color)"@, return_type: TypeModel::Scalar(BaseType::Int) },
        FunctionEntry { name: "color.b"@, signature: "color.b(color)"@, return_type: TypeModel::Scalar(BaseType::Int) },
        FunctionEntry { name: "color.t"@, signature: "color.t(color)"@, return_type: TypeModel::Scalar(BaseType::Int) },
    ]
}

/// The built-in functions of the `color` group.
pub fn list() -> (r: Vec<BuiltinFunction>)
    ensures
        r@.map_values(|f: BuiltinFunction| f.model()) == entries(),
{
    let r = vec![
        BuiltinFunction { name: "color.from_gradient", signature: "color.from_gradient(value, bottom_value, top_value, bottom_color, top_color)", return_type: Type::scalar(BaseType::Color) },
        BuiltinFunction { name: "color.rgb", signature: "color.rgb(red, green, blue, transp?)", return_type: Type::scalar(BaseType::Color) },
        BuiltinFunction { name: "color.r", signature: "color.r(color)", return_type: Type::scalar(BaseType::Int) },
        BuiltinFunction { name: "color.g", signature: "color.g(color)", return_type: Type::scalar(BaseType::Int) },
        BuiltinFunction { name: "color.b", signature: "color.b(color)", return_type: Type::scalar(BaseType::Int) },
        BuiltinFunction { name: "color.t", signature: "color.t(color)", return_type: Type::scalar(BaseType::Int) },
    ];
    assert(r@.map_values(|f: BuiltinFunction| f.model()) =~= entries());
    r
}

} // verus!
