use vstd::prelude::*;

use crate::builtins::{BuiltinFunction, FunctionEntry};
#[allow(unused_imports)]
use crate::types::{BaseType, Type, TypeModel};

verus! {

/// The entries of this group, as values.
pub open spec fn entries() -> Seq<FunctionEntry> {
    seq![
        FunctionEntry { name: "array.new_string"@, signature: "array.new_string(size?, val?)"@, return_type: TypeModel::Unknown },
        FunctionEntry { name: "array.new_color"@, signature: "array.new_color(size?, val?)"@, return_type: TypeModel::Unknown },
        FunctionEntry { name: "array.new_line"@, signature: "array.new_line(size?)"@, return_type: TypeModel::Unknown },
        FunctionEntry { name: "array.new_label"@, signature: "array.new_label(size?)"@, return_type: TypeModel::Unknown },
        FunctionEntry { name: "array.new_box"@, signature: "array.new_box(size?)"@, return_type: TypeModel::Unknown },
        FunctionEntry { name: "array.new_table"@, signature: "array.new_table(size?)"@, return_type: TypeModel::Unknown },
        FunctionEntry { name: "array.new"@, signature: "array.new(size?, initial_value?)"@, return_type: TypeModel::Unknown },
    ]
}

/// The built-in functions of the `array / constructors` group.
pub fn list() -> (r: Vec<BuiltinFunction>)
    ensures
        r@.map_values(|f: BuiltinFunction| f.model()) == entries(),
{
    let r = vec![
        BuiltinFunction { name: "array.new_string", signature: "array.new_string(size?, val?)", return_type: Type::unknown() },
        BuiltinFunction { name: "array.new_color", signature: "array.new_color(size?, val?)", return_type: Type::unknown() },
        BuiltinFunction { name: "array.new_line", signature: "array.new_line(size?)", return_type: Type::unknown() },
        BuiltinFunction { name: "array.new_label", signature: "array.new_label(size?)", return_type: Type::unknown() },
        BuiltinFunction { name: "array.new_box", signature: "array.new_box(size?)", return_type: Type::unknown() },
        BuiltinFunction { name: "array.new_table", signature: "array.new_table(size?)", return_type: Type::unknown() },
        BuiltinFunction { name: "array.new", signature: "array.new(size?, initial_value?)", return_type: Type::unknown() },
    ];
    assert(r@.map_values(|f: BuiltinFunction| f.model()) =~= entries());
    r
}

} // verus!
