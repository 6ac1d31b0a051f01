use vstd::prelude::*;

use crate::builtins::{BuiltinFunction, FunctionEntry};
#[allow(unused_imports)]
use crate::types::{BaseType, Type, TypeModel};

verus! {

/// The entries of this group, as values.
pub open spec fn entries() -> Seq<FunctionEntry> {
    seq![
        FunctionEntry { name: "linefill.new"@, signature: "linefill.new(line1, line2, color)"@, return_type: TypeModel::Unknown },
        FunctionEntry { name: "linefill.delete"@, signature: "linefill.delete(id)"@, return_type: TypeModel::Scalar(BaseType::Void) },
        FunctionEntry { name: "linefill.set_color"@, signature: "linefill.set_color(id, color)"@, return_type: TypeModel::Scalar(BaseType::Void) },
        FunctionEntry { name: "linefill.get_line1"@, signature: "linefill.get_line1(id)"@, return_type: TypeModel::Unknown },
        FunctionEntry { name: "linefill.get_line2"@, signature: "linefill.get_line2(id)"@, return_type: TypeModel::Unknown },
    ]
}

/// The built-in functions of the `draw / linefill` group.
pub fn list() -> (r: Vec<BuiltinFunction>)
    ensures
        r@.map_values(|f: BuiltinFunction| f.model()) == entries(),
{
    let r = vec![
        BuiltinFunction { name: "linefill.new", signature: "linefill.new(line1, line2, color)", return_type: Type::unknown() },
        BuiltinFunction { name: "linefill.delete", signature: "linefill.delete(id)", return_type: Type::scalar(BaseType::Void) },
        BuiltinFunction { name: "linefill.set_color", signature: "linefill.set_color(id, color)", return_type: Type::scalar(BaseType::Void) },
        BuiltinFunction { name: "linefill.get_line1", signature: "linefill.get_line1(id)", return_type: Type::unknown() },
        BuiltinFunction { name: "linefill.get_line2", signature: "linefill.get_line2(id)", return_type: Type::unknown() },
    ];
    assert(r@.map_values(|f: BuiltinFunction| f.model()) =~= entries());
    r
}

} // verus!
