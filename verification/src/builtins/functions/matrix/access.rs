use vstd::prelude::*;

use crate::builtins::{BuiltinFunction, FunctionEntry};
#[allow(unused_imports)]
use crate::types::{BaseType, Type, TypeModel};

verus! {

/// The entries of this group, as values.
pub open spec fn entries() -> Seq<FunctionEntry> {
    seq![
        FunctionEntry { name: "matrix.get"@, signature: "matrix.get(m, row, column)"@, return_type: TypeModel::Unknown },
        FunctionEntry { name: "matrix.set"@, signature: "matrix.set(m, row, column, value)"@, return_type: TypeModel::Scalar(BaseType::Void) },
        FunctionEntry { name: "matrix.fill"@, signature: "matrix.fill(m, value, from_row?, to_row?, from_col?, to_col?)"@, return_type: TypeModel::Scalar(BaseType::Void) },
    ]
}

/// The built-in functions of the `matrix / access` group.
pub fn list() -> (r: Vec<BuiltinFunction>)
    ensures
        r@.map_values(|f: BuiltinFunction| f.model()) == entries(),
{
    let r = vec![
        BuiltinFunction { name: "matrix.get", signature: "matrix.get(m, row, column)", return_type: Type::unknown() },
        BuiltinFunction { name: "matrix.set", signature: "matrix.set(m, row, column, value)", return_type: Type::scalar(BaseType::Void) },
        BuiltinFunction { name: "matrix.fill", signature: "matrix.fill(m, value, from_row?, to_row?, from_col?, to_col?)", return_type: Type::scalar(BaseType::Void) },
    ];
    assert(r@.map_values(|f: BuiltinFunction| f.model()) =~= entries());
    r
}

} // verus!
