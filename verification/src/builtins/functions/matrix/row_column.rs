use vstd::prelude::*;

use crate::builtins::{BuiltinFunction, FunctionEntry};
#[allow(unused_imports)]
use crate::types::{BaseType, Type, TypeModel};

verus! {

/// The entries of this group, as values.
pub open spec fn entries() -> Seq<FunctionEntry> {
    seq![
        FunctionEntry { name: "matrix.row"@, signature: "matrix.row(m, index)"@, return_type: TypeModel::Unknown },
        FunctionEntry { name: "matrix.col"@, signature: "matrix.col(m, index)"@, return_type: TypeModel::Unknown },
        FunctionEntry { name: "matrix.add_row"@, signature: "matrix.add_row(m, index, array?)"@, return_type: TypeModel::Scalar(BaseType::Void) },
        FunctionEntry { name: "matrix.add_col"@, signature: "matrix.add_col(m, index, array?)"@, return_type: TypeModel::Scalar(BaseType::Void) },
        FunctionEntry { name: "matrix.remove_row"@, signature: "matrix.remove_row(m, index)"@, return_type: TypeModel::Unknown },
        FunctionEntry { name: "matrix.remove_col"@, signature: "matrix.remove_col(m, index)"@, return_type: TypeModel::Unknown },
        FunctionEntry { name: "matrix.swap_rows"@, signature: "matrix.swap_rows(m, row1, row2)"@, return_type: TypeModel::Scalar(BaseType::Void) },
        FunctionEntry { name: "matrix.swap_columns"@, signature: "matrix.swap_columns(m, col1, col2)"@, return_type: TypeModel::Scalar(BaseType::Void) },
    ]
}

/// The built-in functions of the `matrix / row_column` group.
pub fn list() -> (r: Vec<BuiltinFunction>)
    ensures
        r@.map_values(|f: BuiltinFunction| f.model()) == entries(),
{
    let r = vec![
        BuiltinFunction { name: "matrix.row", signature: "matrix.row(m, index)", return_type: Type::unknown() },
        BuiltinFunction { name: "matrix.col", signature: "matrix.col(m, index)", return_type: Type::unknown() },
        BuiltinFunction { name: "matrix.add_row", signature: "matrix.add_row(m, index, array?)", return_type: Type::scalar(BaseType::Void) },
        BuiltinFunction { name: "matrix.add_col", signature: "matrix.add_col(m, index, array?)", return_type: Type::scalar(BaseType::Void) },
        BuiltinFunction { name: "matrix.remove_row", signature: "matrix.remove_row(m, index)", return_type: Type::unknown() },
        BuiltinFunction { name: "matrix.remove_col", signature: "matrix.remove_col(m, index)", return_type: Type::unknown() },
        BuiltinFunction { name: "matrix.swap_rows", signature: "matrix.swap_rows(m, row1, row2)", return_type: Type::scalar(BaseType::Void) },
        BuiltinFunction { name: "matrix.swap_columns", signature: "matrix.swap_columns(m, col1, col2)", return_type: Type::scalar(BaseType::Void) },
    ];
    assert(r@.map_values(|f: BuiltinFunction| f.model()) =~= entries());
    r
}

} // verus!
