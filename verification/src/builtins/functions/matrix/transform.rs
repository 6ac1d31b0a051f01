use vstd::prelude::*;

use crate::builtins::{BuiltinFunction, FunctionEntry};
#[allow(unused_imports)]
use crate::types::{BaseType, Type, TypeModel};

verus! {

/// The entries of this group, as values.
pub open spec fn entries() -> Seq<FunctionEntry> {
    seq![
        FunctionEntry { name: "matrix.submatrix"@, signature: "matrix.submatrix(m, from_row, to_row, from_col, to_col)"@, return_type: TypeModel::Unknown },
        FunctionEntry { name: "matrix.reshape"@, signature: "matrix.reshape(m, rows, columns)"@, return_type: TypeModel::Unknown },
        FunctionEntry { name: "matrix.reverse"@, signature: "matrix.reverse(m)"@, return_type: TypeModel::Unknown },
        FunctionEntry { name: "matrix.transpose"@, signature: "matrix.transpose(m)"@, return_type: TypeModel::Unknown },
        FunctionEntry { name: "matrix.sort"@, signature: "matrix.sort(m, column, order)"@, return_type: TypeModel::Unknown },
        FunctionEntry { name: "matrix.concat"@, signature: "matrix.concat(m1, m2, dimension)"@, return_type: TypeModel::Unknown },
        FunctionEntry { name: "matrix.avg"@, signature: "matrix.avg(m)"@, return_type: TypeModel::Scalar(BaseType::Float) },
        FunctionEntry { name: "matrix.min"@, signature: "matrix.min(m)"@, return_type: TypeModel::Unknown },
        FunctionEntry { name: "matrix.max"@, signature: "matrix.max(m)"@, return_type: TypeModel::Unknown },
        FunctionEntry { name: "matrix.mode"@, signature: "matrix.mode(m)"@, return_type: TypeModel::Unknown },
        FunctionEntry { name: "matrix.median"@, signature: "matrix.median(m)"@, return_type: TypeModel::Scalar(BaseType::Float) },
        FunctionEntry { name: "matrix.sum"@, signature: "matrix.sum(m1, m2)"@, return_type: TypeModel::Unknown },
        FunctionEntry { name: "matrix.diff"@, signature: "matrix.diff(m1, m2)"@, return_type: TypeModel::Unknown },
        FunctionEntry { name: "matrix.mult"@, signature: "matrix.mult(m1, m2)"@, return_type: TypeModel::Unknown },
        FunctionEntry { name: "matrix.pow"@, signature: "matrix.pow(m, power)"@, return_type: TypeModel::Unknown },
        FunctionEntry { name: "matrix.det"@, signature: "matrix.det(m)"@, return_type: TypeModel::Scalar(BaseType::Float) },
        FunctionEntry { name: "matrix.inv"@, signature: "matrix.inv(m)"@, return_type: TypeModel::Unknown },
        FunctionEntry { name: "matrix.pinv"@, signature: "matrix.pinv(m)"@, return_type: TypeModel::Unknown },
        FunctionEntry { name: "matrix.rank"@, signature: "matrix.rank(m)"@, return_type: TypeModel::Scalar(BaseType::Int) },
        FunctionEntry { name: "matrix.trace"@, signature: "matrix.trace(m)"@, return_type: TypeModel::Scalar(BaseType::Float) },
        FunctionEntry { name: "matrix.eigenvalues"@, signature: "matrix.eigenvalues(m)"@, return_type: TypeModel::Unknown },
        FunctionEntry { name: "matrix.eigenvectors"@, signature: "matrix.eigenvectors(m)"@, return_type: TypeModel::Unknown },
        FunctionEntry { name: "matrix.kron"@, signature: "matrix.kron(m1, m2)"@, return_type: TypeModel::Unknown },
    ]
}

/// The built-in functions of the `matrix / transform` group.
pub fn list() -> (r: Vec<BuiltinFunction>)
    ensures
        r@.map_values(|f: BuiltinFunction| f.model()) == entries(),
{
    let r = vec![
        BuiltinFunction { name: "matrix.submatrix", signature: "matrix.submatrix(m, from_row, to_row, from_col, to_col)", return_type: Type::unknown() },
        BuiltinFunction { name: "matrix.reshape", signature: "matrix.reshape(m, rows, columns)", return_type: Type::unknown() },
        BuiltinFunction { name: "matrix.reverse", signature: "matrix.reverse(m)", return_type: Type::unknown() },
        BuiltinFunction { name: "matrix.transpose", signature: "matrix.transpose(m)", return_type: Type::unknown() },
        BuiltinFunction { name: "matrix.sort", signature: "matrix.sort(m, column, order)", return_type: Type::unknown() },
        BuiltinFunction { name: "matrix.concat", signature: "matrix.concat(m1, m2, dimension)", return_type: Type::unknown() },
        BuiltinFunction { name: "matrix.avg", signature: "matrix.avg(m)", return_type: Type::scalar(BaseType::Float) },
        BuiltinFunction { name: "matrix.min", signature: "matrix.min(m)", return_type: Type::unknown() },
        BuiltinFunction { name: "matrix.max", signature: "matrix.max(m)", return_type: Type::unknown() },
        BuiltinFunction { name: "matrix.mode", signature: "matrix.mode(m)", return_type: Type::unknown() },
        BuiltinFunction { name: "matrix.median", signature: "matrix.median(m)", return_type: Type::scalar(BaseType::Float) },
        BuiltinFunction { name: "matrix.sum", signature: "matrix.sum(m1, m2)", return_type: Type::unknown() },
        BuiltinFunction { name: "matrix.diff", signature: "matrix.diff(m1, m2)", return_type: Type::unknown() },
        BuiltinFunction { name: "matrix.mult", signature: "matrix.mult(m1, m2)", return_type: Type::unknown() },
        BuiltinFunction { name: "matrix.pow", signature: "matrix.pow(m, power)", return_type: Type::unknown() },
        BuiltinFunction { name: "matrix.det", signature: "matrix.det(m)", return_type: Type::scalar(BaseType::Float) },
        BuiltinFunction { name: "matrix.inv", signature: "matrix.inv(m)", return_type: Type::unknown() },
        BuiltinFunction { name: "matrix.pinv", signature: "matrix.pinv(m)", return_type: Type::unknown() },
        BuiltinFunction { name: "matrix.rank", signature: "matrix.rank(m)", return_type: Type::scalar(BaseType::Int) },
        BuiltinFunction { name: "matrix.trace", signature: "matrix.trace(m)", return_type: Type::scalar(BaseType::Float) },
        BuiltinFunction { name: "matrix.eigenvalues", signature: "matrix.eigenvalues(m)", return_type: Type::unknown() },
        BuiltinFunction { name: "matrix.eigenvectors", signature: "matrix.eigenvectors(m)", return_type: Type::unknown() },
        BuiltinFunction { name: "matrix.kron", signature: "matrix.kron(m1, m2)", return_type: Type::unknown() },
    ];
    assert(r@.map_values(|f: BuiltinFunction| f.model()) =~= entries());
    r
}

} // verus!
