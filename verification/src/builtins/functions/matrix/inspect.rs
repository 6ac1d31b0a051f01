use vstd::prelude::*;

use crate::builtins::{BuiltinFunction, FunctionEntry};
#[allow(unused_imports)]
use crate::types::{BaseType, Type, TypeModel};

verus! {

/// The entries of this group, as values.
pub open spec fn entries() -> Seq<FunctionEntry> {
    seq![
        FunctionEntry { name: "matrix.rows"@, signature: "matrix.rows(m)"@, return_type: TypeModel::Scalar(BaseType::Int) },
        FunctionEntry { name: "matrix.columns"@, signature: "matrix.columns(m)"@, return_type: TypeModel::Scalar(BaseType::Int) },
        FunctionEntry { name: "matrix.elements_count"@, signature: "matrix.elements_count(m)"@, return_type: TypeModel::Scalar(BaseType::Int) },
        FunctionEntry { name: "matrix.is_square"@, signature: "matrix.is_square(m)"@, return_type: TypeModel::Scalar(BaseType::Bool) },
        FunctionEntry { name: "matrix.is_identity"@, signature: "matrix.is_identity(m)"@, return_type: TypeModel::Scalar(BaseType::Bool) },
        FunctionEntry { name: "matrix.is_diagonal"@, signature: "matrix.is_diagonal(m)"@, return_type: TypeModel::Scalar(BaseType::Bool) },
        FunctionEntry { name: "matrix.is_antidiagonal"@, signature: "matrix.is_antidiagonal(m)"@, return_type: TypeModel::Scalar(BaseType::Bool) },
        FunctionEntry { name: "matrix.is_symmetric"@, signature: "matrix.is_symmetric(m)"@, return_type: TypeModel::Scalar(BaseType::Bool) },
        FunctionEntry { name: "matrix.is_antisymmetric"@, signature: "matrix.is_antisymmetric(m)"@, return_type: TypeModel::Scalar(BaseType::Bool) },
        FunctionEntry { name: "matrix.is_triangular"@, signature: "matrix.is_triangular(m)"@, return_type: TypeModel::Scalar(BaseType::Bool) },
        FunctionEntry { name: "matrix.is_stochastic"@, signature: "matrix.is_stochastic(m)"@, return_type: TypeModel::Scalar(BaseType::Bool) },
        FunctionEntry { name: "matrix.is_binary"@, signature: "matrix.is_binary(m)"@, return_type: TypeModel::Scalar(BaseType::Bool) },
        FunctionEntry { name: "matrix.is_zero"@, signature: "matrix.is_zero(m)"@, return_type: TypeModel::Scalar(BaseType::Bool) },
    ]
}

/// The built-in functions of the `matrix / inspect` group.
pub fn list() -> (r: Vec<BuiltinFunction>)
    ensures
        r@.map_values(|f: BuiltinFunction| f.model()) == entries(),
{
    let r = vec![
        BuiltinFunction { name: "matrix.rows", signature: "matrix.rows(m)", return_type: Type::scalar(BaseType::Int) },
        BuiltinFunction { name: "matrix.columns", signature: "matrix.columns(m)", return_type: Type::scalar(BaseType::Int) },
        BuiltinFunction { name: "matrix.elements_count", signature: "matrix.elements_count(m)", return_type: Type::scalar(BaseType::Int) },
        BuiltinFunction { name: "matrix.is_square", signature: "matrix.is_square(m)", return_type: Type::scalar(BaseType::Bool) },
        BuiltinFunction { name: "matrix.is_identity", signature: "matrix.is_identity(m)", return_type: Type::scalar(BaseType::Bool) },
        BuiltinFunction { name: "matrix.is_diagonal", signature: "matrix.is_diagonal(m)", return_type: Type::scalar(BaseType::Bool) },
        BuiltinFunction { name: "matrix.is_antidiagonal", signature: "matrix.is_antidiagonal(m)", return_type: Type::scalar(BaseType::Bool) },
        BuiltinFunction { name: "matrix.is_symmetric", signature: "matrix.is_symmetric(m)", return_type: Type::scalar(BaseType::Bool) },
        BuiltinFunction { name: "matrix.is_antisymmetric", signature: "matrix.is_antisymmetric(m)", return_type: Type::scalar(BaseType::Bool) },
        BuiltinFunction { name: "matrix.is_triangular", signature: "matrix.is_triangular(m)", return_type: Type::scalar(BaseType::Bool) },
        BuiltinFunction { name: "matrix.is_stochastic", signature: "matrix.is_stochastic(m)", return_type: Type::scalar(BaseType::Bool) },
        BuiltinFunction { name: "matrix.is_binary", signature: "matrix.is_binary(m)", return_type: Type::scalar(BaseType::Bool) },
        BuiltinFunction { name: "matrix.is_zero", signature: "matrix.is_zero(m)", return_type: Type::scalar(BaseType::Bool) },
    ];
    assert(r@.map_values(|f: BuiltinFunction| f.model()) =~= entries());
    r
}

} // verus!
