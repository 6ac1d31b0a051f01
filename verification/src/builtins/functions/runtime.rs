use vstd::prelude::*;

use crate::builtins::{BuiltinFunction, FunctionEntry};
#[allow(unused_imports)]
use crate::types::{BaseType, Type, TypeModel};

verus! {

/// The entries of this group, as values.
pub open spec fn entries() -> Seq<FunctionEntry> {
    seq![
        FunctionEntry { name: "runtime.error"@, signature: "runtime.error(message)"@, return_type: TypeModel::Scalar(BaseType::Void) },
        FunctionEntry { name: "log.info"@, signature: "log.info(message)"@, return_type: TypeModel::Scalar(BaseType::Void) },
        FunctionEntry { name: "log.warning"@, signature: "log.warning(message)"@, return_type: TypeModel::Scalar(BaseType::Void) },
        FunctionEntry { name: "log.error"@, signature: "log.error(message)"@, return_type: TypeModel::Scalar(BaseType::Void) },
    ]
}

/// The built-in functions of the `runtime` group.
pub fn list() -> (r: Vec<BuiltinFunction>)
    ensures
        r@.map_values(|f: BuiltinFunction| f.model()) == entries(),
{
    let r = vec![
        BuiltinFunction { name: "runtime.error", signature: "runtime.error(message)", return_type: Type::scalar(BaseType::Void) },
        BuiltinFunction { name: "log.info", signature: "log.info(message)", return_type: Type::scalar(BaseType::Void) },
        BuiltinFunction { name: "log.warning", signature: "log.warning(message)", return_type: Type::scalar(BaseType::Void) },
        BuiltinFunction { name: "log.error", signature: "log.error(message)", return_type: Type::scalar(BaseType::Void) },
    ];
    assert(r@.map_values(|f: BuiltinFunction| f.model()) =~= entries());
    r
}

} // verus!
