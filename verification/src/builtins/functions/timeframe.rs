use vstd::prelude::*;

use crate::builtins::{BuiltinFunction, FunctionEntry};
#[allow(unused_imports)]
use crate::types::{BaseType, Type, TypeModel};

verus! {

/// The entries of this group, as values.
pub open spec fn entries() -> Seq<FunctionEntry> {
    seq![
        FunctionEntry { name: "timeframe.change"@, signature: "timeframe.change(timeframe)"@, return_type: TypeModel::Series(BaseType::Bool) },
        FunctionEntry { name: "timeframe.in_seconds"@, signature: "timeframe.in_seconds(timeframe?)"@, return_type: TypeModel::Scalar(BaseType::Int) },
        FunctionEntry { name: "timeframe.from_seconds"@, signature: "timeframe.from_seconds(seconds)"@, return_type: TypeModel::Scalar(BaseType::String) },
    ]
}

/// The built-in functions of the `timeframe` group.
pub fn list() -> (r: Vec<BuiltinFunction>)
    ensures
        r@.map_values(|f: BuiltinFunction| f.model()) == entries(),
{
    let r = vec![
        BuiltinFunction { name: "timeframe.change", signature: "timeframe.change(timeframe)", return_type: Type::series(BaseType::Bool) },
        BuiltinFunction { name: "timeframe.in_seconds", signature: "timeframe.in_seconds(timeframe?)", return_type: Type::scalar(BaseType::Int) },
        BuiltinFunction { name: "timeframe.from_seconds", signature: "timeframe.from_seconds(seconds)", return_type: Type::scalar(BaseType::String) },
    ];
    assert(r@.map_values(|f: BuiltinFunction| f.model()) =~= entries());
    r
}

} // verus!
