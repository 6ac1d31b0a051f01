use vstd::prelude::*;

use crate::builtins::{BuiltinFunction, FunctionEntry};
#[allow(unused_imports)]
use crate::types::{BaseType, Type, TypeModel};

verus! {

/// The entries of this group, as values.
pub open spec fn entries() -> Seq<FunctionEntry> {
    seq![
        FunctionEntry { name: "nz"@, signature: "nz(x, replacement?)"@, return_type: TypeModel::Unknown },
        FunctionEntry { name: "na"@, signature: "na(x)"@, return_type: TypeModel::Scalar(BaseType::Bool) },
        FunctionEntry { name: "request.security"@, signature: "request.security(symbol, timeframe, expression, gaps?, lookahead?, ignore_invalid_symbol?, currency?)"@, return_type: TypeModel::Unknown },
        FunctionEntry { name: "input.int"@, signature: "input.int(defval, title?, minval?, maxval?, step?, tooltip?, inline?, group?, confirm?, display?, active?)"@, return_type: TypeModel::Scalar(BaseType::Int) },
        FunctionEntry { name: "input.float"@, signature: "input.float(defval, title?, minval?, maxval?, step?, tooltip?, inline?, group?, confirm?, display?, active?)"@, return_type: TypeModel::Scalar(BaseType::Float) },
        FunctionEntry { name: "input.bool"@, signature: "input.bool(defval, title?, tooltip?, inline?, group?, confirm?, display?, active?)"@, return_type: TypeModel::Scalar(BaseType::Bool) },
        FunctionEntry { name: "input.string"@, signature: "input.string(defval, title?, tooltip?, group?, confirm?, display?, active?)"@, return_type: TypeModel::Scalar(BaseType::String) },
        FunctionEntry { name: "input.source"@, signature: "input.source(defval, title?, tooltip?, inline?, group?, confirm?, display?, active?)"@, return_type: TypeModel::Series(BaseType::Float) },
        FunctionEntry { name: "input.color"@, signature: "input.color(defval, title?, tooltip?, inline?, group?, confirm?, display?, active?)"@, return_type: TypeModel::Scalar(BaseType::Color) },
        FunctionEntry { name: "alert"@, signature: "alert(condition, message?)"@, return_type: TypeModel::Scalar(BaseType::Void) },
        FunctionEntry { name: "alertcondition"@, signature: "alertcondition(condition, title?)"@, return_type: TypeModel::Scalar(BaseType::Void) },
        FunctionEntry { name: "timestamp"@, signature: "timestamp(year, month, day, hour?, minute?)"@, return_type: TypeModel::Scalar(BaseType::Int) },
    ]
}

/// The built-in functions of the `compat` group.
pub fn list() -> (r: Vec<BuiltinFunction>)
    ensures
        r@.map_values(|f: BuiltinFunction| f.model()) == entries(),
{
    let r = vec![
        BuiltinFunction { name: "nz", signature: "nz(x, replacement?)", return_type: Type::unknown() },
        BuiltinFunction { name: "na", signature: "na(x)", return_type: Type::scalar(BaseType::Bool) },
        BuiltinFunction { name: "request.security", signature: "request.security(symbol, timeframe, expression, gaps?, lookahead?, ignore_invalid_symbol?, currency?)", return_type: Type::unknown() },
        BuiltinFunction { name: "input.int", signature: "input.int(defval, title?, minval?, maxval?, step?, tooltip?, inline?, group?, confirm?, display?, active?)", return_type: Type::scalar(BaseType::Int) },
        BuiltinFunction { name: "input.float", signature: "input.float(defval, title?, minval?, maxval?, step?, tooltip?, inline?, group?, confirm?, display?, active?)", return_type: Type::scalar(BaseType::Float) },
        BuiltinFunction { name: "input.bool", signature: "input.bool(defval, title?, tooltip?, inline?, group?, confirm?, display?, active?)", return_type: Type::scalar(BaseType::Bool) },
        BuiltinFunction { name: "input.string", signature: "input.string(defval, title?, tooltip?, group?, confirm?, display?, active?)", return_type: Type::scalar(BaseType::String) },
        BuiltinFunction { name: "input.source", signature: "input.source(defval, title?, tooltip?, inline?, group?, confirm?, display?, active?)", return_type: Type::series(BaseType::Float) },
        BuiltinFunction { name: "input.color", signature: "input.color(defval, title?, tooltip?, inline?, group?, confirm?, display?, active?)", return_type: Type::scalar(BaseType::Color) },
        BuiltinFunction { name: "alert", signature: "alert(condition, message?)", return_type: Type::scalar(BaseType::Void) },
        BuiltinFunction { name: "alertcondition", signature: "alertcondition(condition, title?)", return_type: Type::scalar(BaseType::Void) },
        BuiltinFunction { name: "timestamp", signature: "timestamp(year, month, day, hour?, minute?)", return_type: Type::scalar(BaseType::Int) },
    ];
    assert(r@.map_values(|f: BuiltinFunction| f.model()) =~= entries());
    r
}

} // verus!
