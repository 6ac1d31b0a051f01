use vstd::prelude::*;

use crate::builtins::{BuiltinFunction, FunctionEntry};
#[allow(unused_imports)]
use crate::types::{BaseType, Type, TypeModel};

verus! {

/// The entries of this group, as values.
pub open spec fn entries() -> Seq<FunctionEntry> {
    seq![
        FunctionEntry { name: "input.session"@, signature: "input.session(defval, title?, tooltip?, inline?, group?, confirm?, display?, active?)"@, return_type: TypeModel::Scalar(BaseType::String) },
        FunctionEntry { name: "input.symbol"@, signature: "input.symbol(defval, title?, tooltip?, inline?, group?, confirm?, display?, active?)"@, return_type: TypeModel::Scalar(BaseType::String) },
        FunctionEntry { name: "input.timeframe"@, signature: "input.timeframe(defval, title?, tooltip?, inline?, group?, confirm?, options?, display?, active?)"@, return_type: TypeModel::Scalar(BaseType::String) },
        FunctionEntry { name: "input.time"@, signature: "input.time(defval, title?, tooltip?, inline?, group?, confirm?, display?, active?)"@, return_type: TypeModel::Scalar(BaseType::Int) },
        FunctionEntry { name: "input.price"@, signature: "input.price(defval, title?, tooltip?, inline?, group?, confirm?, active?)"@, return_type: TypeModel::Series(BaseType::Float) },
        FunctionEntry { name: "input.text_area"@, signature: "input.text_area(defval, title?, tooltip?, group?, confirm?, display?, active?)"@, return_type: TypeModel::Scalar(BaseType::String) },
        FunctionEntry { name: "input.enum"@, signature: "input.enum(defval, title?, tooltip?, inline?, group?, confirm?, options?, display?, active?)"@, return_type: TypeModel::Scalar(BaseType::String) },
    ]
}

/// The built-in functions of the `input` group.
pub fn list() -> (r: Vec<BuiltinFunction>)
    ensures
        r@.map_values(|f: BuiltinFunction| f.model()) == entries(),
{
    let r = vec![
        BuiltinFunction { name: "input.session", signature: "input.session(defval, title?, tooltip?, inline?, group?, confirm?, display?, active?)", return_type: Type::scalar(BaseType::String) },
        BuiltinFunction { name: "input.symbol", signature: "input.symbol(defval, title?, tooltip?, inline?, group?, confirm?, display?, active?)", return_type: Type::scalar(BaseType::String) },
        BuiltinFunction { name: "input.timeframe", signature: "input.timeframe(defval, title?, tooltip?, inline?, group?, confirm?, options?, display?, active?)", return_type: Type::scalar(BaseType::String) },
        BuiltinFunction { name: "input.time", signature: "input.time(defval, title?, tooltip?, inline?, group?, confirm?, display?, active?)", return_type: Type::scalar(BaseType::Int) },
        BuiltinFunction { name: "input.price", signature: "input.price(defval, title?, tooltip?, inline?, group?, confirm?, active?)", return_type: Type::series(BaseType::Float) },
        BuiltinFunction { name: "input.text_area", signature: "input.text_area(defval, title?, tooltip?, group?, confirm?, display?, active?)", return_type: Type::scalar(BaseType::String) },
        BuiltinFunction { name: "input.enum", signature: "input.enum(defval, title?, tooltip?, inline?, group?, confirm?, options?, display?, active?)", return_type: Type::scalar(BaseType::String) },
    ];
    assert(r@.map_values(|f: BuiltinFunction| f.model()) =~= entries());
    r
}

} // verus!
