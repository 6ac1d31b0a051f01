use vstd::prelude::*;

use crate::builtins::{BuiltinFunction, FunctionEntry};
#[allow(unused_imports)]
use crate::types::{BaseType, Type, TypeModel};

verus! {

/// The entries of this group, as values.
pub open spec fn entries() -> Seq<FunctionEntry> {
    seq![
        FunctionEntry { name: "strategy.closedtrades.entry_bar_index"@, signature: "strategy.closedtrades.entry_bar_index(trade_num)"@, return_type: TypeModel::Scalar(BaseType::Int) },
        FunctionEntry { name: "strategy.closedtrades.entry_comment"@, signature: "strategy.closedtrades.entry_comment(trade_num)"@, return_type: TypeModel::Scalar(BaseType::String) },
        FunctionEntry { name: "strategy.closedtrades.entry_id"@, signature: "strategy.closedtrades.entry_id(trade_num)"@, return_type: TypeModel::Scalar(BaseType::String) },
        FunctionEntry { name: "strategy.closedtrades.entry_price"@, signature: "strategy.closedtrades.entry_price(trade_num)"@, return_type: TypeModel::Scalar(BaseType::Float) },
        FunctionEntry { name: "strategy.closedtrades.entry_time"@, signature: "strategy.closedtrades.entry_time(trade_num)"@, return_type: TypeModel::Scalar(BaseType::Int) },
        FunctionEntry { name: "strategy.closedtrades.exit_bar_index"@, signature: "strategy.closedtrades.exit_bar_index(trade_num)"@, return_type: TypeModel::Scalar(BaseType::Int) },
        FunctionEntry { name: "strategy.closedtrades.exit_comment"@, signature: "strategy.closedtrades.exit_comment(trade_num)"@, return_type: TypeModel::Scalar(BaseType::String) },
        FunctionEntry { name: "strategy.closedtrades.exit_id"@, signature: "strategy.closedtrades.exit_id(trade_num)"@, return_type: TypeModel::Scalar(BaseType::String) },
        FunctionEntry { name: "strategy.closedtrades.exit_price"@, signature: "strategy.closedtrades.exit_price(trade_num)"@, return_type: TypeModel::Scalar(BaseType::Float) },
        FunctionEntry { name: "strategy.closedtrades.exit_time"@, signature: "strategy.closedtrades.exit_time(trade_num)"@, return_type: TypeModel::Scalar(BaseType::Int) },
        FunctionEntry { name: "strategy.closedtrades.commission"@, signature: "strategy.closedtrades.commission(trade_num)"@, return_type: TypeModel::Scalar(BaseType::Float) },
        FunctionEntry { name: "strategy.closedtrades.max_drawdown"@, signature: "strategy.closedtrades.max_drawdown(trade_num)"@, return_type: TypeModel::Scalar(BaseType::Float) },
        FunctionEntry { name: "strategy.closedtrades.max_runup"@, signature: "strategy.closedtrades.max_runup(trade_num)"@, return_type: TypeModel::Scalar(BaseType::Float) },
        FunctionEntry { name: "strategy.closedtrades.profit"@, signature: "strategy.closedtrades.profit(trade_num)"@, return_type: TypeModel::Scalar(BaseType::Float) },
        FunctionEntry { name: "strategy.closedtrades.profit_percent"@, signature: "strategy.closedtrades.profit_percent(trade_num)"@, return_type: TypeModel::Scalar(BaseType::Float) },
        FunctionEntry { name: "strategy.closedtrades.size"@, signature: "strategy.closedtrades.size(trade_num)"@, return_type: TypeModel::Scalar(BaseType::Float) },
    ]
}

/// The built-in functions of the `strategy / closed_trades` group.
pub fn list() -> (r: Vec<BuiltinFunction>)
    ensures
        r@.map_values(|f: BuiltinFunction| f.model()) == entries(),
{
    let r = vec![
        BuiltinFunction { name: "strategy.closedtrades.entry_bar_index", signature: "strategy.closedtrades.entry_bar_index(trade_num)", return_type: Type::scalar(BaseType::Int) },
        BuiltinFunction { name: "strategy.closedtrades.entry_comment", signature: "strategy.closedtrades.entry_comment(trade_num)", return_type: Type::scalar(BaseType::String) },
        BuiltinFunction { name: "strategy.closedtrades.entry_id", signature: "strategy.closedtrades.entry_id(trade_num)", return_type: Type::scalar(BaseType::String) },
        BuiltinFunction { name: "strategy.closedtrades.entry_price", signature: "strategy.closedtrades.entry_price(trade_num)", return_type: Type::scalar(BaseType::Float) },
        BuiltinFunction { name: "strategy.closedtrades.entry_time", signature: "strategy.closedtrades.entry_time(trade_num)", return_type: Type::scalar(BaseType::Int) },
        BuiltinFunction { name: "strategy.closedtrades.exit_bar_index", signature: "strategy.closedtrades.exit_bar_index(trade_num)", return_type: Type::scalar(BaseType::Int) },
        BuiltinFunction { name: "strategy.closedtrades.exit_comment", signature: "strategy.closedtrades.exit_comment(trade_num)", return_type: Type::scalar(BaseType::String) },
        BuiltinFunction { name: "strategy.closedtrades.exit_id", signature: "strategy.closedtrades.exit_id(trade_num)", return_type: Type::scalar(BaseType::String) },
        BuiltinFunction { name: "strategy.closedtrades.exit_price", signature: "strategy.closedtrades.exit_price(trade_num)", return_type: Type::scalar(BaseType::Float) },
        BuiltinFunction { name: "strategy.closedtrades.exit_time", signature: "strategy.closedtrades.exit_time(trade_num)", return_type: Type::scalar(BaseType::Int) },
        BuiltinFunction { name: "strategy.closedtrades.commission", signature: "strategy.closedtrades.commission(trade_num)", return_type: Type::scalar(BaseType::Float) },
        BuiltinFunction { name: "strategy.closedtrades.max_drawdown", signature: "strategy.closedtrades.max_drawdown(trade_num)", return_type: Type::scalar(BaseType::Float) },
        BuiltinFunction { name: "strategy.closedtrades.max_runup", signature: "strategy.closedtrades.max_runup(trade_num)", return_type: Type::scalar(BaseType::Float) },
        BuiltinFunction { name: "strategy.closedtrades.profit", signature: "strategy.closedtrades.profit(trade_num)", return_type: Type::scalar(BaseType::Float) },
        BuiltinFunction { name: "strategy.closedtrades.profit_percent", signature: "strategy.closedtrades.profit_percent(trade_num)", return_type: Type::scalar(BaseType::Float) },
        BuiltinFunction { name: "strategy.closedtrades.size", signature: "strategy.closedtrades.size(trade_num)", return_type: Type::scalar(BaseType::Float) },
    ];
    assert(r@.map_values(|f: BuiltinFunction| f.model()) =~= entries());
    r
}

} // verus!
