use vstd::prelude::*;

use crate::builtins::{BuiltinFunction, FunctionEntry};
#[allow(unused_imports)]
use crate::types::{BaseType, Type, TypeModel};

verus! {

/// The entries of this group, as values.
pub open spec fn entries() -> Seq<FunctionEntry> {
    seq![
        FunctionEntry { name: "strategy.entry"@, signature: "strategy.entry(id, direction, qty?, limit?, stop?, oca_name?, oca_type?, comment?, alert_message?, disable_alert?)"@, return_type: TypeModel::Scalar(BaseType::Void) },
        FunctionEntry { name: "strategy.exit"@, signature: "strategy.exit(id, from_entry?, qty?, qty_percent?, profit?, limit?, loss?, stop?, trail_price?, trail_points?, trail_offset?, oca_name?, comment?, comment_profit?, comment_loss?, comment_trailing?, alert_message?, alert_profit?, alert_loss?, alert_trailing?, disable_alert?)"@, return_type: TypeModel::Scalar(BaseType::Void) },
        FunctionEntry { name: "strategy.close"@, signature: "strategy.close(id, comment?, alert_message?, immediately?, disable_alert?)"@, return_type: TypeModel::Scalar(BaseType::Void) },
        FunctionEntry { name: "strategy.close_all"@, signature: "strategy.close_all(comment?, alert_message?, immediately?, disable_alert?)"@, return_type: TypeModel::Scalar(BaseType::Void) },
        FunctionEntry { name: "strategy.cancel"@, signature: "strategy.cancel(id)"@, return_type: TypeModel::Scalar(BaseType::Void) },
        FunctionEntry { name: "strategy.cancel_all"@, signature: "strategy.cancel_all()"@, return_type: TypeModel::Scalar(BaseType::Void) },
        FunctionEntry { name: "strategy.order"@, signature: "strategy.order(id, direction, qty?, limit?, stop?, oca_name?, oca_type?, comment?, alert_message?, disable_alert?)"@, return_type: TypeModel::Scalar(BaseType::Void) },
        FunctionEntry { name: "strategy.risk.allow_entry_in"@, signature: "strategy.risk.allow_entry_in(value)"@, return_type: TypeModel::Scalar(BaseType::Void) },
        FunctionEntry { name: "strategy.risk.max_cons_loss_days"@, signature: "strategy.risk.max_cons_loss_days(count)"@, return_type: TypeModel::Scalar(BaseType::Void) },
        FunctionEntry { name: "strategy.risk.max_drawdown"@, signature: "strategy.risk.max_drawdown(value, type)"@, return_type: TypeModel::Scalar(BaseType::Void) },
        FunctionEntry { name: "strategy.risk.max_intraday_filled_orders"@, signature: "strategy.risk.max_intraday_filled_orders(count)"@, return_type: TypeModel::Scalar(BaseType::Void) },
        FunctionEntry { name: "strategy.risk.max_intraday_loss"@, signature: "strategy.risk.max_intraday_loss(value, type)"@, return_type: TypeModel::Scalar(BaseType::Void) },
        FunctionEntry { name: "strategy.risk.max_position_size"@, signature: "strategy.risk.max_position_size(contracts)"@, return_type: TypeModel::Scalar(BaseType::Void) },
    ]
}

/// The built-in functions of the `strategy / trading` group.
pub fn list() -> (r: Vec<BuiltinFunction>)
    ensures
        r@.map_values(|f: BuiltinFunction| f.model()) == entries(),
{
    let r = vec![
        BuiltinFunction { name: "strategy.entry", signature: "strategy.entry(id, direction, qty?, limit?, stop?, oca_name?, oca_type?, comment?, alert_message?, disable_alert?)", return_type: Type::scalar(BaseType::Void) },
        BuiltinFunction { name: "strategy.exit", signature: "strategy.exit(id, from_entry?, qty?, qty_percent?, profit?, limit?, loss?, stop?, trail_price?, trail_points?, trail_offset?, oca_name?, comment?, comment_profit?, comment_loss?, comment_trailing?, alert_message?, alert_profit?, alert_loss?, alert_trailing?, disable_alert?)", return_type: Type::scalar(BaseType::Void) },
        BuiltinFunction { name: "strategy.close", signature: "strategy.close(id, comment?, alert_message?, immediately?, disable_alert?)", return_type: Type::scalar(BaseType::Void) },
        BuiltinFunction { name: "strategy.close_all", signature: "strategy.close_all(comment?, alert_message?, immediately?, disable_alert?)", return_type: Type::scalar(BaseType::Void) },
        BuiltinFunction { name: "strategy.cancel", signature: "strategy.cancel(id)", return_type: Type::scalar(BaseType::Void) },
        BuiltinFunction { name: "strategy.cancel_all", signature: "strategy.cancel_all()", return_type: Type::scalar(BaseType::Void) },
        BuiltinFunction { name: "strategy.order", signature: "strategy.order(id, direction, qty?, limit?, stop?, oca_name?, oca_type?, comment?, alert_message?, disable_alert?)", return_type: Type::scalar(BaseType::Void) },
        BuiltinFunction { name: "strategy.risk.allow_entry_in", signature: "strategy.risk.allow_entry_in(value)", return_type: Type::scalar(BaseType::Void) },
        BuiltinFunction { name: "strategy.risk.max_cons_loss_days", signature: "strategy.risk.max_cons_loss_days(count)", return_type: Type::scalar(BaseType::Void) },
        BuiltinFunction { name: "strategy.risk.max_drawdown", signature: "strategy.risk.max_drawdown(value, type)", return_type: Type::scalar(BaseType::Void) },
        BuiltinFunction { name: "strategy.risk.max_intraday_filled_orders", signature: "strategy.risk.max_intraday_filled_orders(count)", return_type: Type::scalar(BaseType::Void) },
        BuiltinFunction { name: "strategy.risk.max_intraday_loss", signature: "strategy.risk.max_intraday_loss(value, type)", return_type: Type::scalar(BaseType::Void) },
        BuiltinFunction { name: "strategy.risk.max_position_size", signature: "strategy.risk.max_position_size(contracts)", return_type: Type::scalar(BaseType::Void) },
    ];
    assert(r@.map_values(|f: BuiltinFunction| f.model()) =~= entries());
    r
}

} // verus!
