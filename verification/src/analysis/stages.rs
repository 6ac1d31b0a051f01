//! What each group of call checks does to the analyzer, one check after the
//! other: `a` is the analyzer before the group, `b` after it, and `s1`, `s2`,
//! ... the analyzer between two checks.

use vstd::prelude::*;

use crate::analysis::Analyzer;
use crate::analysis::args::CallArg;
use crate::analysis::checks::arrays::{array_bounds_diags, array_empty_diags, array_type_diags};
use crate::analysis::checks::collections::check_map_operations_effect;
use crate::analysis::checks::draw::check_deleted_draw_object_usage_effect;
use crate::analysis::checks::general::max_bars_after;
use crate::analysis::checks::input::input_range_diags;
use crate::analysis::checks::math::math_domain_diags;
use crate::analysis::checks::matrices::{
    matrix_bounds_diags, matrix_compat_diags, matrix_index_diags, matrix_swap_diags, matrix_type_diags, table_bounds_diags,
};
use crate::analysis::checks::orders::{
    alert_diags, closedtrades_diags, limit_stop_diags, position_management_diags, position_size_diags, price_diags,
    profit_loss_diags, quantity_diags, trail_diags,
};
use crate::analysis::checks::plot::{check_plot_style_consistency_effect, check_plot_title_effect, maybe_warn_repainting_effect};
use crate::analysis::checks::request::{expression_diags, format_diags, gaps_diags, lookahead_diags};
use crate::analysis::checks::strategy::{
    call_logic_diags, check_strategy_direction_conflict_effect, check_strategy_oca_conflicts_effect,
    record_strategy_order_id_effect, update_strategy_settings_effect,
};
use crate::analysis::checks::ta::{record_ta_length_effect, ta_param_diags};
use crate::analysis::checks::time::{chart_point_diags, session_diags, timeframe_call_diags};
use crate::analysis::checks::validation::{color_diags, na_usage_diags, string_na_diags};
use crate::analysis::Source;
use crate::position::Range;

verus! {

/// The `request.security` checks and the settings a call records: the
/// largest `max_bars_back`, the `strategy(...)` settings, then the
/// `lookahead` and `gaps` hints.
#[verifier::opaque]
pub open spec fn request_checks(
    a: Analyzer,
    s1: Analyzer,
    s2: Analyzer,
    s3: Analyzer,
    b: Analyzer,
    cx: Source,
    name: Seq<char>,
    args: Seq<CallArg>,
    range: Range,
) -> bool {
    &&& s1 == (Analyzer { max_bars_back: max_bars_after(a, cx, name, args), ..a })
    &&& update_strategy_settings_effect(s1, s2, cx, name, args, range)
    &&& Analyzer::appends(s2, s3, lookahead_diags(cx, name, args, range))
    &&& Analyzer::appends(s3, b, gaps_diags(cx, name, args, range))
}

/// The symbol, timeframe and expression of `request.security`, the range of
/// an input, and the strategy call logic.
#[verifier::opaque]
pub open spec fn input_checks(
    a: Analyzer,
    s1: Analyzer,
    s2: Analyzer,
    s3: Analyzer,
    b: Analyzer,
    cx: Source,
    name: Seq<char>,
    args: Seq<CallArg>,
    range: Range,
) -> bool {
    &&& Analyzer::appends(a, s1, format_diags(cx, name, args, range))
    &&& Analyzer::appends(s1, s2, expression_diags(cx, name, args, range))
    &&& Analyzer::appends(s2, s3, input_range_diags(cx, name, args))
    &&& Analyzer::appends(s3, b, call_logic_diags(s3, cx, name, args, range))
}

/// The order id of an entry, the directions of the entries, the OCA groups
/// and the quantity of an order.
#[verifier::opaque]
pub open spec fn order_checks(
    a: Analyzer,
    s1: Analyzer,
    s2: Analyzer,
    s3: Analyzer,
    b: Analyzer,
    cx: Source,
    name: Seq<char>,
    args: Seq<CallArg>,
    range: Range,
) -> bool {
    &&& record_strategy_order_id_effect(a, s1, cx, name, args, range)
    &&& check_strategy_direction_conflict_effect(s1, s2, cx, name, args, range)
    &&& check_strategy_oca_conflicts_effect(s2, s3, cx, name, args)
    &&& Analyzer::appends(s3, b, quantity_diags(cx, name, args))
}

/// The size, prices, limit and stop, and profit and loss of an order.
#[verifier::opaque]
pub open spec fn position_checks(
    a: Analyzer,
    s1: Analyzer,
    s2: Analyzer,
    s3: Analyzer,
    b: Analyzer,
    cx: Source,
    name: Seq<char>,
    args: Seq<CallArg>,
) -> bool {
    &&& Analyzer::appends(a, s1, position_size_diags(a, cx, name, args))
    &&& Analyzer::appends(s1, s2, price_diags(cx, name, args))
    &&& Analyzer::appends(s2, s3, limit_stop_diags(cx, name, args))
    &&& Analyzer::appends(s3, b, profit_loss_diags(cx, name, args))
}

/// The trailing stop, position management, alert message and
/// `strategy.closedtrades` index of a call.
#[verifier::opaque]
pub open spec fn exit_checks(
    a: Analyzer,
    s1: Analyzer,
    s2: Analyzer,
    s3: Analyzer,
    b: Analyzer,
    cx: Source,
    name: Seq<char>,
    args: Seq<CallArg>,
) -> bool {
    &&& Analyzer::appends(a, s1, trail_diags(cx, name, args))
    &&& Analyzer::appends(s1, s2, position_management_diags(s1, cx, name, args))
    &&& Analyzer::appends(s2, s3, alert_diags(cx, name, args))
    &&& Analyzer::appends(s3, b, closedtrades_diags(cx, name, args))
}

/// Timeframes, chart points, sessions, the domain of math functions and the
/// use of `na`.
#[verifier::opaque]
pub open spec fn format_checks(
    a: Analyzer,
    s1: Analyzer,
    s2: Analyzer,
    s3: Analyzer,
    s4: Analyzer,
    b: Analyzer,
    cx: Source,
    name: Seq<char>,
    args: Seq<CallArg>,
) -> bool {
    &&& Analyzer::appends(a, s1, timeframe_call_diags(cx, name, args))
    &&& Analyzer::appends(s1, s2, chart_point_diags(cx, name, args))
    &&& Analyzer::appends(s2, s3, session_diags(cx, name, args))
    &&& Analyzer::appends(s3, s4, math_domain_diags(cx, name, args))
    &&& Analyzer::appends(s4, b, na_usage_diags(cx, name, args))
}

/// `na` in string functions, the parameters of `ta.*` calls, the lengths
/// they are called with, and plot titles.
#[verifier::opaque]
pub open spec fn value_checks(
    a: Analyzer,
    s1: Analyzer,
    s2: Analyzer,
    s3: Analyzer,
    b: Analyzer,
    cx: Source,
    name: Seq<char>,
    args: Seq<CallArg>,
) -> bool {
    &&& Analyzer::appends(a, s1, string_na_diags(cx, name, args))
    &&& Analyzer::appends(s1, s2, ta_param_diags(cx, name, args))
    &&& record_ta_length_effect(s2, s3, cx, name, args)
    &&& check_plot_title_effect(s3, b, cx, name, args)
}

/// Plot styles, colors, deleted drawing objects, map operations and the
/// repainting hint.
#[verifier::opaque]
pub open spec fn plot_checks(
    a: Analyzer,
    s1: Analyzer,
    s2: Analyzer,
    s3: Analyzer,
    s4: Analyzer,
    b: Analyzer,
    cx: Source,
    name: Seq<char>,
    args: Seq<CallArg>,
) -> bool {
    &&& check_plot_style_consistency_effect(a, s1, cx, name, args)
    &&& Analyzer::appends(s1, s2, color_diags(cx, name, args))
    &&& check_deleted_draw_object_usage_effect(s2, s3, cx, name, args)
    &&& check_map_operations_effect(s3, s4, cx, name, args)
    &&& maybe_warn_repainting_effect(s4, b, cx, name, args)
}

/// The bounds checks of the array or matrix function `name`: from `a` to
/// `s1`, and on to `s2` for `array.remove`, which runs two of them.
#[verifier::opaque]
pub open spec fn bounds_checks(a: Analyzer, s1: Analyzer, s2: Analyzer, cx: Source, name: Seq<char>, args: Seq<CallArg>, range: Range) -> bool {
    if name == "array.get"@ || name == "array.set"@ {
        Analyzer::appends(a, s1, array_bounds_diags(a, cx, args, 1)) && s2 == s1
    } else if name == "array.pop"@ || name == "array.shift"@ {
        Analyzer::appends(a, s1, array_empty_diags(a, cx, args)) && s2 == s1
    } else if name == "array.remove"@ {
        Analyzer::appends(a, s1, array_bounds_diags(a, cx, args, 1)) && Analyzer::appends(s1, s2, array_empty_diags(s1, cx, args))
    } else if name == "matrix.get"@ || name == "matrix.set"@ {
        Analyzer::appends(a, s1, matrix_bounds_diags(a, cx, args, 1, 2)) && s2 == s1
    } else if name == "matrix.row"@ || name == "matrix.add_row"@ || name == "matrix.remove_row"@ {
        Analyzer::appends(a, s1, matrix_index_diags(a, cx, args, 1, true)) && s2 == s1
    } else if name == "matrix.col"@ || name == "matrix.add_col"@ || name == "matrix.remove_col"@ {
        Analyzer::appends(a, s1, matrix_index_diags(a, cx, args, 1, false)) && s2 == s1
    } else if name == "matrix.swap_rows"@ {
        Analyzer::appends(a, s1, matrix_swap_diags(a, cx, args, 1, 2, true)) && s2 == s1
    } else if name == "matrix.swap_columns"@ {
        Analyzer::appends(a, s1, matrix_swap_diags(a, cx, args, 1, 2, false)) && s2 == s1
    } else if name == "matrix.sum"@ || name == "matrix.diff"@ || name == "matrix.mult"@ || name == "matrix.concat"@ {
        Analyzer::appends(a, s1, matrix_compat_diags(a, cx, name, args, range)) && s2 == s1
    } else {
        s1 == a && s2 == a
    }
}

/// The collection checks of a call: its bounds, the element types of arrays
/// and matrices it writes, and the cells of tables.
#[verifier::opaque]
pub open spec fn collection_checks(
    a: Analyzer,
    s1: Analyzer,
    s2: Analyzer,
    s3: Analyzer,
    s4: Analyzer,
    b: Analyzer,
    cx: Source,
    name: Seq<char>,
    args: Seq<CallArg>,
    range: Range,
) -> bool {
    &&& bounds_checks(a, s1, s2, cx, name, args, range)
    &&& if name == "array.push"@ || name == "array.set"@ || name == "array.insert"@ || name == "array.unshift"@
        || name == "array.from"@ {
        Analyzer::appends(s2, s3, array_type_diags(s2, cx, name, args))
    } else {
        s3 == s2
    }
    &&& if name == "matrix.set"@ || name == "matrix.fill"@ {
        Analyzer::appends(s3, s4, matrix_type_diags(s3, cx, name, args))
    } else {
        s4 == s3
    }
    &&& Analyzer::appends(s4, b, table_bounds_diags(s4, cx, name, args))
}

/// `request_checks` holds through some states between `a` and `b`.
pub open spec fn requests_done(a: Analyzer, b: Analyzer, cx: Source, name: Seq<char>, args: Seq<CallArg>, range: Range) -> bool {
    exists|s1: Analyzer, s2: Analyzer, s3: Analyzer| #[trigger] request_checks(a, s1, s2, s3, b, cx, name, args, range)
}

/// `input_checks` holds through some states between `a` and `b`.
pub open spec fn inputs_done(a: Analyzer, b: Analyzer, cx: Source, name: Seq<char>, args: Seq<CallArg>, range: Range) -> bool {
    exists|s1: Analyzer, s2: Analyzer, s3: Analyzer| #[trigger] input_checks(a, s1, s2, s3, b, cx, name, args, range)
}

/// `order_checks` holds through some states between `a` and `b`.
pub open spec fn orders_done(a: Analyzer, b: Analyzer, cx: Source, name: Seq<char>, args: Seq<CallArg>, range: Range) -> bool {
    exists|s1: Analyzer, s2: Analyzer, s3: Analyzer| #[trigger] order_checks(a, s1, s2, s3, b, cx, name, args, range)
}

/// `position_checks` holds through some states between `a` and `b`.
pub open spec fn positions_done(a: Analyzer, b: Analyzer, cx: Source, name: Seq<char>, args: Seq<CallArg>) -> bool {
    exists|s1: Analyzer, s2: Analyzer, s3: Analyzer| #[trigger] position_checks(a, s1, s2, s3, b, cx, name, args)
}

/// `exit_checks` holds through some states between `a` and `b`.
pub open spec fn exits_done(a: Analyzer, b: Analyzer, cx: Source, name: Seq<char>, args: Seq<CallArg>) -> bool {
    exists|s1: Analyzer, s2: Analyzer, s3: Analyzer| #[trigger] exit_checks(a, s1, s2, s3, b, cx, name, args)
}

/// `format_checks` holds through some states between `a` and `b`.
pub open spec fn formats_done(a: Analyzer, b: Analyzer, cx: Source, name: Seq<char>, args: Seq<CallArg>) -> bool {
    exists|s1: Analyzer, s2: Analyzer, s3: Analyzer, s4: Analyzer| #[trigger] format_checks(a, s1, s2, s3, s4, b, cx, name, args)
}

/// `value_checks` holds through some states between `a` and `b`.
pub open spec fn values_done(a: Analyzer, b: Analyzer, cx: Source, name: Seq<char>, args: Seq<CallArg>) -> bool {
    exists|s1: Analyzer, s2: Analyzer, s3: Analyzer| #[trigger] value_checks(a, s1, s2, s3, b, cx, name, args)
}

/// `plot_checks` holds through some states between `a` and `b`.
pub open spec fn plots_done(a: Analyzer, b: Analyzer, cx: Source, name: Seq<char>, args: Seq<CallArg>) -> bool {
    exists|s1: Analyzer, s2: Analyzer, s3: Analyzer, s4: Analyzer| #[trigger] plot_checks(a, s1, s2, s3, s4, b, cx, name, args)
}

/// `collection_checks` holds through some states between `a` and `b`.
pub open spec fn collections_done(a: Analyzer, b: Analyzer, cx: Source, name: Seq<char>, args: Seq<CallArg>, range: Range) -> bool {
    exists|s1: Analyzer, s2: Analyzer, s3: Analyzer, s4: Analyzer| #[trigger] collection_checks(a, s1, s2, s3, s4, b, cx, name, args, range)
}

/// What a group of call checks leaves as it was: the definitions,
/// references, scopes, functions being declared and the call graph.
pub open spec fn checks_frame(a: Analyzer, b: Analyzer) -> bool {
    &&& b.definitions == a.definitions
    &&& b.references == a.references
    &&& b.scopes == a.scopes
    &&& b.function_stack == a.function_stack
    &&& b.function_calls == a.function_calls
    &&& b.condition_stack == a.condition_stack
}

} // verus!
