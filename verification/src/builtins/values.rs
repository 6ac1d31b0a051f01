//! The built-in variables and constants of Pine Script v6 with their types.

use vstd::prelude::*;

#[allow(unused_imports)]
use crate::types::{BaseType, Type, TypeModel};

verus! {

/// The built-in values, as values.
pub open spec fn entries() -> Seq<(Seq<char>, TypeModel)> {
    seq![
        ("open"@, TypeModel::Series(BaseType::Float)),
        ("high"@, TypeModel::Series(BaseType::Float)),
        ("low"@, TypeModel::Series(BaseType::Float)),
        ("close"@, TypeModel::Series(BaseType::Float)),
        ("volume"@, TypeModel::Series(BaseType::Float)),
        ("hl2"@, TypeModel::Series(BaseType::Float)),
        ("hlc3"@, TypeModel::Series(BaseType::Float)),
        ("ohlc4"@, TypeModel::Series(BaseType::Float)),
        ("hlcc4"@, TypeModel::Series(BaseType::Float)),
        ("time"@, TypeModel::Series(BaseType::Int)),
        ("time_close"@, TypeModel::Series(BaseType::Int)),
        ("time_tradingday"@, TypeModel::Series(BaseType::Int)),
        ("bar_index"@, TypeModel::Series(BaseType::Int)),
        ("last_bar_index"@, TypeModel::Series(BaseType::Int)),
        ("last_bar_time"@, TypeModel::Series(BaseType::Int)),
        ("timenow"@, TypeModel::Series(BaseType::Int)),
        ("dayofmonth"@, TypeModel::Series(BaseType::Int)),
        ("dayofweek"@, TypeModel::Series(BaseType::Int)),
        ("hour"@, TypeModel::Series(BaseType::Int)),
        ("minute"@, TypeModel::Series(BaseType::Int)),
        ("month"@, TypeModel::Series(BaseType::Int)),
        ("second"@, TypeModel::Series(BaseType::Int)),
        ("weekofyear"@, TypeModel::Series(BaseType::Int)),
        ("year"@, TypeModel::Series(BaseType::Int)),
        ("na"@, TypeModel::Unknown),
        ("barstate.isconfirmed"@, TypeModel::Series(BaseType::Bool)),
        ("barstate.isfirst"@, TypeModel::Series(BaseType::Bool)),
        ("barstate.ishistory"@, TypeModel::Series(BaseType::Bool)),
        ("barstate.islast"@, TypeModel::Series(BaseType::Bool)),
        ("barstate.islastconfirmedhistory"@, TypeModel::Series(BaseType::Bool)),
        ("barstate.isnew"@, TypeModel::Series(BaseType::Bool)),
        ("barstate.isrealtime"@, TypeModel::Series(BaseType::Bool)),
        ("session.isfirstbar"@, TypeModel::Series(BaseType::Bool)),
        ("session.isfirstbar_regular"@, TypeModel::Series(BaseType::Bool)),
        ("session.islastbar"@, TypeModel::Series(BaseType::Bool)),
        ("session.islastbar_regular"@, TypeModel::Series(BaseType::Bool)),
        ("session.ismarket"@, TypeModel::Series(BaseType::Bool)),
        ("session.ispostmarket"@, TypeModel::Series(BaseType::Bool)),
        ("session.ispremarket"@, TypeModel::Series(BaseType::Bool)),
        ("syminfo.basecurrency"@, TypeModel::Scalar(BaseType::String)),
        ("syminfo.country"@, TypeModel::Scalar(BaseType::String)),
        ("syminfo.currency"@, TypeModel::Scalar(BaseType::String)),
        ("syminfo.description"@, TypeModel::Scalar(BaseType::String)),
        ("syminfo.expiration_date"@, TypeModel::Scalar(BaseType::String)),
        ("syminfo.industry"@, TypeModel::Scalar(BaseType::String)),
        ("syminfo.isin"@, TypeModel::Scalar(BaseType::String)),
        ("syminfo.main_tickerid"@, TypeModel::Scalar(BaseType::String)),
        ("syminfo.prefix"@, TypeModel::Scalar(BaseType::String)),
        ("syminfo.root"@, TypeModel::Scalar(BaseType::String)),
        ("syminfo.sector"@, TypeModel::Scalar(BaseType::String)),
        ("syminfo.session"@, TypeModel::Scalar(BaseType::String)),
        ("syminfo.ticker"@, TypeModel::Scalar(BaseType::String)),
        ("syminfo.tickerid"@, TypeModel::Scalar(BaseType::String)),
        ("syminfo.timezone"@, TypeModel::Scalar(BaseType::String)),
        ("syminfo.type"@, TypeModel::Scalar(BaseType::String)),
        ("syminfo.volumetype"@, TypeModel::Scalar(BaseType::String)),
        ("syminfo.mincontract"@, TypeModel::Scalar(BaseType::Float)),
        ("syminfo.minmove"@, TypeModel::Scalar(BaseType::Float)),
        ("syminfo.mintick"@, TypeModel::Scalar(BaseType::Float)),
        ("syminfo.pointvalue"@, TypeModel::Scalar(BaseType::Float)),
        ("syminfo.pricescale"@, TypeModel::Scalar(BaseType::Float)),
        ("syminfo.shareholders"@, TypeModel::Scalar(BaseType::Float)),
        ("syminfo.shares_outstanding_float"@, TypeModel::Scalar(BaseType::Float)),
        ("syminfo.shares_outstanding_total"@, TypeModel::Scalar(BaseType::Float)),
        ("syminfo.target_price_average"@, TypeModel::Scalar(BaseType::Float)),
        ("syminfo.target_price_high"@, TypeModel::Scalar(BaseType::Float)),
        ("syminfo.target_price_low"@, TypeModel::Scalar(BaseType::Float)),
        ("syminfo.target_price_median"@, TypeModel::Scalar(BaseType::Float)),
        ("syminfo.recommendations_buy"@, TypeModel::Scalar(BaseType::Float)),
        ("syminfo.recommendations_sell"@, TypeModel::Scalar(BaseType::Float)),
        ("syminfo.recommendations_hold"@, TypeModel::Scalar(BaseType::Float)),
        ("syminfo.employees"@, TypeModel::Scalar(BaseType::Float)),
        ("timeframe.period"@, TypeModel::Scalar(BaseType::String)),
        ("timeframe.main_period"@, TypeModel::Scalar(BaseType::String)),
        ("timeframe.multiplier"@, TypeModel::Scalar(BaseType::Int)),
        ("timeframe.isdaily"@, TypeModel::Scalar(BaseType::Bool)),
        ("timeframe.isdwm"@, TypeModel::Scalar(BaseType::Bool)),
        ("timeframe.isintraday"@, TypeModel::Scalar(BaseType::Bool)),
        ("timeframe.isminutes"@, TypeModel::Scalar(BaseType::Bool)),
        ("timeframe.ismonthly"@, TypeModel::Scalar(BaseType::Bool)),
        ("timeframe.isseconds"@, TypeModel::Scalar(BaseType::Bool)),
        ("timeframe.isticks"@, TypeModel::Scalar(BaseType::Bool)),
        ("timeframe.isweekly"@, TypeModel::Scalar(BaseType::Bool)),
        ("chart.bg_color"@, TypeModel::Scalar(BaseType::Color)),
        ("chart.fg_color"@, TypeModel::Scalar(BaseType::Color)),
        ("chart.is_heikinashi"@, TypeModel::Scalar(BaseType::Bool)),
        ("chart.is_kagi"@, TypeModel::Scalar(BaseType::Bool)),
        ("chart.is_linebreak"@, TypeModel::Scalar(BaseType::Bool)),
        ("chart.is_pnf"@, TypeModel::Scalar(BaseType::Bool)),
        ("chart.is_range"@, TypeModel::Scalar(BaseType::Bool)),
        ("chart.is_renko"@, TypeModel::Scalar(BaseType::Bool)),
        ("chart.is_standard"@, TypeModel::Scalar(BaseType::Bool)),
        ("chart.left_visible_bar_time"@, TypeModel::Series(BaseType::Int)),
        ("chart.right_visible_bar_time"@, TypeModel::Series(BaseType::Int)),
        ("math.e"@, TypeModel::Scalar(BaseType::Float)),
        ("math.phi"@, TypeModel::Scalar(BaseType::Float)),
        ("math.pi"@, TypeModel::Scalar(BaseType::Float)),
        ("math.rphi"@, TypeModel::Scalar(BaseType::Float)),
        ("ta.accdist"@, TypeModel::Series(BaseType::Float)),
        ("ta.iii"@, TypeModel::Series(BaseType::Float)),
        ("ta.nvi"@, TypeModel::Series(BaseType::Float)),
        ("ta.obv"@, TypeModel::Series(BaseType::Float)),
        ("ta.pvi"@, TypeModel::Series(BaseType::Float)),
        ("ta.pvt"@, TypeModel::Series(BaseType::Float)),
        ("ta.tr"@, TypeModel::Series(BaseType::Float)),
        ("ta.vwap"@, TypeModel::Series(BaseType::Float)),
        ("ta.wad"@, TypeModel::Series(BaseType::Float)),
        ("ta.wvad"@, TypeModel::Series(BaseType::Float)),
        ("strategy.equity"@, TypeModel::Series(BaseType::Float)),
        ("strategy.grossloss"@, TypeModel::Series(BaseType::Float)),
        ("strategy.grossprofit"@, TypeModel::Series(BaseType::Float)),
        ("strategy.initial_capital"@, TypeModel::Series(BaseType::Float)),
        ("strategy.max_drawdown"@, TypeModel::Series(BaseType::Float)),
        ("strategy.max_runup"@, TypeModel::Series(BaseType::Float)),
        ("strategy.netprofit"@, TypeModel::Series(BaseType::Float)),
        ("strategy.openprofit"@, TypeModel::Series(BaseType::Float)),
        ("strategy.position_avg_price"@, TypeModel::Series(BaseType::Float)),
        ("strategy.position_size"@, TypeModel::Series(BaseType::Float)),
        ("strategy.margin_liquidation_price"@, TypeModel::Series(BaseType::Float)),
        ("strategy.avg_losing_trade"@, TypeModel::Series(BaseType::Float)),
        ("strategy.avg_trade"@, TypeModel::Series(BaseType::Float)),
        ("strategy.avg_winning_trade"@, TypeModel::Series(BaseType::Float)),
        ("strategy.closedtrades"@, TypeModel::Series(BaseType::Int)),
        ("strategy.opentrades"@, TypeModel::Series(BaseType::Int)),
        ("strategy.eventrades"@, TypeModel::Series(BaseType::Int)),
        ("strategy.losstrades"@, TypeModel::Series(BaseType::Int)),
        ("strategy.wintrades"@, TypeModel::Series(BaseType::Int)),
        ("strategy.max_contracts_held_all"@, TypeModel::Series(BaseType::Int)),
        ("strategy.max_contracts_held_long"@, TypeModel::Series(BaseType::Int)),
        ("strategy.max_contracts_held_short"@, TypeModel::Series(BaseType::Int)),
        ("strategy.position_entry_name"@, TypeModel::Series(BaseType::String)),
        ("strategy.account_currency"@, TypeModel::Series(BaseType::String)),
        ("strategy.long"@, TypeModel::Unknown),
        ("strategy.short"@, TypeModel::Unknown),
        ("strategy.fixed"@, TypeModel::Unknown),
        ("strategy.cash"@, TypeModel::Unknown),
        ("strategy.percent_of_equity"@, TypeModel::Unknown),
        ("strategy.direction.all"@, TypeModel::Unknown),
        ("strategy.direction.long"@, TypeModel::Unknown),
        ("strategy.direction.short"@, TypeModel::Unknown),
        ("strategy.oca.cancel"@, TypeModel::Unknown),
        ("strategy.oca.none"@, TypeModel::Unknown),
        ("strategy.oca.reduce"@, TypeModel::Unknown),
        ("strategy.commission.percent"@, TypeModel::Unknown),
        ("strategy.commission.cash_per_contract"@, TypeModel::Unknown),
        ("strategy.commission.cash_per_order"@, TypeModel::Unknown),
        ("color.aqua"@, TypeModel::Scalar(BaseType::Color)),
        ("color.black"@, TypeModel::Scalar(BaseType::Color)),
        ("color.blue"@, TypeModel::Scalar(BaseType::Color)),
        ("color.fuchsia"@, TypeModel::Scalar(BaseType::Color)),
        ("color.gray"@, TypeModel::Scalar(BaseType::Color)),
        ("color.green"@, TypeModel::Scalar(BaseType::Color)),
        ("color.lime"@, TypeModel::Scalar(BaseType::Color)),
        ("color.maroon"@, TypeModel::Scalar(BaseType::Color)),
        ("color.navy"@, TypeModel::Scalar(BaseType::Color)),
        ("color.olive"@, TypeModel::Scalar(BaseType::Color)),
        ("color.orange"@, TypeModel::Scalar(BaseType::Color)),
        ("color.purple"@, TypeModel::Scalar(BaseType::Color)),
        ("color.red"@, TypeModel::Scalar(BaseType::Color)),
        ("color.silver"@, TypeModel::Scalar(BaseType::Color)),
        ("color.teal"@, TypeModel::Scalar(BaseType::Color)),
        ("color.white"@, TypeModel::Scalar(BaseType::Color)),
        ("color.yellow"@, TypeModel::Scalar(BaseType::Color)),
        ("dayofweek.sunday"@, TypeModel::Scalar(BaseType::Int)),
        ("dayofweek.monday"@, TypeModel::Scalar(BaseType::Int)),
        ("dayofweek.tuesday"@, TypeModel::Scalar(BaseType::Int)),
        ("dayofweek.wednesday"@, TypeModel::Scalar(BaseType::Int)),
        ("dayofweek.thursday"@, TypeModel::Scalar(BaseType::Int)),
        ("dayofweek.friday"@, TypeModel::Scalar(BaseType::Int)),
        ("dayofweek.saturday"@, TypeModel::Scalar(BaseType::Int)),
        ("plot.style_area"@, TypeModel::Unknown),
        ("plot.style_areabr"@, TypeModel::Unknown),
        ("plot.style_circles"@, TypeModel::Unknown),
        ("plot.style_columns"@, TypeModel::Unknown),
        ("plot.style_cross"@, TypeModel::Unknown),
        ("plot.style_histogram"@, TypeModel::Unknown),
        ("plot.style_line"@, TypeModel::Unknown),
        ("plot.style_linebr"@, TypeModel::Unknown),
        ("plot.style_stepline"@, TypeModel::Unknown),
        ("plot.style_stepline_diamond"@, TypeModel::Unknown),
        ("plot.style_steplinebr"@, TypeModel::Unknown),
        ("plot.linestyle_solid"@, TypeModel::Unknown),
        ("plot.linestyle_dashed"@, TypeModel::Unknown),
        ("plot.linestyle_dotted"@, TypeModel::Unknown),
        ("hline.style_dashed"@, TypeModel::Unknown),
        ("hline.style_dotted"@, TypeModel::Unknown),
        ("hline.style_solid"@, TypeModel::Unknown),
        ("line.style_arrow_both"@, TypeModel::Unknown),
        ("line.style_arrow_left"@, TypeModel::Unknown),
        ("line.style_arrow_right"@, TypeModel::Unknown),
        ("line.style_dashed"@, TypeModel::Unknown),
        ("line.style_dotted"@, TypeModel::Unknown),
        ("line.style_solid"@, TypeModel::Unknown),
        ("label.style_arrowdown"@, TypeModel::Unknown),
        ("label.style_arrowup"@, TypeModel::Unknown),
        ("label.style_circle"@, TypeModel::Unknown),
        ("label.style_cross"@, TypeModel::Unknown),
        ("label.style_diamond"@, TypeModel::Unknown),
        ("label.style_flag"@, TypeModel::Unknown),
        ("label.style_label_center"@, TypeModel::Unknown),
        ("label.style_label_down"@, TypeModel::Unknown),
        ("label.style_label_left"@, TypeModel::Unknown),
        ("label.style_label_lower_left"@, TypeModel::Unknown),
        ("label.style_label_lower_right"@, TypeModel::Unknown),
        ("label.style_label_right"@, TypeModel::Unknown),
        ("label.style_label_up"@, TypeModel::Unknown),
        ("label.style_label_upper_left"@, TypeModel::Unknown),
        ("label.style_label_upper_right"@, TypeModel::Unknown),
        ("label.style_none"@, TypeModel::Unknown),
        ("label.style_square"@, TypeModel::Unknown),
        ("label.style_text_outline"@, TypeModel::Unknown),
        ("label.style_triangledown"@, TypeModel::Unknown),
        ("label.style_triangleup"@, TypeModel::Unknown),
        ("label.style_xcross"@, TypeModel::Unknown),
        ("shape.arrowdown"@, TypeModel::Unknown),
        ("shape.arrowup"@, TypeModel::Unknown),
        ("shape.circle"@, TypeModel::Unknown),
        ("shape.cross"@, TypeModel::Unknown),
        ("shape.diamond"@, TypeModel::Unknown),
        ("shape.flag"@, TypeModel::Unknown),
        ("shape.labeldown"@, TypeModel::Unknown),
        ("shape.labelup"@, TypeModel::Unknown),
        ("shape.square"@, TypeModel::Unknown),
        ("shape.triangledown"@, TypeModel::Unknown),
        ("shape.triangleup"@, TypeModel::Unknown),
        ("shape.xcross"@, TypeModel::Unknown),
        ("location.abovebar"@, TypeModel::Unknown),
        ("location.absolute"@, TypeModel::Unknown),
        ("location.belowbar"@, TypeModel::Unknown),
        ("location.bottom"@, TypeModel::Unknown),
        ("location.top"@, TypeModel::Unknown),
        ("size.auto"@, TypeModel::Unknown),
        ("size.huge"@, TypeModel::Unknown),
        ("size.large"@, TypeModel::Unknown),
        ("size.normal"@, TypeModel::Unknown),
        ("size.small"@, TypeModel::Unknown),
        ("size.tiny"@, TypeModel::Unknown),
        ("text.align_bottom"@, TypeModel::Unknown),
        ("text.align_center"@, TypeModel::Unknown),
        ("text.align_left"@, TypeModel::Unknown),
        ("text.align_right"@, TypeModel::Unknown),
        ("text.align_top"@, TypeModel::Unknown),
        ("text.wrap_auto"@, TypeModel::Unknown),
        ("text.wrap_none"@, TypeModel::Unknown),
        ("text.format_bold"@, TypeModel::Unknown),
        ("text.format_italic"@, TypeModel::Unknown),
        ("text.format_none"@, TypeModel::Unknown),
        ("font.family_default"@, TypeModel::Unknown),
        ("font.family_monospace"@, TypeModel::Unknown),
        ("position.bottom_center"@, TypeModel::Unknown),
        ("position.bottom_left"@, TypeModel::Unknown),
        ("position.bottom_right"@, TypeModel::Unknown),
        ("position.middle_center"@, TypeModel::Unknown),
        ("position.middle_left"@, TypeModel::Unknown),
        ("position.middle_right"@, TypeModel::Unknown),
        ("position.top_center"@, TypeModel::Unknown),
        ("position.top_left"@, TypeModel::Unknown),
        ("position.top_right"@, TypeModel::Unknown),
        ("extend.both"@, TypeModel::Unknown),
        ("extend.left"@, TypeModel::Unknown),
        ("extend.none"@, TypeModel::Unknown),
        ("extend.right"@, TypeModel::Unknown),
        ("xloc.bar_index"@, TypeModel::Unknown),
        ("xloc.bar_time"@, TypeModel::Unknown),
        ("yloc.abovebar"@, TypeModel::Unknown),
        ("yloc.belowbar"@, TypeModel::Unknown),
        ("yloc.price"@, TypeModel::Unknown),
        ("display.all"@, TypeModel::Unknown),
        ("display.data_window"@, TypeModel::Unknown),
        ("display.none"@, TypeModel::Unknown),
        ("display.pane"@, TypeModel::Unknown),
        ("display.price_scale"@, TypeModel::Unknown),
        ("display.status_line"@, TypeModel::Unknown),
        ("display.pine_screener"@, TypeModel::Unknown),
        ("barmerge.gaps_off"@, TypeModel::Unknown),
        ("barmerge.gaps_on"@, TypeModel::Unknown),
        ("barmerge.lookahead_off"@, TypeModel::Unknown),
        ("barmerge.lookahead_on"@, TypeModel::Unknown),
        ("format.inherit"@, TypeModel::Unknown),
        ("format.mintick"@, TypeModel::Unknown),
        ("format.percent"@, TypeModel::Unknown),
        ("format.price"@, TypeModel::Unknown),
        ("format.volume"@, TypeModel::Unknown),
        ("scale.left"@, TypeModel::Unknown),
        ("scale.none"@, TypeModel::Unknown),
        ("scale.right"@, TypeModel::Unknown),
        ("order.ascending"@, TypeModel::Unknown),
        ("order.descending"@, TypeModel::Unknown),
        ("alert.freq_all"@, TypeModel::Unknown),
        ("alert.freq_once_per_bar"@, TypeModel::Unknown),
        ("alert.freq_once_per_bar_close"@, TypeModel::Unknown),
        ("currency.AUD"@, TypeModel::Unknown),
        ("currency.BTC"@, TypeModel::Unknown),
        ("currency.CAD"@, TypeModel::Unknown),
        ("currency.CHF"@, TypeModel::Unknown),
        ("currency.ETH"@, TypeModel::Unknown),
        ("currency.EUR"@, TypeModel::Unknown),
        ("currency.GBP"@, TypeModel::Unknown),
        ("currency.HKD"@, TypeModel::Unknown),
        ("currency.INR"@, TypeModel::Unknown),
        ("currency.JPY"@, TypeModel::Unknown),
        ("currency.KRW"@, TypeModel::Unknown),
        ("currency.NOK"@, TypeModel::Unknown),
        ("currency.NONE"@, TypeModel::Unknown),
        ("currency.NZD"@, TypeModel::Unknown),
        ("currency.RUB"@, TypeModel::Unknown),
        ("currency.SEK"@, TypeModel::Unknown),
        ("currency.SGD"@, TypeModel::Unknown),
        ("currency.TRY"@, TypeModel::Unknown),
        ("currency.USD"@, TypeModel::Unknown),
        ("currency.USDT"@, TypeModel::Unknown),
        ("currency.ZAR"@, TypeModel::Unknown),
        ("adjustment.dividends"@, TypeModel::Unknown),
        ("adjustment.none"@, TypeModel::Unknown),
        ("adjustment.splits"@, TypeModel::Unknown),
        ("backadjustment.inherit"@, TypeModel::Unknown),
        ("backadjustment.off"@, TypeModel::Unknown),
        ("backadjustment.on"@, TypeModel::Unknown),
        ("settlement_as_close.inherit"@, TypeModel::Unknown),
        ("settlement_as_close.off"@, TypeModel::Unknown),
        ("settlement_as_close.on"@, TypeModel::Unknown),
        ("session.extended"@, TypeModel::Unknown),
        ("session.regular"@, TypeModel::Unknown),
        ("dividends.gross"@, TypeModel::Unknown),
        ("dividends.net"@, TypeModel::Unknown),
        ("dividends.future_amount"@, TypeModel::Unknown),
        ("dividends.future_ex_date"@, TypeModel::Unknown),
        ("dividends.future_pay_date"@, TypeModel::Unknown),
        ("earnings.actual"@, TypeModel::Unknown),
        ("earnings.estimate"@, TypeModel::Unknown),
        ("earnings.standardized"@, TypeModel::Unknown),
        ("earnings.future_eps"@, TypeModel::Unknown),
        ("earnings.future_period_end_time"@, TypeModel::Unknown),
        ("earnings.future_revenue"@, TypeModel::Unknown),
        ("earnings.future_time"@, TypeModel::Unknown),
        ("splits.denominator"@, TypeModel::Unknown),
        ("splits.numerator"@, TypeModel::Unknown),
    ]
}

/// The built-in variables and constants with their types.
pub fn builtin_values() -> (r: Vec<(&'static str, Type)>)
    ensures
        r@.map_values(|e: (&'static str, Type)| (e.0@, e.1.model())) == entries(),
{
    let r = vec![
        ("open", Type::series(BaseType::Float)),
        ("high", Type::series(BaseType::Float)),
        ("low", Type::series(BaseType::Float)),
        ("close", Type::series(BaseType::Float)),
        ("volume", Type::series(BaseType::Float)),
        ("hl2", Type::series(BaseType::Float)),
        ("hlc3", Type::series(BaseType::Float)),
        ("ohlc4", Type::series(BaseType::Float)),
        ("hlcc4", Type::series(BaseType::Float)),
        ("time", Type::series(BaseType::Int)),
        ("time_close", Type::series(BaseType::Int)),
        ("time_tradingday", Type::series(BaseType::Int)),
        ("bar_index", Type::series(BaseType::Int)),
        ("last_bar_index", Type::series(BaseType::Int)),
        ("last_bar_time", Type::series(BaseType::Int)),
        ("timenow", Type::series(BaseType::Int)),
        ("dayofmonth", Type::series(BaseType::Int)),
        ("dayofweek", Type::series(BaseType::Int)),
        ("hour", Type::series(BaseType::Int)),
        ("minute", Type::series(BaseType::Int)),
        ("month", Type::series(BaseType::Int)),
        ("second", Type::series(BaseType::Int)),
        ("weekofyear", Type::series(BaseType::Int)),
        ("year", Type::series(BaseType::Int)),
        ("na", Type::unknown()),
        ("barstate.isconfirmed", Type::series(BaseType::Bool)),
        ("barstate.isfirst", Type::series(BaseType::Bool)),
        ("barstate.ishistory", Type::series(BaseType::Bool)),
        ("barstate.islast", Type::series(BaseType::Bool)),
        ("barstate.islastconfirmedhistory", Type::series(BaseType::Bool)),
        ("barstate.isnew", Type::series(BaseType::Bool)),
        ("barstate.isrealtime", Type::series(BaseType::Bool)),
        ("session.isfirstbar", Type::series(BaseType::Bool)),
        ("session.isfirstbar_regular", Type::series(BaseType::Bool)),
        ("session.islastbar", Type::series(BaseType::Bool)),
        ("session.islastbar_regular", Type::series(BaseType::Bool)),
        ("session.ismarket", Type::series(BaseType::Bool)),
        ("session.ispostmarket", Type::series(BaseType::Bool)),
        ("session.ispremarket", Type::series(BaseType::Bool)),
        ("syminfo.basecurrency", Type::scalar(BaseType::String)),
        ("syminfo.country", Type::scalar(BaseType::String)),
        ("syminfo.currency", Type::scalar(BaseType::String)),
        ("syminfo.description", Type::scalar(BaseType::String)),
        ("syminfo.expiration_date", Type::scalar(BaseType::String)),
        ("syminfo.industry", Type::scalar(BaseType::String)),
        ("syminfo.isin", Type::scalar(BaseType::String)),
        ("syminfo.main_tickerid", Type::scalar(BaseType::String)),
        ("syminfo.prefix", Type::scalar(BaseType::String)),
        ("syminfo.root", Type::scalar(BaseType::String)),
        ("syminfo.sector", Type::scalar(BaseType::String)),
        ("syminfo.session", Type::scalar(BaseType::String)),
        ("syminfo.ticker", Type::scalar(BaseType::String)),
        ("syminfo.tickerid", Type::scalar(BaseType::String)),
        ("syminfo.timezone", Type::scalar(BaseType::String)),
        ("syminfo.type", Type::scalar(BaseType::String)),
        ("syminfo.volumetype", Type::scalar(BaseType::String)),
        ("syminfo.mincontract", Type::scalar(BaseType::Float)),
        ("syminfo.minmove", Type::scalar(BaseType::Float)),
        ("syminfo.mintick", Type::scalar(BaseType::Float)),
        ("syminfo.pointvalue", Type::scalar(BaseType::Float)),
        ("syminfo.pricescale", Type::scalar(BaseType::Float)),
        ("syminfo.shareholders", Type::scalar(BaseType::Float)),
        ("syminfo.shares_outstanding_float", Type::scalar(BaseType::Float)),
        ("syminfo.shares_outstanding_total", Type::scalar(BaseType::Float)),
        ("syminfo.target_price_average", Type::scalar(BaseType::Float)),
        ("syminfo.target_price_high", Type::scalar(BaseType::Float)),
        ("syminfo.target_price_low", Type::scalar(BaseType::Float)),
        ("syminfo.target_price_median", Type::scalar(BaseType::Float)),
        ("syminfo.recommendations_buy", Type::scalar(BaseType::Float)),
        ("syminfo.recommendations_sell", Type::scalar(BaseType::Float)),
        ("syminfo.recommendations_hold", Type::scalar(BaseType::Float)),
        ("syminfo.employees", Type::scalar(BaseType::Float)),
        ("timeframe.period", Type::scalar(BaseType::String)),
        ("timeframe.main_period", Type::scalar(BaseType::String)),
        ("timeframe.multiplier", Type::scalar(BaseType::Int)),
        ("timeframe.isdaily", Type::scalar(BaseType::Bool)),
        ("timeframe.isdwm", Type::scalar(BaseType::Bool)),
        ("timeframe.isintraday", Type::scalar(BaseType::Bool)),
        ("timeframe.isminutes", Type::scalar(BaseType::Bool)),
        ("timeframe.ismonthly", Type::scalar(BaseType::Bool)),
        ("timeframe.isseconds", Type::scalar(BaseType::Bool)),
        ("timeframe.isticks", Type::scalar(BaseType::Bool)),
        ("timeframe.isweekly", Type::scalar(BaseType::Bool)),
        ("chart.bg_color", Type::scalar(BaseType::Color)),
        ("chart.fg_color", Type::scalar(BaseType::Color)),
        ("chart.is_heikinashi", Type::scalar(BaseType::Bool)),
        ("chart.is_kagi", Type::scalar(BaseType::Bool)),
        ("chart.is_linebreak", Type::scalar(BaseType::Bool)),
        ("chart.is_pnf", Type::scalar(BaseType::Bool)),
        ("chart.is_range", Type::scalar(BaseType::Bool)),
        ("chart.is_renko", Type::scalar(BaseType::Bool)),
        ("chart.is_standard", Type::scalar(BaseType::Bool)),
        ("chart.left_visible_bar_time", Type::series(BaseType::Int)),
        ("chart.right_visible_bar_time", Type::series(BaseType::Int)),
        ("math.e", Type::scalar(BaseType::Float)),
        ("math.phi", Type::scalar(BaseType::Float)),
        ("math.pi", Type::scalar(BaseType::Float)),
        ("math.rphi", Type::scalar(BaseType::Float)),
        ("ta.accdist", Type::series(BaseType::Float)),
        ("ta.iii", Type::series(BaseType::Float)),
        ("ta.nvi", Type::series(BaseType::Float)),
        ("ta.obv", Type::series(BaseType::Float)),
        ("ta.pvi", Type::series(BaseType::Float)),
        ("ta.pvt", Type::series(BaseType::Float)),
        ("ta.tr", Type::series(BaseType::Float)),
        ("ta.vwap", Type::series(BaseType::Float)),
        ("ta.wad", Type::series(BaseType::Float)),
        ("ta.wvad", Type::series(BaseType::Float)),
        ("strategy.equity", Type::series(BaseType::Float)),
        ("strategy.grossloss", Type::series(BaseType::Float)),
        ("strategy.grossprofit", Type::series(BaseType::Float)),
        ("strategy.initial_capital", Type::series(BaseType::Float)),
        ("strategy.max_drawdown", Type::series(BaseType::Float)),
        ("strategy.max_runup", Type::series(BaseType::Float)),
        ("strategy.netprofit", Type::series(BaseType::Float)),
        ("strategy.openprofit", Type::series(BaseType::Float)),
        ("strategy.position_avg_price", Type::series(BaseType::Float)),
        ("strategy.position_size", Type::series(BaseType::Float)),
        ("strategy.margin_liquidation_price", Type::series(BaseType::Float)),
        ("strategy.avg_losing_trade", Type::series(BaseType::Float)),
        ("strategy.avg_trade", Type::series(BaseType::Float)),
        ("strategy.avg_winning_trade", Type::series(BaseType::Float)),
        ("strategy.closedtrades", Type::series(BaseType::Int)),
        ("strategy.opentrades", Type::series(BaseType::Int)),
        ("strategy.eventrades", Type::series(BaseType::Int)),
        ("strategy.losstrades", Type::series(BaseType::Int)),
        ("strategy.wintrades", Type::series(BaseType::Int)),
        ("strategy.max_contracts_held_all", Type::series(BaseType::Int)),
        ("strategy.max_contracts_held_long", Type::series(BaseType::Int)),
        ("strategy.max_contracts_held_short", Type::series(BaseType::Int)),
        ("strategy.position_entry_name", Type::series(BaseType::String)),
        ("strategy.account_currency", Type::series(BaseType::String)),
        ("strategy.long", Type::unknown()),
        ("strategy.short", Type::unknown()),
        ("strategy.fixed", Type::unknown()),
        ("strategy.cash", Type::unknown()),
        ("strategy.percent_of_equity", Type::unknown()),
        ("strategy.direction.all", Type::unknown()),
        ("strategy.direction.long", Type::unknown()),
        ("strategy.direction.short", Type::unknown()),
        ("strategy.oca.cancel", Type::unknown()),
        ("strategy.oca.none", Type::unknown()),
        ("strategy.oca.reduce", Type::unknown()),
        ("strategy.commission.percent", Type::unknown()),
        ("strategy.commission.cash_per_contract", Type::unknown()),
        ("strategy.commission.cash_per_order", Type::unknown()),
        ("color.aqua", Type::scalar(BaseType::Color)),
        ("color.black", Type::scalar(BaseType::Color)),
        ("color.blue", Type::scalar(BaseType::Color)),
        ("color.fuchsia", Type::scalar(BaseType::Color)),
        ("color.gray", Type::scalar(BaseType::Color)),
        ("color.green", Type::scalar(BaseType::Color)),
        ("color.lime", Type::scalar(BaseType::Color)),
        ("color.maroon", Type::scalar(BaseType::Color)),
        ("color.navy", Type::scalar(BaseType::Color)),
        ("color.olive", Type::scalar(BaseType::Color)),
        ("color.orange", Type::scalar(BaseType::Color)),
        ("color.purple", Type::scalar(BaseType::Color)),
        ("color.red", Type::scalar(BaseType::Color)),
        ("color.silver", Type::scalar(BaseType::Color)),
        ("color.teal", Type::scalar(BaseType::Color)),
        ("color.white", Type::scalar(BaseType::Color)),
        ("color.yellow", Type::scalar(BaseType::Color)),
        ("dayofweek.sunday", Type::scalar(BaseType::Int)),
        ("dayofweek.monday", Type::scalar(BaseType::Int)),
        ("dayofweek.tuesday", Type::scalar(BaseType::Int)),
        ("dayofweek.wednesday", Type::scalar(BaseType::Int)),
        ("dayofweek.thursday", Type::scalar(BaseType::Int)),
        ("dayofweek.friday", Type::scalar(BaseType::Int)),
        ("dayofweek.saturday", Type::scalar(BaseType::Int)),
        ("plot.style_area", Type::unknown()),
        ("plot.style_areabr", Type::unknown()),
        ("plot.style_circles", Type::unknown()),
        ("plot.style_columns", Type::unknown()),
        ("plot.style_cross", Type::unknown()),
        ("plot.style_histogram", Type::unknown()),
        ("plot.style_line", Type::unknown()),
        ("plot.style_linebr", Type::unknown()),
        ("plot.style_stepline", Type::unknown()),
        ("plot.style_stepline_diamond", Type::unknown()),
        ("plot.style_steplinebr", Type::unknown()),
        ("plot.linestyle_solid", Type::unknown()),
        ("plot.linestyle_dashed", Type::unknown()),
        ("plot.linestyle_dotted", Type::unknown()),
        ("hline.style_dashed", Type::unknown()),
        ("hline.style_dotted", Type::unknown()),
        ("hline.style_solid", Type::unknown()),
        ("line.style_arrow_both", Type::unknown()),
        ("line.style_arrow_left", Type::unknown()),
        ("line.style_arrow_right", Type::unknown()),
        ("line.style_dashed", Type::unknown()),
        ("line.style_dotted", Type::unknown()),
        ("line.style_solid", Type::unknown()),
        ("label.style_arrowdown", Type::unknown()),
        ("label.style_arrowup", Type::unknown()),
        ("label.style_circle", Type::unknown()),
        ("label.style_cross", Type::unknown()),
        ("label.style_diamond", Type::unknown()),
        ("label.style_flag", Type::unknown()),
        ("label.style_label_center", Type::unknown()),
        ("label.style_label_down", Type::unknown()),
        ("label.style_label_left", Type::unknown()),
        ("label.style_label_lower_left", Type::unknown()),
        ("label.style_label_lower_right", Type::unknown()),
        ("label.style_label_right", Type::unknown()),
        ("label.style_label_up", Type::unknown()),
        ("label.style_label_upper_left", Type::unknown()),
        ("label.style_label_upper_right", Type::unknown()),
        ("label.style_none", Type::unknown()),
        ("label.style_square", Type::unknown()),
        ("label.style_text_outline", Type::unknown()),
        ("label.style_triangledown", Type::unknown()),
        ("label.style_triangleup", Type::unknown()),
        ("label.style_xcross", Type::unknown()),
        ("shape.arrowdown", Type::unknown()),
        ("shape.arrowup", Type::unknown()),
        ("shape.circle", Type::unknown()),
        ("shape.cross", Type::unknown()),
        ("shape.diamond", Type::unknown()),
        ("shape.flag", Type::unknown()),
        ("shape.labeldown", Type::unknown()),
        ("shape.labelup", Type::unknown()),
        ("shape.square", Type::unknown()),
        ("shape.triangledown", Type::unknown()),
        ("shape.triangleup", Type::unknown()),
        ("shape.xcross", Type::unknown()),
        ("location.abovebar", Type::unknown()),
        ("location.absolute", Type::unknown()),
        ("location.belowbar", Type::unknown()),
        ("location.bottom", Type::unknown()),
        ("location.top", Type::unknown()),
        ("size.auto", Type::unknown()),
        ("size.huge", Type::unknown()),
        ("size.large", Type::unknown()),
        ("size.normal", Type::unknown()),
        ("size.small", Type::unknown()),
        ("size.tiny", Type::unknown()),
        ("text.align_bottom", Type::unknown()),
        ("text.align_center", Type::unknown()),
        ("text.align_left", Type::unknown()),
        ("text.align_right", Type::unknown()),
        ("text.align_top", Type::unknown()),
        ("text.wrap_auto", Type::unknown()),
        ("text.wrap_none", Type::unknown()),
        ("text.format_bold", Type::unknown()),
        ("text.format_italic", Type::unknown()),
        ("text.format_none", Type::unknown()),
        ("font.family_default", Type::unknown()),
        ("font.family_monospace", Type::unknown()),
        ("position.bottom_center", Type::unknown()),
        ("position.bottom_left", Type::unknown()),
        ("position.bottom_right", Type::unknown()),
        ("position.middle_center", Type::unknown()),
        ("position.middle_left", Type::unknown()),
        ("position.middle_right", Type::unknown()),
        ("position.top_center", Type::unknown()),
        ("position.top_left", Type::unknown()),
        ("position.top_right", Type::unknown()),
        ("extend.both", Type::unknown()),
        ("extend.left", Type::unknown()),
        ("extend.none", Type::unknown()),
        ("extend.right", Type::unknown()),
        ("xloc.bar_index", Type::unknown()),
        ("xloc.bar_time", Type::unknown()),
        ("yloc.abovebar", Type::unknown()),
        ("yloc.belowbar", Type::unknown()),
        ("yloc.price", Type::unknown()),
        ("display.all", Type::unknown()),
        ("display.data_window", Type::unknown()),
        ("display.none", Type::unknown()),
        ("display.pane", Type::unknown()),
        ("display.price_scale", Type::unknown()),
        ("display.status_line", Type::unknown()),
        ("display.pine_screener", Type::unknown()),
        ("barmerge.gaps_off", Type::unknown()),
        ("barmerge.gaps_on", Type::unknown()),
        ("barmerge.lookahead_off", Type::unknown()),
        ("barmerge.lookahead_on", Type::unknown()),
        ("format.inherit", Type::unknown()),
        ("format.mintick", Type::unknown()),
        ("format.percent", Type::unknown()),
        ("format.price", Type::unknown()),
        ("format.volume", Type::unknown()),
        ("scale.left", Type::unknown()),
        ("scale.none", Type::unknown()),
        ("scale.right", Type::unknown()),
        ("order.ascending", Type::unknown()),
        ("order.descending", Type::unknown()),
        ("alert.freq_all", Type::unknown()),
        ("alert.freq_once_per_bar", Type::unknown()),
        ("alert.freq_once_per_bar_close", Type::unknown()),
        ("currency.AUD", Type::unknown()),
        ("currency.BTC", Type::unknown()),
        ("currency.CAD", Type::unknown()),
        ("currency.CHF", Type::unknown()),
        ("currency.ETH", Type::unknown()),
        ("currency.EUR", Type::unknown()),
        ("currency.GBP", Type::unknown()),
        ("currency.HKD", Type::unknown()),
        ("currency.INR", Type::unknown()),
        ("currency.JPY", Type::unknown()),
        ("currency.KRW", Type::unknown()),
        ("currency.NOK", Type::unknown()),
        ("currency.NONE", Type::unknown()),
        ("currency.NZD", Type::unknown()),
        ("currency.RUB", Type::unknown()),
        ("currency.SEK", Type::unknown()),
        ("currency.SGD", Type::unknown()),
        ("currency.TRY", Type::unknown()),
        ("currency.USD", Type::unknown()),
        ("currency.USDT", Type::unknown()),
        ("currency.ZAR", Type::unknown()),
        ("adjustment.dividends", Type::unknown()),
        ("adjustment.none", Type::unknown()),
        ("adjustment.splits", Type::unknown()),
        ("backadjustment.inherit", Type::unknown()),
        ("backadjustment.off", Type::unknown()),
        ("backadjustment.on", Type::unknown()),
        ("settlement_as_close.inherit", Type::unknown()),
        ("settlement_as_close.off", Type::unknown()),
        ("settlement_as_close.on", Type::unknown()),
        ("session.extended", Type::unknown()),
        ("session.regular", Type::unknown()),
        ("dividends.gross", Type::unknown()),
        ("dividends.net", Type::unknown()),
        ("dividends.future_amount", Type::unknown()),
        ("dividends.future_ex_date", Type::unknown()),
        ("dividends.future_pay_date", Type::unknown()),
        ("earnings.actual", Type::unknown()),
        ("earnings.estimate", Type::unknown()),
        ("earnings.standardized", Type::unknown()),
        ("earnings.future_eps", Type::unknown()),
        ("earnings.future_period_end_time", Type::unknown()),
        ("earnings.future_revenue", Type::unknown()),
        ("earnings.future_time", Type::unknown()),
        ("splits.denominator", Type::unknown()),
        ("splits.numerator", Type::unknown()),
    ];
    assert(r@.map_values(|e: (&'static str, Type)| (e.0@, e.1.model())) =~= entries());
    r
}

} // verus!
