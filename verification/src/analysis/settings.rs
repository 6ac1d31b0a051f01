//! The settings of an analysis: which checks run, and their thresholds.

use vstd::prelude::*;

use crate::num::Ratio;

verus! {

/// Which checks run, and their thresholds.
#[derive(Debug)]
pub struct AnalysisSettings {
    pub enable_shadowing_warnings: bool,
    pub enable_input_range_validation: bool,
    pub enable_table_bounds_checks: bool,
    pub enable_map_checks: bool,
    pub enable_chart_point_validation: bool,
    pub enable_session_validation: bool,
    pub enable_draw_object_lifecycle_checks: bool,
    pub enable_strategy_direction_conflict: bool,
    pub enable_constant_condition_warnings: bool,
    pub enable_ta_param_relationships: bool,
    pub enable_pivot_validation: bool,
    pub enable_strategy_limit_stop_validation: bool,
    pub enable_strategy_oca_conflicts: bool,
    pub enable_strategy_exit_profit_loss_validation: bool,
    pub enable_strategy_trailing_validation: bool,
    pub enable_duplicate_plot_titles: bool,
    pub enable_plot_style_consistency: bool,
    pub enable_draw_object_id_reuse: bool,
    pub enable_request_security_format_validation: bool,
    pub enable_request_security_expression_validation: bool,
    pub enable_color_value_validation: bool,
    pub enable_array_empty_checks: bool,
    pub enable_array_type_checks: bool,
    pub enable_string_na_checks: bool,
    pub enable_ta_length_consistency: bool,
    pub enable_strategy_commission_slippage_validation: bool,
    pub enable_strategy_price_validation: bool,
    pub enable_strategy_position_size_validation: bool,
    pub enable_strategy_alert_message_validation: bool,
    pub enable_function_recursion_detection: bool,
    pub enable_timeframe_format_validation: bool,
    pub array_unknown_index_warn_threshold: i64,
    pub loop_large_threshold: i64,
    pub history_reference_warn_threshold: i64,
    pub chart_point_index_warn_threshold: i64,
    pub ta_length_spread_ratio: i64,
    pub ta_length_spread_delta: i64,
    pub commission_warn_threshold: Ratio,
    pub slippage_warn_threshold: Ratio,
    pub strategy_position_percent_max: Ratio,
    pub strategy_alert_message_max_length: i64,
}

impl AnalysisSettings {
    /// A copy of these settings.
    pub fn duplicate(&self) -> (r: Self)
        ensures
            r == *self,
    {
        AnalysisSettings {
            enable_shadowing_warnings: self.enable_shadowing_warnings,
            enable_input_range_validation: self.enable_input_range_validation,
            enable_table_bounds_checks: self.enable_table_bounds_checks,
            enable_map_checks: self.enable_map_checks,
            enable_chart_point_validation: self.enable_chart_point_validation,
            enable_session_validation: self.enable_session_validation,
            enable_draw_object_lifecycle_checks: self.enable_draw_object_lifecycle_checks,
            enable_strategy_direction_conflict: self.enable_strategy_direction_conflict,
            enable_constant_condition_warnings: self.enable_constant_condition_warnings,
            enable_ta_param_relationships: self.enable_ta_param_relationships,
            enable_pivot_validation: self.enable_pivot_validation,
            enable_strategy_limit_stop_validation: self.enable_strategy_limit_stop_validation,
            enable_strategy_oca_conflicts: self.enable_strategy_oca_conflicts,
            enable_strategy_exit_profit_loss_validation: self.enable_strategy_exit_profit_loss_validation,
            enable_strategy_trailing_validation: self.enable_strategy_trailing_validation,
            enable_duplicate_plot_titles: self.enable_duplicate_plot_titles,
            enable_plot_style_consistency: self.enable_plot_style_consistency,
            enable_draw_object_id_reuse: self.enable_draw_object_id_reuse,
            enable_request_security_format_validation: self.enable_request_security_format_validation,
            enable_request_security_expression_validation: self.enable_request_security_expression_validation,
            enable_color_value_validation: self.enable_color_value_validation,
            enable_array_empty_checks: self.enable_array_empty_checks,
            enable_array_type_checks: self.enable_array_type_checks,
            enable_string_na_checks: self.enable_string_na_checks,
            enable_ta_length_consistency: self.enable_ta_length_consistency,
            enable_strategy_commission_slippage_validation: self.enable_strategy_commission_slippage_validation,
            enable_strategy_price_validation: self.enable_strategy_price_validation,
            enable_strategy_position_size_validation: self.enable_strategy_position_size_validation,
            enable_strategy_alert_message_validation: self.enable_strategy_alert_message_validation,
            enable_function_recursion_detection: self.enable_function_recursion_detection,
            enable_timeframe_format_validation: self.enable_timeframe_format_validation,
            array_unknown_index_warn_threshold: self.array_unknown_index_warn_threshold,
            loop_large_threshold: self.loop_large_threshold,
            history_reference_warn_threshold: self.history_reference_warn_threshold,
            chart_point_index_warn_threshold: self.chart_point_index_warn_threshold,
            ta_length_spread_ratio: self.ta_length_spread_ratio,
            ta_length_spread_delta: self.ta_length_spread_delta,
            commission_warn_threshold: self.commission_warn_threshold,
            slippage_warn_threshold: self.slippage_warn_threshold,
            strategy_position_percent_max: self.strategy_position_percent_max,
            strategy_alert_message_max_length: self.strategy_alert_message_max_length,
        }
    }

    /// Whether the thresholds that are numbers have positive denominators.
    pub fn is_valid(&self) -> (r: bool)
        ensures
            r == self.wf(),
    {
        self.commission_warn_threshold.den > 0 && self.slippage_warn_threshold.den > 0
            && self.strategy_position_percent_max.den > 0
    }

    /// The thresholds that are numbers have positive denominators.
    pub open spec fn wf(self) -> bool {
        &&& self.commission_warn_threshold.wf()
        &&& self.slippage_warn_threshold.wf()
        &&& self.strategy_position_percent_max.wf()
    }
}

impl Default for AnalysisSettings {
    /// Every check enabled, with the standard thresholds.
    fn default() -> (r: Self)
        ensures
            r.wf(),
            r.enable_shadowing_warnings && r.enable_input_range_validation
                && r.enable_table_bounds_checks && r.enable_map_checks
                && r.enable_chart_point_validation && r.enable_session_validation
                && r.enable_draw_object_lifecycle_checks && r.enable_strategy_direction_conflict
                && r.enable_constant_condition_warnings && r.enable_ta_param_relationships
                && r.enable_pivot_validation && r.enable_strategy_limit_stop_validation
                && r.enable_strategy_oca_conflicts && r.enable_strategy_exit_profit_loss_validation
                && r.enable_strategy_trailing_validation && r.enable_duplicate_plot_titles
                && r.enable_plot_style_consistency && r.enable_draw_object_id_reuse
                && r.enable_request_security_format_validation
                && r.enable_request_security_expression_validation
                && r.enable_color_value_validation && r.enable_array_empty_checks
                && r.enable_array_type_checks && r.enable_string_na_checks
                && r.enable_ta_length_consistency
                && r.enable_strategy_commission_slippage_validation
                && r.enable_strategy_price_validation
                && r.enable_strategy_position_size_validation
                && r.enable_strategy_alert_message_validation
                && r.enable_function_recursion_detection
                && r.enable_timeframe_format_validation,
            r.array_unknown_index_warn_threshold == 1000,
            r.loop_large_threshold == 100000,
            r.history_reference_warn_threshold == 5000,
            r.chart_point_index_warn_threshold == 5000,
            r.ta_length_spread_ratio == 10,
            r.ta_length_spread_delta == 50,
            r.commission_warn_threshold.pair() == (100int, 1int),
            r.slippage_warn_threshold.pair() == (1000int, 1int),
            r.strategy_position_percent_max.pair() == (100int, 1int),
            r.strategy_alert_message_max_length == 500,
    {
        AnalysisSettings {
            enable_shadowing_warnings: true,
            enable_input_range_validation: true,
            enable_table_bounds_checks: true,
            enable_map_checks: true,
            enable_chart_point_validation: true,
            enable_session_validation: true,
            enable_draw_object_lifecycle_checks: true,
            enable_strategy_direction_conflict: true,
            enable_constant_condition_warnings: true,
            enable_ta_param_relationships: true,
            enable_pivot_validation: true,
            enable_strategy_limit_stop_validation: true,
            enable_strategy_oca_conflicts: true,
            enable_strategy_exit_profit_loss_validation: true,
            enable_strategy_trailing_validation: true,
            enable_duplicate_plot_titles: true,
            enable_plot_style_consistency: true,
            enable_draw_object_id_reuse: true,
            enable_request_security_format_validation: true,
            enable_request_security_expression_validation: true,
            enable_color_value_validation: true,
            enable_array_empty_checks: true,
            enable_array_type_checks: true,
            enable_string_na_checks: true,
            enable_ta_length_consistency: true,
            enable_strategy_commission_slippage_validation: true,
            enable_strategy_price_validation: true,
            enable_strategy_position_size_validation: true,
            enable_strategy_alert_message_validation: true,
            enable_function_recursion_detection: true,
            enable_timeframe_format_validation: true,
            array_unknown_index_warn_threshold: 1000,
            loop_large_threshold: 100000,
            history_reference_warn_threshold: 5000,
            chart_point_index_warn_threshold: 5000,
            ta_length_spread_ratio: 10,
            ta_length_spread_delta: 50,
            commission_warn_threshold: Ratio { num: 100, den: 1 },
            slippage_warn_threshold: Ratio { num: 1000, den: 1 },
            strategy_position_percent_max: Ratio { num: 100, den: 1 },
            strategy_alert_message_max_length: 500,
        }
    }
}

} // verus!
