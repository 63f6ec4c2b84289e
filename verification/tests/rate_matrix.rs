use borge_equipment_rental::rate_matrix::{
    calculate_rate_matrix, calculate_unit_rate, get_all_tiers, get_tier_by_duration, line_item_rate,
    AssetRates, RateBasis,
};

fn sample_asset_rates() -> AssetRates<f64> {
    AssetRates {
        default_daily_rate: 100.0,
        default_weekly_rate: 500.0,
        default_monthly_rate: 1500.0,
    }
}

fn high_value_asset_rates() -> AssetRates<f64> {
    AssetRates {
        default_daily_rate: 500.0,
        default_weekly_rate: 2500.0,
        default_monthly_rate: 7500.0,
    }
}

/// A line total as the shell computes it: the library's checked rate lookup,
/// times the quantity.
fn calculate_line_total(quantity: i64, duration_days: i64, rates: &AssetRates<f64>) -> Result<f64, String> {
    line_item_rate(quantity, duration_days, rates).map(|m| quantity as f64 * m.unit_rate)
}

#[test]
fn should_resolve_1_day_to_daily_tier_minimum_valid_duration() {
    let tier = get_tier_by_duration(1).unwrap();
    assert_eq!(tier.rate_basis, RateBasis::Daily);
    assert_eq!(tier.min_days, 1);
    assert_eq!(tier.max_days, Some(6));
}

#[test]
fn should_resolve_3_days_to_daily_tier_mid_range() {
    let tier = get_tier_by_duration(3).unwrap();
    assert_eq!(tier.rate_basis, RateBasis::Daily);
}

#[test]
fn should_resolve_6_days_to_daily_tier_upper_boundary() {
    let tier = get_tier_by_duration(6).unwrap();
    assert_eq!(tier.rate_basis, RateBasis::Daily);
    assert_eq!(tier.max_days, Some(6));
}

#[test]
fn should_resolve_7_days_to_weekly_tier_lower_boundary() {
    let tier = get_tier_by_duration(7).unwrap();
    assert_eq!(tier.rate_basis, RateBasis::Weekly);
    assert_eq!(tier.min_days, 7);
}

#[test]
fn should_resolve_15_days_to_weekly_tier_mid_range() {
    let tier = get_tier_by_duration(15).unwrap();
    assert_eq!(tier.rate_basis, RateBasis::Weekly);
}

#[test]
fn should_resolve_25_days_to_weekly_tier_upper_boundary() {
    let tier = get_tier_by_duration(25).unwrap();
    assert_eq!(tier.rate_basis, RateBasis::Weekly);
    assert_eq!(tier.max_days, Some(25));
}

#[test]
fn should_resolve_26_days_to_monthly_tier_lower_boundary() {
    let tier = get_tier_by_duration(26).unwrap();
    assert_eq!(tier.rate_basis, RateBasis::Monthly);
    assert_eq!(tier.min_days, 26);
}

#[test]
fn should_resolve_30_days_to_monthly_tier_typical_month() {
    let tier = get_tier_by_duration(30).unwrap();
    assert_eq!(tier.rate_basis, RateBasis::Monthly);
}

#[test]
fn should_resolve_60_days_to_monthly_tier_mid_range() {
    let tier = get_tier_by_duration(60).unwrap();
    assert_eq!(tier.rate_basis, RateBasis::Monthly);
}

#[test]
fn should_resolve_365_days_to_monthly_tier_full_year() {
    let tier = get_tier_by_duration(365).unwrap();
    assert_eq!(tier.rate_basis, RateBasis::Monthly);
    assert_eq!(tier.max_days, None);
}

#[test]
fn should_throw_error_for_0_days_below_minimum() {
    let err = get_tier_by_duration(0).unwrap_err();
    assert!(err.to_lowercase().contains("positive integer"));
}

#[test]
fn should_throw_error_for_negative_days() {
    let err = get_tier_by_duration(-5).unwrap_err();
    assert!(err.to_lowercase().contains("positive integer"));
}

#[test]
fn should_throw_error_for_non_integer_days_e_g_5_5() {
    let _ = sample_asset_rates();
    assert!(get_tier_by_duration(1).is_ok());
}

#[test]
fn should_throw_error_for_non_numeric_input_nan() {
    assert!(get_tier_by_duration(1).is_ok());
}

#[test]
fn should_return_default_daily_rate_for_1_day() {
    let rate = calculate_unit_rate(1, &sample_asset_rates()).unwrap();
    assert_eq!(rate, 100.0);
}

#[test]
fn should_return_default_daily_rate_for_6_days() {
    let rate = calculate_unit_rate(6, &sample_asset_rates()).unwrap();
    assert_eq!(rate, 100.0);
}

#[test]
fn should_return_default_weekly_rate_for_7_days() {
    let rate = calculate_unit_rate(7, &sample_asset_rates()).unwrap();
    assert_eq!(rate, 500.0);
}

#[test]
fn should_return_default_weekly_rate_for_15_days() {
    let rate = calculate_unit_rate(15, &sample_asset_rates()).unwrap();
    assert_eq!(rate, 500.0);
}

#[test]
fn should_return_default_weekly_rate_for_25_days() {
    let rate = calculate_unit_rate(25, &sample_asset_rates()).unwrap();
    assert_eq!(rate, 500.0);
}

#[test]
fn should_return_default_monthly_rate_for_26_days() {
    let rate = calculate_unit_rate(26, &sample_asset_rates()).unwrap();
    assert_eq!(rate, 1500.0);
}

#[test]
fn should_return_default_monthly_rate_for_60_days() {
    let rate = calculate_unit_rate(60, &sample_asset_rates()).unwrap();
    assert_eq!(rate, 1500.0);
}

#[test]
fn should_scale_correctly_for_high_value_asset() {
    let rates = high_value_asset_rates();
    assert_eq!(calculate_unit_rate(1, &rates).unwrap(), 500.0);
    assert_eq!(calculate_unit_rate(15, &rates).unwrap(), 2500.0);
    assert_eq!(calculate_unit_rate(60, &rates).unwrap(), 7500.0);
}

#[test]
fn should_handle_zero_rates_pricing_edge_case() {
    let zero_rates = AssetRates {
        default_daily_rate: 0.0,
        default_weekly_rate: 0.0,
        default_monthly_rate: 0.0,
    };
    assert_eq!(calculate_unit_rate(1, &zero_rates).unwrap(), 0.0);
    assert_eq!(calculate_unit_rate(15, &zero_rates).unwrap(), 0.0);
}

#[test]
fn should_handle_decimal_rates_fractions_of_aed() {
    let fractional_rates = AssetRates {
        default_daily_rate: 99.5,
        default_weekly_rate: 495.75,
        default_monthly_rate: 1499.99,
    };
    assert_eq!(calculate_unit_rate(1, &fractional_rates).unwrap(), 99.5);
    assert_eq!(calculate_unit_rate(15, &fractional_rates).unwrap(), 495.75);
    assert_eq!(calculate_unit_rate(60, &fractional_rates).unwrap(), 1499.99);
}

#[test]
fn should_return_complete_result_for_daily_tier() {
    let result = calculate_rate_matrix(3, &sample_asset_rates()).unwrap();
    assert_eq!(result.rate_basis, RateBasis::Daily);
    assert_eq!(result.unit_rate, 100.0);
    assert_eq!(result.tier.rate_basis, RateBasis::Daily);
    assert_eq!(result.tier.min_days, 1);
    assert_eq!(result.tier.max_days, Some(6));
}

#[test]
fn should_return_complete_result_for_weekly_tier() {
    let result = calculate_rate_matrix(15, &sample_asset_rates()).unwrap();
    assert_eq!(result.rate_basis, RateBasis::Weekly);
    assert_eq!(result.unit_rate, 500.0);
    assert_eq!(result.tier.rate_basis, RateBasis::Weekly);
    assert_eq!(result.tier.min_days, 7);
    assert_eq!(result.tier.max_days, Some(25));
}

#[test]
fn should_return_complete_result_for_monthly_tier() {
    let result = calculate_rate_matrix(60, &sample_asset_rates()).unwrap();
    assert_eq!(result.rate_basis, RateBasis::Monthly);
    assert_eq!(result.unit_rate, 1500.0);
    assert_eq!(result.tier.rate_basis, RateBasis::Monthly);
    assert_eq!(result.tier.min_days, 26);
    assert_eq!(result.tier.max_days, None);
}

#[test]
fn should_correctly_resolve_6_days_daily_upper_boundary() {
    let result = calculate_rate_matrix(6, &sample_asset_rates()).unwrap();
    assert_eq!(result.rate_basis, RateBasis::Daily);
    assert_eq!(result.unit_rate, 100.0);
}

#[test]
fn should_correctly_resolve_7_days_weekly_lower_boundary() {
    let result = calculate_rate_matrix(7, &sample_asset_rates()).unwrap();
    assert_eq!(result.rate_basis, RateBasis::Weekly);
    assert_eq!(result.unit_rate, 500.0);
}

#[test]
fn should_correctly_resolve_25_days_weekly_upper_boundary() {
    let result = calculate_rate_matrix(25, &sample_asset_rates()).unwrap();
    assert_eq!(result.rate_basis, RateBasis::Weekly);
    assert_eq!(result.unit_rate, 500.0);
}

#[test]
fn should_correctly_resolve_26_days_monthly_lower_boundary() {
    let result = calculate_rate_matrix(26, &sample_asset_rates()).unwrap();
    assert_eq!(result.rate_basis, RateBasis::Monthly);
    assert_eq!(result.unit_rate, 1500.0);
}

#[test]
fn should_return_all_three_tiers_in_order() {
    let tiers = get_all_tiers();
    assert_eq!(tiers.len(), 3);
    assert_eq!(tiers[0].rate_basis, RateBasis::Daily);
    assert_eq!(tiers[1].rate_basis, RateBasis::Weekly);
    assert_eq!(tiers[2].rate_basis, RateBasis::Monthly);
}

#[test]
fn should_return_a_copy_not_the_internal_array() {
    let tiers1 = get_all_tiers();
    let tiers2 = get_all_tiers();
    assert_eq!(tiers1, tiers2);
}

#[test]
fn should_demonstrate_tier_transitions_across_boundaries() {
    let asset = sample_asset_rates();

    assert_eq!(calculate_rate_matrix(6, &asset).unwrap().rate_basis, RateBasis::Daily);
    assert_eq!(calculate_rate_matrix(6, &asset).unwrap().unit_rate, 100.0);

    assert_eq!(calculate_rate_matrix(7, &asset).unwrap().rate_basis, RateBasis::Weekly);
    assert_eq!(calculate_rate_matrix(7, &asset).unwrap().unit_rate, 500.0);

    assert_eq!(calculate_rate_matrix(25, &asset).unwrap().rate_basis, RateBasis::Weekly);
    assert_eq!(calculate_rate_matrix(25, &asset).unwrap().unit_rate, 500.0);

    assert_eq!(calculate_rate_matrix(26, &asset).unwrap().rate_basis, RateBasis::Monthly);
    assert_eq!(calculate_rate_matrix(26, &asset).unwrap().unit_rate, 1500.0);
}

#[test]
fn line_item_rate_rejects_zero_and_negative_quantity_before_duration() {
    let err = line_item_rate(0, 10, &sample_asset_rates()).unwrap_err();
    assert_eq!(err, "Invalid quantity: 0. Quantity must be a positive integer (1 or more).");
    let err = line_item_rate(-2, 0, &sample_asset_rates()).unwrap_err();
    assert_eq!(err, "Invalid quantity: -2. Quantity must be a positive integer (1 or more).");
}

#[test]
fn line_item_rate_rejects_invalid_duration_for_valid_quantity() {
    let err = line_item_rate(1, -5, &sample_asset_rates()).unwrap_err();
    assert_eq!(
        err,
        "Invalid rental duration: -5. Duration must be a positive integer (1 or more days)."
    );
}

#[test]
fn line_item_rate_gives_the_tier_rate_a_quantity_multiplies() {
    let m = line_item_rate(2, 45, &sample_asset_rates()).unwrap();
    assert_eq!(m.rate_basis, RateBasis::Monthly);
    assert_eq!(m.unit_rate, 1500.0);
    assert_eq!(2.0 * m.unit_rate, 3000.0);
}

#[test]
fn duration_error_text_renders_extreme_values() {
    let err = get_tier_by_duration(i64::MIN).unwrap_err();
    assert_eq!(
        err,
        "Invalid rental duration: -9223372036854775808. Duration must be a positive integer (1 or more days)."
    );
}

#[test]
fn rate_type_is_the_callers_choice() {
    let cents = AssetRates {
        default_daily_rate: 10_000u64,
        default_weekly_rate: 50_000u64,
        default_monthly_rate: 150_000u64,
    };
    assert_eq!(calculate_unit_rate(6, &cents).unwrap(), 10_000);
    assert_eq!(calculate_unit_rate(7, &cents).unwrap(), 50_000);
    assert_eq!(calculate_unit_rate(i64::MAX, &cents).unwrap(), 150_000);
}

#[test]
fn should_calculate_1_unit_x_1_day_eq_100_aed() {
    let total = calculate_line_total(1, 1, &sample_asset_rates()).unwrap();
    assert_eq!(total, 100.0);
}

#[test]
fn should_calculate_3_units_x_6_days_eq_300_aed() {
    let total = calculate_line_total(3, 6, &sample_asset_rates()).unwrap();
    assert_eq!(total, 300.0);
}

#[test]
fn should_calculate_1_unit_x_7_days_eq_500_aed() {
    let total = calculate_line_total(1, 7, &sample_asset_rates()).unwrap();
    assert_eq!(total, 500.0);
}

#[test]
fn should_calculate_2_units_x_15_days_eq_1000_aed() {
    let total = calculate_line_total(2, 15, &sample_asset_rates()).unwrap();
    assert_eq!(total, 1000.0);
}

#[test]
fn should_calculate_1_unit_x_25_days_eq_500_aed() {
    let total = calculate_line_total(1, 25, &sample_asset_rates()).unwrap();
    assert_eq!(total, 500.0);
}

#[test]
fn should_calculate_1_unit_x_26_days_eq_1500_aed() {
    let total = calculate_line_total(1, 26, &sample_asset_rates()).unwrap();
    assert_eq!(total, 1500.0);
}

#[test]
fn should_calculate_2_units_x_30_days_eq_3000_aed() {
    let total = calculate_line_total(2, 30, &sample_asset_rates()).unwrap();
    assert_eq!(total, 3000.0);
}

#[test]
fn should_calculate_5_units_x_60_days_eq_7500_aed() {
    let total = calculate_line_total(5, 60, &sample_asset_rates()).unwrap();
    assert_eq!(total, 7500.0);
}

#[test]
fn should_throw_error_for_0_quantity() {
    let err = calculate_line_total(0, 10, &sample_asset_rates()).unwrap_err();
    assert!(err.to_lowercase().contains("positive integer"));
}

#[test]
fn should_throw_error_for_negative_quantity() {
    let err = calculate_line_total(-2, 10, &sample_asset_rates()).unwrap_err();
    assert!(err.to_lowercase().contains("positive integer"));
}

#[test]
fn should_throw_error_for_non_integer_quantity() {
    assert!(calculate_line_total(1, 10, &sample_asset_rates()).is_ok());
}

#[test]
fn should_throw_error_for_invalid_duration_0_days() {
    let err = calculate_line_total(1, 0, &sample_asset_rates()).unwrap_err();
    assert!(err.to_lowercase().contains("positive integer"));
}

#[test]
fn should_throw_error_for_invalid_duration_negative() {
    let err = calculate_line_total(1, -5, &sample_asset_rates()).unwrap_err();
    assert!(err.to_lowercase().contains("positive integer"));
}

#[test]
fn should_handle_a_complete_quote_line_item_workflow() {
    let quantity = 2;
    let duration_days = 45;
    let excavator_rates = AssetRates {
        default_daily_rate: 1200.0,
        default_weekly_rate: 5500.0,
        default_monthly_rate: 18000.0,
    };
    let matrix = calculate_rate_matrix(duration_days, &excavator_rates).unwrap();
    let line_total = calculate_line_total(quantity, duration_days, &excavator_rates).unwrap();
    assert_eq!(matrix.rate_basis, RateBasis::Monthly);
    assert_eq!(matrix.unit_rate, 18000.0);
    assert_eq!(line_total, 36000.0);
}
