use rust_decimal::Decimal;
use takehome_core::calculators::timeframe::Timeframe;
use takehome_core::calculators::{
    FederalTaxCalculator, FicaCalculator, StateTaxCalculator, TimeframeCalculator,
};
use takehome_core::data::embedded::EmbeddedTaxData;
use takehome_core::{Dec, FilingStatus, USState};

fn d(s: &str) -> Dec {
    let x: Decimal = s.parse().unwrap();
    Dec { mantissa: x.mantissa(), scale: x.scale() }
}

fn v(x: Dec) -> Decimal {
    Decimal::from_i128_with_scale(x.mantissa, x.scale)
}

fn dv(s: &str) -> Decimal {
    s.parse().unwrap()
}

fn setup() -> EmbeddedTaxData {
    EmbeddedTaxData::new()
}

#[test]
fn test_single_50k() {
    let data = setup();
    let calc = FederalTaxCalculator::new(&data);
    let result = calc.calculate(d("50000"), FilingStatus::Single, 2024);
    assert!(v(result.tax) > dv("6000") && v(result.tax) < dv("6100"));
    assert_eq!(v(result.marginal_rate), dv("0.22"));
}

#[test]
fn test_single_100k() {
    let data = setup();
    let calc = FederalTaxCalculator::new(&data);
    let result = calc.calculate(d("100000"), FilingStatus::Single, 2024);
    assert!(v(result.tax) > dv("17000") && v(result.tax) < dv("17100"));
    assert_eq!(v(result.marginal_rate), dv("0.22"));
}

#[test]
fn test_mfj_200k() {
    let data = setup();
    let calc = FederalTaxCalculator::new(&data);
    let result = calc.calculate(d("200000"), FilingStatus::MarriedFilingJointly, 2024);
    assert_eq!(v(result.marginal_rate), dv("0.22"));
    assert!(v(result.effective_rate) < v(result.marginal_rate));
}

#[test]
fn federal_test_zero_income() {
    let data = setup();
    let calc = FederalTaxCalculator::new(&data);
    let result = calc.calculate(d("0"), FilingStatus::Single, 2024);
    assert_eq!(v(result.tax), dv("0"));
    assert!(result.bracket_breakdown.is_empty());
}

#[test]
fn test_standard_deduction() {
    let data = setup();
    let calc = FederalTaxCalculator::new(&data);
    let single = calc.standard_deduction(FilingStatus::Single, 2024);
    let mfj = calc.standard_deduction(FilingStatus::MarriedFilingJointly, 2024);
    assert_eq!(v(single), dv("14600"));
    assert_eq!(v(mfj), dv("29200"));
}

#[test]
fn test_bracket_breakdown_adds_up() {
    let data = setup();
    let calc = FederalTaxCalculator::new(&data);
    let result = calc.calculate(d("100000"), FilingStatus::Single, 2024);
    let breakdown_total: Decimal = result.bracket_breakdown.iter().map(|b| v(b.tax_paid)).sum();
    let diff = (v(result.tax) - breakdown_total).abs();
    assert!(diff < dv("0.01"));
}

#[test]
fn federal_single_50k_exact_tax() {
    // 5426 + (50000 - 47150) * 0.22 = 6053
    let data = setup();
    let calc = FederalTaxCalculator::new(&data);
    let result = calc.calculate(d("50000"), FilingStatus::Single, 2024);
    assert_eq!(v(result.tax), dv("6053"));
    assert_eq!(v(result.taxable_income), dv("50000"));
    assert_eq!(result.bracket_breakdown.len(), 3);
    assert_eq!(v(result.effective_rate), dv("6053") / dv("50000"));
}

#[test]
fn federal_tax_is_monotone_on_samples() {
    let data = setup();
    let calc = FederalTaxCalculator::new(&data);
    let mut last = dv("0");
    for income in ["0", "1", "11600", "11601", "47150", "80000", "100525", "250000", "700000"] {
        let t = v(calc.calculate(d(income), FilingStatus::Single, 2024).tax);
        assert!(t >= last);
        last = t;
    }
}

#[test]
fn federal_closed_form_matches_breakdown_at_boundaries() {
    let data = setup();
    let calc = FederalTaxCalculator::new(&data);
    for income in ["11600", "47150", "100525", "609350", "1000000"] {
        let r = calc.calculate(d(income), FilingStatus::HeadOfHousehold, 2024);
        let total: Decimal = r.bracket_breakdown.iter().map(|b| v(b.tax_paid)).sum();
        assert!((v(r.tax) - total).abs() < dv("0.01"));
    }
}

#[test]
fn federal_negative_income_reports_first_rate() {
    let data = setup();
    let calc = FederalTaxCalculator::new(&data);
    let r = calc.calculate(d("-500"), FilingStatus::Single, 2024);
    assert_eq!(v(r.tax), dv("0"));
    assert_eq!(v(r.taxable_income), dv("0"));
    assert_eq!(v(r.marginal_rate), dv("0.10"));
}

#[test]
fn test_fica_under_ss_cap() {
    let data = setup();
    let calc = FicaCalculator::new(&data);
    let result = calc.calculate(d("100000"), 2024);
    assert_eq!(v(result.social_security), dv("6200"));
    assert_eq!(v(result.medicare), dv("1450"));
    assert_eq!(v(result.additional_medicare), dv("0"));
    assert_eq!(v(result.total), dv("7650"));
}

#[test]
fn test_fica_above_ss_cap() {
    let data = setup();
    let calc = FicaCalculator::new(&data);
    let result = calc.calculate(d("200000"), 2024);
    assert_eq!(v(result.social_security), dv("10453.20"));
    assert_eq!(v(result.medicare), dv("2900"));
    assert_eq!(v(result.additional_medicare), dv("0"));
}

#[test]
fn test_additional_medicare_single() {
    let data = setup();
    let calc = FicaCalculator::new(&data);
    let result = calc.calculate_with_status(d("250000"), FilingStatus::Single, 2024);
    assert_eq!(v(result.additional_medicare), dv("450"));
}

#[test]
fn test_additional_medicare_mfj() {
    let data = setup();
    let calc = FicaCalculator::new(&data);
    let result = calc.calculate_with_status(d("300000"), FilingStatus::MarriedFilingJointly, 2024);
    assert_eq!(v(result.additional_medicare), dv("450"));
}

#[test]
fn test_additional_medicare_mfs() {
    let data = setup();
    let calc = FicaCalculator::new(&data);
    let result =
        calc.calculate_with_status(d("150000"), FilingStatus::MarriedFilingSeparately, 2024);
    assert_eq!(v(result.additional_medicare), dv("225"));
}

#[test]
fn test_fica_rates() {
    let data = setup();
    let calc = FicaCalculator::new(&data);
    let result = calc.calculate(d("50000"), 2024);
    let ss_rate = v(result.social_security) / dv("50000");
    let medicare_rate = v(result.medicare) / dv("50000");
    assert_eq!(ss_rate, dv("0.062"));
    assert_eq!(medicare_rate, dv("0.0145"));
}

#[test]
fn fica_wage_base_reported() {
    let data = setup();
    let calc = FicaCalculator::new(&data);
    let result = calc.calculate_with_status(d("0"), FilingStatus::HeadOfHousehold, 2024);
    assert_eq!(v(result.social_security_wage_base), dv("168600"));
    assert_eq!(v(result.total), dv("0"));
}

#[test]
fn test_no_tax_state() {
    let data = setup();
    let calc = StateTaxCalculator::new(&data);
    let result = calc.calculate(d("100000"), USState::Texas, FilingStatus::Single, 2024);
    assert_eq!(v(result.income_tax), dv("0"));
    assert_eq!(v(result.total_tax), dv("0"));
    assert_eq!(result.state_code, "TX");
}

#[test]
fn test_flat_tax_state() {
    let data = setup();
    let calc = StateTaxCalculator::new(&data);
    let result = calc.calculate(d("100000"), USState::Colorado, FilingStatus::Single, 2024);
    assert_eq!(v(result.income_tax), dv("4400"));
    assert_eq!(result.state_code, "CO");
}

#[test]
fn test_california_has_sdi() {
    let data = setup();
    let calc = StateTaxCalculator::new(&data);
    let result = calc.calculate(d("100000"), USState::California, FilingStatus::Single, 2024);
    assert!(v(result.sdi) > dv("0"));
    assert!(v(result.income_tax) > dv("0"));
}

#[test]
fn test_progressive_tax_state() {
    let data = setup();
    let calc = StateTaxCalculator::new(&data);
    let result = calc.calculate(d("100000"), USState::California, FilingStatus::Single, 2024);
    assert!(result.bracket_breakdown.is_some());
    let breakdown = result.bracket_breakdown.unwrap();
    assert!(!breakdown.is_empty());
    assert!(v(result.income_tax) > dv("3000"));
    assert!(v(result.income_tax) < dv("10000"));
}

#[test]
fn test_all_no_tax_states() {
    let data = setup();
    let calc = StateTaxCalculator::new(&data);
    let no_tax_states = [
        USState::Alaska,
        USState::Florida,
        USState::Nevada,
        USState::NewHampshire,
        USState::SouthDakota,
        USState::Tennessee,
        USState::Texas,
        USState::Washington,
        USState::Wyoming,
    ];
    for state in no_tax_states {
        let result = calc.calculate(d("100000"), state, FilingStatus::Single, 2024);
        assert_eq!(v(result.income_tax), dv("0"), "{} should have no income tax", state.name());
    }
}

#[test]
fn test_new_york_has_local_tax() {
    let data = setup();
    let calc = StateTaxCalculator::new(&data);
    let result = calc.calculate(d("100000"), USState::NewYork, FilingStatus::Single, 2024);
    assert!(v(result.income_tax) > dv("0"));
}

#[test]
fn state_california_exact_amounts() {
    // Adjusted income 100000 - 5363 = 94637; 3009.40 + (94637 - 68350) * 0.093 = 5454.091
    let data = setup();
    let calc = StateTaxCalculator::new(&data);
    let r = calc.calculate(d("100000"), USState::California, FilingStatus::Single, 2024);
    assert_eq!(v(r.income_tax), dv("5454.091"));
    assert_eq!(v(r.sdi), dv("1100"));
    assert_eq!(v(r.local_tax), dv("0"));
    assert_eq!(v(r.total_tax), dv("6554.091"));
    assert_eq!(v(r.effective_rate), dv("6554.091") / dv("100000"));
}

#[test]
fn state_sdi_capped_at_wage_base() {
    let data = setup();
    let calc = StateTaxCalculator::new(&data);
    let r = calc.calculate(d("200000"), USState::California, FilingStatus::Single, 2024);
    assert_eq!(v(r.sdi), dv("153164") * dv("0.011"));
}

#[test]
fn state_new_york_local_estimate() {
    let data = setup();
    let calc = StateTaxCalculator::new(&data);
    let r = calc.calculate(d("100000"), USState::NewYork, FilingStatus::Single, 2024);
    assert_eq!(v(r.local_tax), dv("3500"));
}

#[test]
fn state_missing_filing_status_has_no_brackets() {
    // Arizona only has single-filer brackets: a joint filer pays nothing there.
    let data = setup();
    let calc = StateTaxCalculator::new(&data);
    let r = calc.calculate(d("100000"), USState::Arizona, FilingStatus::MarriedFilingJointly, 2024);
    assert_eq!(v(r.income_tax), dv("0"));
    assert!(r.bracket_breakdown.is_none());
}

#[test]
fn state_zero_income_zero_tax() {
    let data = setup();
    let calc = StateTaxCalculator::new(&data);
    let r = calc.calculate(d("0"), USState::California, FilingStatus::Single, 2024);
    assert_eq!(v(r.total_tax), dv("0"));
    assert_eq!(v(r.effective_rate), dv("0"));
}

#[test]
fn test_from_annual() {
    let income = TimeframeCalculator::from_annual(d("104000"));
    assert_eq!(v(income.annual), dv("104000"));
    assert_eq!(v(income.monthly), dv("104000") / dv("12"));
    assert_eq!(v(income.bi_weekly), dv("4000"));
    assert_eq!(v(income.weekly), dv("2000"));
    assert_eq!(v(income.daily), dv("400"));
    assert_eq!(v(income.hourly), dv("50"));
}

#[test]
fn test_to_annual() {
    assert_eq!(
        v(TimeframeCalculator::to_annual(d("8666.67"), Timeframe::Monthly)),
        dv("8666.67") * dv("12")
    );
    assert_eq!(v(TimeframeCalculator::to_annual(d("50"), Timeframe::Hourly)), dv("104000"));
    assert_eq!(v(TimeframeCalculator::to_annual(d("4000"), Timeframe::BiWeekly)), dv("104000"));
}

#[test]
fn test_convert() {
    let monthly = v(TimeframeCalculator::convert(d("50"), Timeframe::Hourly, Timeframe::Monthly));
    assert!(monthly > dv("8666") && monthly < dv("8667"));
    let monthly =
        v(TimeframeCalculator::convert(d("4000"), Timeframe::BiWeekly, Timeframe::Monthly));
    assert!(monthly > dv("8666") && monthly < dv("8667"));
}

#[test]
fn test_hours_to_earn() {
    let hours = TimeframeCalculator::hours_to_earn(d("50"), d("500"));
    assert_eq!(v(hours), dv("10"));
    let hours = TimeframeCalculator::hours_to_earn(d("0"), d("500"));
    assert_eq!(v(hours), dv("0"));
}

#[test]
fn test_days_to_earn() {
    let days = TimeframeCalculator::days_to_earn(d("400"), d("2000"));
    assert_eq!(v(days), dv("5"));
}

#[test]
fn test_custom_hours() {
    let income = TimeframeCalculator::from_annual_custom(d("52000"), d("20"), d("4"));
    assert_eq!(v(income.hourly), dv("50"));
    assert_eq!(v(income.daily), dv("250"));
}

#[test]
fn timeframe_round_trip_all_periods() {
    for tf in [
        Timeframe::Annual,
        Timeframe::Monthly,
        Timeframe::BiWeekly,
        Timeframe::SemiMonthly,
        Timeframe::Weekly,
        Timeframe::Daily,
        Timeframe::Hourly,
    ] {
        let annual = d("123456.78");
        let per = TimeframeCalculator::convert(annual, Timeframe::Annual, tf);
        let back = v(TimeframeCalculator::to_annual(per, tf));
        assert!((back - dv("123456.78")).abs() < dv("0.000001"));
    }
}

#[test]
fn timeframe_divisors_and_names() {
    assert_eq!(v(Timeframe::Daily.divisor()), dv("260"));
    assert_eq!(v(Timeframe::SemiMonthly.divisor()), dv("24"));
    assert_eq!(Timeframe::BiWeekly.display_name(), "Bi-Weekly");
    assert_eq!(v(TimeframeCalculator::days_to_earn(d("-1"), d("10"))), dv("0"));
}

#[test]
fn federal_marginal_rate_at_bracket_floor_is_containing_bracket() {
    let data = setup();
    let calc = FederalTaxCalculator::new(&data);
    let at_floor = calc.calculate(d("47150"), FilingStatus::Single, 2024);
    assert_eq!(v(at_floor.marginal_rate), dv("0.22"));
    assert_eq!(v(at_floor.tax), dv("5426"));
    let below = calc.calculate(d("47149.99"), FilingStatus::Single, 2024);
    assert_eq!(v(below.marginal_rate), dv("0.12"));
}

#[test]
fn federal_breakdown_entries_copy_their_brackets() {
    let data = setup();
    let calc = FederalTaxCalculator::new(&data);
    let r = calc.calculate(d("50000"), FilingStatus::Single, 2024);
    let b = &r.bracket_breakdown;
    assert_eq!(b.len(), 3);
    assert_eq!(v(b[0].taxable_in_bracket), dv("11600"));
    assert_eq!(v(b[1].floor), dv("11600"));
    assert_eq!(v(b[2].taxable_in_bracket), dv("2850"));
    assert_eq!(v(b[2].tax_paid), dv("627"));
    let total: Decimal = b.iter().map(|e| v(e.taxable_in_bracket)).sum();
    assert_eq!(total, dv("50000"));
}

#[test]
fn state_missing_key_california_head_of_household() {
    let data = setup();
    let calc = StateTaxCalculator::new(&data);
    let r = calc.calculate(d("100000"), USState::California, FilingStatus::HeadOfHousehold, 2024);
    assert_eq!(v(r.income_tax), dv("0"));
    assert!(r.bracket_breakdown.is_none());
    assert_eq!(v(r.sdi), dv("1100"));
    assert_eq!(v(r.total_tax), dv("1100"));
}
