use rust_decimal::Decimal;
use takehome_core::models::deduction::{
    Deduction, DeductionFrequency, DeductionType, DeductionsSummary, RetirementContributions,
};
use takehome_core::models::household::{calculate_split, SplitMethod};
use takehome_core::models::tax::TaxBracket;
use takehome_core::{CalculatedIncome, Dec, FilingStatus, IncomeInput, PayFrequency, TimeframeIncome, USState};

fn d(s: &str) -> Dec {
    let x: Decimal = s.parse().unwrap();
    Dec { mantissa: x.mantissa(), scale: x.scale() }
}

fn v(x: Dec) -> Decimal {
    Decimal::from_i128_with_scale(x.mantissa, x.scale)
}

fn dv(s: &str) -> Decimal {
    s.parse().unwrap()
}

#[test]
fn test_proportional_split() {
    let split = calculate_split(d("8000"), d("2000"), d("1000"), SplitMethod::Proportional);
    assert_eq!(v(split.primary_ratio), dv("0.8"));
    assert_eq!(v(split.partner_ratio), dv("0.2"));
    assert_eq!(v(split.primary_monthly_amount), dv("800"));
    assert_eq!(v(split.partner_monthly_amount), dv("200"));
}

#[test]
fn test_equal_split() {
    let split = calculate_split(d("8000"), d("2000"), d("1000"), SplitMethod::Equal);
    assert_eq!(v(split.primary_ratio), dv("0.5"));
    assert_eq!(v(split.primary_monthly_amount), dv("500"));
    assert_eq!(v(split.partner_monthly_amount), dv("500"));
}

#[test]
fn test_custom_split() {
    let split = calculate_split(d("8000"), d("2000"), d("1000"), SplitMethod::Custom(d("0.7")));
    assert_eq!(v(split.primary_ratio), dv("0.7"));
    assert_eq!(v(split.primary_monthly_amount), dv("700"));
    assert_eq!(v(split.partner_monthly_amount), dv("300"));
}

#[test]
fn split_without_income_is_even() {
    let split = calculate_split(d("0"), d("0"), d("90"), SplitMethod::Proportional);
    assert_eq!(v(split.primary_ratio), dv("0.5"));
    assert_eq!(v(split.partner_monthly_amount), dv("45"));
    assert_eq!(v(split.primary_percent()), dv("50"));
    assert_eq!(v(split.partner_percent()), dv("50"));
}

#[test]
fn test_timeframe_from_annual() {
    let income = TimeframeIncome::from_annual(d("104000"));
    assert_eq!(v(income.annual), dv("104000"));
    assert_eq!(v(income.monthly), dv("104000") / dv("12"));
    assert_eq!(v(income.bi_weekly), dv("4000"));
    assert_eq!(v(income.weekly), dv("2000"));
    assert_eq!(v(income.daily), dv("400"));
    assert_eq!(v(income.hourly), dv("50"));
}

#[test]
fn test_pay_frequency_periods() {
    assert_eq!(PayFrequency::Weekly.periods_per_year(), 52);
    assert_eq!(PayFrequency::BiWeekly.periods_per_year(), 26);
    assert_eq!(PayFrequency::SemiMonthly.periods_per_year(), 24);
    assert_eq!(PayFrequency::Monthly.periods_per_year(), 12);
}

#[test]
fn income_models() {
    let mut input = IncomeInput::new(d("90000"));
    input.bonuses = d("5000.25");
    input.other_income = d("100");
    assert_eq!(v(input.total_gross()), dv("95100.25"));
    assert_eq!(input.pay_frequency, PayFrequency::BiWeekly);
    assert_eq!(PayFrequency::SemiMonthly.as_str(), "semi_monthly");
    let c = CalculatedIncome::new(d("100000"), d("75000"));
    assert_eq!(v(c.take_home_percentage), dv("75"));
    assert_eq!(v(c.timeframes.weekly), dv("75000") / dv("52"));
    let z = CalculatedIncome::new(d("0"), d("0"));
    assert_eq!(v(z.take_home_percentage), dv("0"));
}

#[test]
fn test_no_income_tax_states() {
    assert!(USState::Texas.has_no_income_tax());
    assert!(USState::Florida.has_no_income_tax());
    assert!(USState::Nevada.has_no_income_tax());
    assert!(!USState::California.has_no_income_tax());
    assert!(!USState::NewYork.has_no_income_tax());
}

#[test]
fn state_test_flat_tax_states() {
    assert!(USState::Colorado.has_flat_tax());
    assert!(USState::Illinois.has_flat_tax());
    assert!(!USState::California.has_flat_tax());
}

#[test]
fn test_sdi_states() {
    assert!(USState::California.has_sdi());
    assert!(USState::NewYork.has_sdi());
    assert!(!USState::Texas.has_sdi());
}

#[test]
fn test_from_code() {
    assert_eq!(USState::from_code("CA"), Some(USState::California));
    assert_eq!(USState::from_code("ca"), Some(USState::California));
    assert_eq!(USState::from_code("TX"), Some(USState::Texas));
    assert_eq!(USState::from_code("XX"), None);
}

#[test]
fn test_all_states_count() {
    assert_eq!(USState::all().len(), 51);
}

#[test]
fn state_names_and_local_tax() {
    assert_eq!(USState::WashingtonDC.code(), "DC");
    assert_eq!(USState::WashingtonDC.name(), "Washington D.C.");
    assert!(USState::Ohio.has_local_tax());
    assert!(!USState::Texas.has_local_tax());
    for (i, s) in USState::all().iter().enumerate() {
        assert_eq!(s.index(), i);
        assert_eq!(USState::from_code(s.code()), Some(*s));
    }
}

#[test]
fn filing_status_names() {
    assert_eq!(FilingStatus::MarriedFilingJointly.as_str(), "married_filing_jointly");
    assert_eq!(FilingStatus::QualifyingWidower.display_name(), "Qualifying Widow(er)");
    assert_eq!(FilingStatus::HeadOfHousehold.short_name(), "HoH");
    assert_eq!(FilingStatus::default(), FilingStatus::Single);
}

#[test]
fn test_bracket_calculate() {
    let bracket = TaxBracket::new(d("47150"), Some(d("100525")), d("0.22"), d("5426"));
    let tax = bracket.calculate(d("80000"));
    assert_eq!(v(tax), dv("5426") + (dv("80000") - dv("47150")) * dv("0.22"));
}

#[test]
fn test_bracket_contains() {
    let bracket = TaxBracket::new(d("47150"), Some(d("100525")), d("0.22"), d("5426"));
    assert!(!bracket.contains(d("40000")));
    assert!(bracket.contains(d("50000")));
    assert!(bracket.contains(d("100000")));
    assert!(!bracket.contains(d("110000")));
}

#[test]
fn bracket_below_floor_is_zero() {
    let bracket = TaxBracket::new(d("47150"), None, d("0.22"), d("5426"));
    assert_eq!(v(bracket.calculate(d("47150"))), dv("0"));
    assert!(bracket.contains(d("9999999")));
}

#[test]
fn deductions() {
    assert_eq!(DeductionType::Hsa.display_name(), "HSA Contribution");
    assert!(DeductionType::Traditional401k.is_pre_tax());
    assert!(!DeductionType::Roth401k.is_pre_tax());
    let per_check = Deduction::new(DeductionType::HealthInsurance, d("150.25"), DeductionFrequency::PerPaycheck, 26);
    assert_eq!(per_check.name, "Health Insurance");
    assert!(per_check.is_pre_tax);
    assert_eq!(v(per_check.annual_amount()), dv("3906.50"));
    let monthly = Deduction::new(DeductionType::UnionDues, d("40"), DeductionFrequency::Monthly, 26);
    assert_eq!(v(monthly.annual_amount()), dv("480"));
    let annual = Deduction::new(DeductionType::Other, d("99"), DeductionFrequency::Annual, 26);
    assert_eq!(v(annual.annual_amount()), dv("99"));
}

#[test]
fn retirement_and_summary() {
    let mut r = RetirementContributions::new();
    assert_eq!(v(r.vesting_percentage), dv("1"));
    r.traditional_401k = d("10000");
    r.roth_401k = d("2000");
    r.employer_match = d("3000");
    r.vesting_percentage = d("0.6");
    assert_eq!(v(r.total_employee_contributions()), dv("12000"));
    assert_eq!(v(r.vested_employer_match()), dv("1800"));
    assert_eq!(v(r.total_with_match()), dv("13800"));
    let summary = DeductionsSummary { pre_tax_total: d("500"), post_tax_total: d("250"), retirement: r };
    assert_eq!(v(summary.total()), dv("12750"));
    assert_eq!(v(RetirementContributions::default().vesting_percentage), dv("0"));
}

#[test]
fn decimal_ordering_and_equality_by_value() {
    assert_eq!(d("1.50"), d("1.5"));
    assert!(d("2").gt(&d("1.99")));
    assert_eq!(d("3").min(d("2.5")), d("2.5"));
    assert_eq!(d("-3").max(d("0")), d("0"));
    assert_eq!(d("-3").compare(&d("-3.000")), 0);
    assert!(d("0.000001").is_within(6, 1));
    assert!(!d("0.0000001").is_within(6, 1));
}

#[test]
fn split_ratios_add_up_to_one() {
    for method in [SplitMethod::Proportional, SplitMethod::Equal, SplitMethod::Custom(d("0.35"))] {
        let s = calculate_split(d("3000"), d("7000"), d("1234.56"), method);
        assert_eq!(v(s.primary_ratio) + v(s.partner_ratio), dv("1"));
    }
    let s = calculate_split(d("8000"), d("2000"), d("1000"), SplitMethod::Proportional);
    assert_eq!(v(s.primary_monthly_amount), dv("800"));
}
