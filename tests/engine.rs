use rust_decimal::Decimal;
use takehome_core::data::embedded::EmbeddedTaxData;
use takehome_core::{Dec, FilingStatus, TaxCalculationEngine, TaxCalculationInput, USState};

fn d(s: &str) -> Dec {
    let x: Decimal = s.parse().unwrap();
    Dec { mantissa: x.mantissa(), scale: x.scale() }
}

fn v(x: Dec) -> Decimal {
    Decimal::from_i128_with_scale(x.mantissa, x.scale)
}

fn dv(s: &str) -> Decimal {
    s.parse().unwrap()
}

fn setup() -> EmbeddedTaxData {
    EmbeddedTaxData::new()
}

#[test]
fn test_full_calculation() {
    let data = setup();
    let engine = TaxCalculationEngine::new(&data, 2024);
    let input = TaxCalculationInput {
        gross_income: d("100000"),
        filing_status: FilingStatus::Single,
        state: USState::California,
        pre_tax_deductions: d("0"),
        post_tax_deductions: d("0"),
        traditional_401k: d("0"),
        roth_401k: d("0"),
    };
    let result = engine.calculate(&input);
    assert_eq!(v(result.income.gross), dv("100000"));
    assert!(v(result.income.net) < v(result.income.gross));
    assert!(v(result.income.net) > dv("50000"));
    assert!(v(result.income.net) < dv("75000"));
    let expected_pct = (v(result.income.net) / v(result.income.gross)) * dv("100");
    assert_eq!(v(result.income.take_home_percentage), expected_pct);
    assert_eq!(v(result.income.timeframes.annual), v(result.income.net));
    assert!(v(result.income.timeframes.monthly) > dv("0"));
}

#[test]
fn test_401k_reduces_taxes() {
    let data = setup();
    let engine = TaxCalculationEngine::new(&data, 2024);
    let without_401k = TaxCalculationInput {
        gross_income: d("100000"),
        filing_status: FilingStatus::Single,
        state: USState::California,
        traditional_401k: d("0"),
        ..Default::default()
    };
    let with_401k = TaxCalculationInput { traditional_401k: d("20000"), ..without_401k.clone() };
    let result_without = engine.calculate(&without_401k);
    let result_with = engine.calculate(&with_401k);
    assert!(v(result_with.tax_breakdown.federal.tax) < v(result_without.tax_breakdown.federal.tax));
    assert!(v(result_with.income.net) < v(result_without.income.net));
}

#[test]
fn test_scenario_comparison_state_move() {
    let data = setup();
    let engine = TaxCalculationEngine::new(&data, 2024);
    let ca_input = TaxCalculationInput {
        gross_income: d("150000"),
        filing_status: FilingStatus::Single,
        state: USState::California,
        ..Default::default()
    };
    let tx_input = TaxCalculationInput { state: USState::Texas, ..ca_input.clone() };
    let comparison = engine.compare_scenarios(&ca_input, &tx_input);
    assert!(comparison.is_positive());
    assert!(v(comparison.net_difference) > dv("0"));
    assert!(v(comparison.monthly_difference) > dv("0"));
    assert_eq!(v(comparison.scenario.tax_breakdown.state.income_tax), dv("0"));
}

#[test]
fn test_scenario_comparison_raise() {
    let data = setup();
    let engine = TaxCalculationEngine::new(&data, 2024);
    let current = TaxCalculationInput {
        gross_income: d("100000"),
        filing_status: FilingStatus::Single,
        state: USState::California,
        ..Default::default()
    };
    let raise = TaxCalculationInput { gross_income: d("120000"), ..current.clone() };
    let comparison = engine.compare_scenarios(&current, &raise);
    assert!(comparison.is_positive());
    assert!(v(comparison.net_difference) > dv("0"));
    assert!(v(comparison.net_difference) < dv("20000"));
}

#[test]
fn test_effective_rates() {
    let data = setup();
    let engine = TaxCalculationEngine::new(&data, 2024);
    let input = TaxCalculationInput {
        gross_income: d("100000"),
        filing_status: FilingStatus::Single,
        state: USState::California,
        ..Default::default()
    };
    let result = engine.calculate(&input);
    let sum = v(result.effective_rates.federal)
        + v(result.effective_rates.state)
        + v(result.effective_rates.fica);
    let diff = (v(result.effective_rates.total) - sum).abs();
    assert!(diff < dv("0.001"));
    assert!(v(result.effective_rates.total) < dv("0.5"));
}

#[test]
fn engine_test_zero_income() {
    let data = setup();
    let engine = TaxCalculationEngine::new(&data, 2024);
    let input = TaxCalculationInput { gross_income: d("0"), ..Default::default() };
    let result = engine.calculate(&input);
    assert_eq!(v(result.income.gross), dv("0"));
    assert_eq!(v(result.income.net), dv("0"));
    assert_eq!(v(result.tax_breakdown.total_taxes), dv("0"));
}

#[test]
fn engine_zero_income_rates_are_zero() {
    let data = setup();
    let engine = TaxCalculationEngine::new(&data, 2024);
    for state in [USState::California, USState::Texas, USState::Colorado, USState::NewYork] {
        let input = TaxCalculationInput { state, ..Default::default() };
        let r = engine.calculate(&input);
        assert_eq!(v(r.income.net), dv("0"));
        assert_eq!(v(r.effective_rates.federal), dv("0"));
        assert_eq!(v(r.effective_rates.state), dv("0"));
        assert_eq!(v(r.effective_rates.fica), dv("0"));
        assert_eq!(v(r.effective_rates.total), dv("0"));
        assert_eq!(v(r.income.take_home_percentage), dv("0"));
    }
}

#[test]
fn engine_net_is_gross_less_taxes_and_deductions() {
    let data = setup();
    let engine = TaxCalculationEngine::new(&data, 2024);
    let input = TaxCalculationInput {
        gross_income: d("90000"),
        filing_status: FilingStatus::MarriedFilingJointly,
        state: USState::Virginia,
        pre_tax_deductions: d("1200.50"),
        post_tax_deductions: d("300"),
        traditional_401k: d("5000"),
        roth_401k: d("2000"),
    };
    let r = engine.calculate(&input);
    let t = &r.tax_breakdown;
    assert_eq!(
        v(t.total_taxes),
        v(t.federal.tax) + v(t.state.total_tax) + v(t.fica.total)
    );
    let expected = dv("90000") - v(t.total_taxes) - dv("6200.50") - dv("2300");
    assert_eq!(v(r.income.net), expected);
    // Federal taxable: 90000 - 6200.50 - 29200 = 54599.50
    assert_eq!(v(t.federal.taxable_income), dv("54599.50"));
    // Jurisdiction taxable: 90000 - 6200.50
    assert_eq!(v(t.state.taxable_income), dv("83799.50"));
    // Payroll tax on the full gross
    assert_eq!(v(t.fica.total), dv("90000") * dv("0.0765"));
}

#[test]
fn engine_comparison_is_antisymmetric() {
    let data = setup();
    let engine = TaxCalculationEngine::new(&data, 2024);
    let a = TaxCalculationInput {
        gross_income: d("85000"),
        state: USState::Oregon,
        ..Default::default()
    };
    let b = TaxCalculationInput {
        gross_income: d("91000"),
        filing_status: FilingStatus::HeadOfHousehold,
        state: USState::Georgia,
        ..Default::default()
    };
    let ab = engine.compare_scenarios(&a, &b);
    let ba = engine.compare_scenarios(&b, &a);
    assert_eq!(v(ab.net_difference), -v(ba.net_difference));
    assert_eq!(v(ab.monthly_difference), v(ab.net_difference) / dv("12"));
}

#[test]
fn engine_net_difference_percent() {
    let data = setup();
    let engine = TaxCalculationEngine::new(&data, 2024);
    let base = TaxCalculationInput { gross_income: d("100000"), ..Default::default() };
    let same = engine.compare_scenarios(&base, &base);
    assert_eq!(v(same.net_difference), dv("0"));
    assert!(!same.is_positive());
    assert_eq!(v(same.net_difference_percent()), dv("0"));
    let zero = TaxCalculationInput::default();
    let c = engine.compare_scenarios(&zero, &base);
    assert_eq!(v(c.net_difference_percent()), dv("0"));
}

#[test]
fn engine_rates_add_up_for_small_gross() {
    let data = setup();
    let engine = TaxCalculationEngine::new(&data, 2024);
    let input = TaxCalculationInput {
        gross_income: d("0.07"),
        state: USState::NewYork,
        ..Default::default()
    };
    let r = engine.calculate(&input);
    let sum = v(r.effective_rates.federal) + v(r.effective_rates.state) + v(r.effective_rates.fica);
    assert!((v(r.effective_rates.total) - sum).abs() < dv("0.001"));
}
