use rust_decimal::Decimal;
use takehome_core::data::embedded::EmbeddedTaxData;
use takehome_core::data::{StateTaxType, TaxDataProvider};
use takehome_core::{Dec, FilingStatus, USState};

fn v(x: Dec) -> Decimal {
    Decimal::from_i128_with_scale(x.mantissa, x.scale)
}

fn dv(s: &str) -> Decimal {
    s.parse().unwrap()
}

#[test]
fn test_embedded_data_creation() {
    let data = EmbeddedTaxData::new();
    let single_brackets = data.federal_brackets(FilingStatus::Single, 2024);
    assert_eq!(single_brackets.len(), 7);
    assert_eq!(v(single_brackets[0].floor), dv("0"));
    assert_eq!(v(single_brackets[0].rate), dv("0.10"));
}

#[test]
fn test_standard_deductions() {
    let data = EmbeddedTaxData::new();
    assert_eq!(v(data.standard_deduction(FilingStatus::Single, 2024)), dv("14600"));
    assert_eq!(v(data.standard_deduction(FilingStatus::MarriedFilingJointly, 2024)), dv("29200"));
}

#[test]
fn test_fica_config() {
    let data = EmbeddedTaxData::new();
    let fica = data.fica_config(2024);
    assert_eq!(v(fica.social_security_rate), dv("0.062"));
    assert_eq!(v(fica.wage_base), dv("168600"));
    assert_eq!(v(fica.medicare_rate), dv("0.0145"));
}

#[test]
fn test_california_config() {
    let data = EmbeddedTaxData::new();
    let ca = data.state_config(USState::California, 2024);
    assert_eq!(ca.tax_type, StateTaxType::Progressive);
    assert!(ca.sdi_rate.is_some());
    assert_eq!(v(ca.sdi_rate.unwrap()), dv("0.011"));
}

#[test]
fn test_no_tax_states() {
    let data = EmbeddedTaxData::new();
    let tx = data.state_config(USState::Texas, 2024);
    assert_eq!(tx.tax_type, StateTaxType::NoTax);
    let fl = data.state_config(USState::Florida, 2024);
    assert_eq!(fl.tax_type, StateTaxType::NoTax);
}

#[test]
fn embedded_test_flat_tax_states() {
    let data = EmbeddedTaxData::new();
    let co = data.state_config(USState::Colorado, 2024);
    assert_eq!(co.tax_type, StateTaxType::FlatRate);
    assert_eq!(co.flat_rate.map(v), Some(dv("0.044")));
    let il = data.state_config(USState::Illinois, 2024);
    assert_eq!(il.tax_type, StateTaxType::FlatRate);
    assert_eq!(il.flat_rate.map(v), Some(dv("0.0495")));
}

#[test]
fn embedded_every_state_configured_with_its_code() {
    let data = EmbeddedTaxData::new();
    for s in USState::all() {
        assert_eq!(data.state_config(s, 2024).state_code, s.code());
    }
    let ks = data.state_config(USState::Kansas, 2024);
    assert_eq!(ks.tax_type, StateTaxType::Progressive);
    assert_eq!(v(ks.brackets[0].brackets[0].rate), dv("0.05"));
}

#[test]
fn embedded_qualifying_widower_uses_joint_tables() {
    let data = EmbeddedTaxData::new();
    let qw = data.federal_brackets(FilingStatus::QualifyingWidower, 2024);
    let mfj = data.federal_brackets(FilingStatus::MarriedFilingJointly, 2024);
    assert_eq!(qw, mfj);
    assert_eq!(v(data.standard_deduction(FilingStatus::HeadOfHousehold, 2024)), dv("21900"));
}
