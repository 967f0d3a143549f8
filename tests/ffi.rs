use takehome_core::ffi::{
    calculate_household_split, calculate_taxes, compare_scenarios, convert_timeframes,
    get_all_filing_statuses, get_all_state_codes, get_tax_year, parse_filing_status,
    state_has_no_income_tax,
};
use takehome_core::{FilingStatus, TaxCalcError};

fn s(x: &str) -> String {
    x.to_string()
}

#[test]
fn test_calculate_taxes_ffi() {
    let result = calculate_taxes(s("100000"), s("single"), s("CA"), s("0"), s("0"), s("0"), s("0"));
    assert!(result.is_ok());
    let r = result.unwrap();
    assert_eq!(r.gross_annual, "100000");
    assert!(!r.net_annual.is_empty());
}

#[test]
fn test_convert_timeframes_ffi() {
    let result = convert_timeframes(s("104000"));
    assert!(result.is_ok());
    let t = result.unwrap();
    assert_eq!(t.annual, "104000");
    assert_eq!(t.bi_weekly, "4000");
    assert_eq!(t.hourly, "50");
}

#[test]
fn test_household_split_ffi() {
    let result = calculate_household_split(s("8000"), s("2000"), s("1000"), s("proportional"));
    assert!(result.is_ok());
    let sp = result.unwrap();
    assert!(sp.primary_ratio == "0.8" || sp.primary_ratio == "0.80");
    assert!(sp.primary_amount == "800" || sp.primary_amount == "800.00" || sp.primary_amount == "800.0");
}

#[test]
fn test_state_codes() {
    let codes = get_all_state_codes();
    assert_eq!(codes.len(), 51);
    assert!(codes.contains(&"CA".to_string()));
    assert!(codes.contains(&"TX".to_string()));
}

#[test]
fn test_no_income_tax_check() {
    assert!(state_has_no_income_tax(s("TX")));
    assert!(state_has_no_income_tax(s("FL")));
    assert!(!state_has_no_income_tax(s("CA")));
    assert!(!state_has_no_income_tax(s("NY")));
}

#[test]
fn ffi_invalid_decimal() {
    let r = calculate_taxes(s("abc"), s("single"), s("CA"), s("0"), s("0"), s("0"), s("0"));
    match r {
        Err(TaxCalcError::InvalidDecimal { message }) => assert_eq!(message, "abc"),
        _ => panic!("expected an invalid decimal"),
    }
}

#[test]
fn ffi_invalid_filing_status() {
    let r = calculate_taxes(s("1000"), s("married"), s("CA"), s("0"), s("0"), s("0"), s("0"));
    match r {
        Err(TaxCalcError::InvalidFilingStatus { message }) => assert_eq!(message, "married"),
        _ => panic!("expected an invalid filing status"),
    }
}

#[test]
fn ffi_invalid_state() {
    let r = calculate_taxes(s("1000"), s("single"), s("XX"), s("0"), s("0"), s("0"), s("0"));
    match r {
        Err(TaxCalcError::InvalidState { message }) => assert_eq!(message, "XX"),
        _ => panic!("expected an invalid state"),
    }
}

#[test]
fn ffi_amount_out_of_range() {
    let r = calculate_taxes(s("5000000000000"), s("single"), s("CA"), s("0"), s("0"), s("0"), s("0"));
    assert!(matches!(r, Err(TaxCalcError::CalculationError { .. })));
}

#[test]
fn ffi_lower_case_state_code_accepted() {
    let r = calculate_taxes(s("100000"), s("head_of_household"), s("tx"), s("0"), s("0"), s("0"), s("0"));
    let r = r.unwrap();
    assert_eq!(r.state_code, "TX");
    assert_eq!(r.state_income_tax, "0");
    assert_eq!(r.social_security, "6200.000");
}

#[test]
fn ffi_compare_scenarios() {
    let c = compare_scenarios(
        s("150000"), s("single"), s("CA"), s("0"), s("0"), s("0"), s("0"),
        s("150000"), s("single"), s("TX"), s("0"), s("0"), s("0"), s("0"),
    )
    .unwrap();
    assert!(c.is_positive);
    assert!(!c.net_difference.starts_with('-'));
    assert_eq!(c.base.gross_annual, "150000");
}

#[test]
fn ffi_split_methods() {
    let e = calculate_household_split(s("8000"), s("2000"), s("1000"), s("equal")).unwrap();
    assert_eq!(e.primary_ratio, "0.5");
    assert_eq!(e.partner_ratio, "0.5");
    let c = calculate_household_split(s("8000"), s("2000"), s("1000"), s("custom:0.7")).unwrap();
    assert_eq!(c.primary_ratio, "0.7");
    assert_eq!(c.partner_ratio, "0.3");
    let bad = calculate_household_split(s("8000"), s("2000"), s("1000"), s("custom:x"));
    assert!(matches!(bad, Err(TaxCalcError::InvalidDecimal { .. })));
    let other = calculate_household_split(s("8000"), s("2000"), s("1000"), s("other")).unwrap();
    assert_eq!(other.primary_amount, "800.00");
}

#[test]
fn ffi_lists_and_year() {
    assert_eq!(get_tax_year(), 2024);
    let statuses = get_all_filing_statuses();
    assert_eq!(statuses.len(), 5);
    assert_eq!(statuses[0], "single");
    assert_eq!(statuses[4], "qualifying_widower");
    assert!(matches!(parse_filing_status("married_filing_separately"), Ok(FilingStatus::MarriedFilingSeparately)));
    assert!(!state_has_no_income_tax(s("ZZ")));
}

#[test]
fn ffi_timeframes_monthly_text() {
    let t = convert_timeframes(s("120000")).unwrap();
    assert_eq!(t.monthly, "10000");
    assert_eq!(t.weekly, (rust_decimal::Decimal::from(120000) / rust_decimal::Decimal::from(52)).to_string());
}
