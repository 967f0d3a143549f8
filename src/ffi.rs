//! The text boundary: decimal, filing-status and jurisdiction identifiers in,
//! formatted results out.
use crate::data::embedded::EmbeddedTaxData;
use crate::decimal::{
    bounded, decimal_text, is_amount, decimal_to_string, in_range, parse_decimal_text,
    parsed_decimal, Dec, AMOUNT_LIMIT,
};
use crate::engine::{
    calculation_spec, comparison_spec, ScenarioComparison, TaxCalculationEngine, TaxCalculationInput, TaxCalculationResult,
    INPUT_LIMIT,
};
use crate::models::household::{
    calculate_split, split_spec, HouseholdSplit, SplitMethod, EXPENSE_LIMIT,
};
use crate::models::income::{timeframes_spec, TimeframeIncome};
use crate::models::state::{uppercase_of, USState, STATE_COUNT};
use crate::models::tax::FilingStatus;
use vstd::prelude::*;
use vstd::utf8::encode_utf8;

verus! {

/// Failures at the boundary, each carrying the offending text.
#[derive(Debug, Clone)]
pub enum TaxCalcError {
    InvalidDecimal { message: String },
    InvalidFilingStatus { message: String },
    InvalidState { message: String },
    CalculationError { message: String },
}

/// Tax year of the embedded tables.
pub const TAX_YEAR: u32 = 2024;

pub fn get_tax_year() -> (r: u32)
    ensures
        r == TAX_YEAR,
{
    TAX_YEAR
}

/// Parses a decimal text.
pub fn parse_decimal(s: &str) -> (r: Result<Dec, TaxCalcError>)
    ensures
        match r {
            Ok(d) => d.wf() && parsed_decimal(s@) == Some(d@),
            Err(TaxCalcError::InvalidDecimal { message }) => parsed_decimal(s@) is None
                && message@ == s@,
            Err(_) => false,
        },
{
    match parse_decimal_text(s) {
        Some(d) => Ok(d),
        None => Err(TaxCalcError::InvalidDecimal { message: s.to_owned() }),
    }
}

/// Parses a filing-status identifier.
pub fn parse_filing_status(s: &str) -> (r: Result<FilingStatus, TaxCalcError>)
    ensures
        match r {
            Ok(fs) => fs.as_str_spec() == s@,
            Err(TaxCalcError::InvalidFilingStatus { message }) => message@ == s@ && forall|
                fs: FilingStatus,
            | #[trigger] fs.as_str_spec() != s@,
            Err(_) => false,
        },
{
    let text = s.to_owned();
    let all = [
        FilingStatus::Single,
        FilingStatus::MarriedFilingJointly,
        FilingStatus::MarriedFilingSeparately,
        FilingStatus::HeadOfHousehold,
        FilingStatus::QualifyingWidower,
    ];
    let mut i: usize = 0;
    while i < 5
        invariant
            i <= 5,
            text@ == s@,
            all@ == seq![
                FilingStatus::Single,
                FilingStatus::MarriedFilingJointly,
                FilingStatus::MarriedFilingSeparately,
                FilingStatus::HeadOfHousehold,
                FilingStatus::QualifyingWidower,
            ],
            forall|j: int| 0 <= j < i ==> (#[trigger] all@[j]).as_str_spec() != s@,
        decreases 5 - i,
    {
        let fs = all[i];
        if fs.as_str().to_owned() == text {
            return Ok(fs);
        }
        i = i + 1;
    }
    proof {
        assert forall|fs: FilingStatus| #[trigger] fs.as_str_spec() != s@ by {
            match fs {
                FilingStatus::Single => assert(all@[0] == fs),
                FilingStatus::MarriedFilingJointly => assert(all@[1] == fs),
                FilingStatus::MarriedFilingSeparately => assert(all@[2] == fs),
                FilingStatus::HeadOfHousehold => assert(all@[3] == fs),
                FilingStatus::QualifyingWidower => assert(all@[4] == fs),
            }
        }
    }
    Err(TaxCalcError::InvalidFilingStatus { message: s.to_owned() })
}

/// `i` is what the seven texts of an input read as.
pub open spec fn input_parses_to(
    gross: Seq<char>,
    filing_status: Seq<char>,
    state: Seq<char>,
    pre_tax: Seq<char>,
    post_tax: Seq<char>,
    traditional: Seq<char>,
    roth: Seq<char>,
    i: TaxCalculationInput,
) -> bool {
    &&& parsed_decimal(gross) == Some(i.gross_income@)
    &&& i.filing_status.as_str_spec() == filing_status
    &&& i.state.code_spec() == uppercase_of(state)
    &&& parsed_decimal(pre_tax) == Some(i.pre_tax_deductions@)
    &&& parsed_decimal(post_tax) == Some(i.post_tax_deductions@)
    &&& parsed_decimal(traditional) == Some(i.traditional_401k@)
    &&& parsed_decimal(roth) == Some(i.roth_401k@)
    &&& i.gross_income.wf() && i.pre_tax_deductions.wf() && i.post_tax_deductions.wf()
    &&& i.traditional_401k.wf() && i.roth_401k.wf()
}

/// The text record shows the result's gross, net and total taxes.
pub open spec fn result_text(t: TaxResultFFI, r: TaxCalculationResult) -> bool {
    &&& t.gross_annual@ == decimal_text(r.income.gross@)
    &&& t.net_annual@ == decimal_text(r.income.net@)
    &&& t.total_taxes@ == decimal_text(r.tax_breakdown.total_taxes@)
    &&& t.state_code@ == r.tax_breakdown.state.state_code@
}

/// The text record shows the comparison's results, differences and direction.
pub open spec fn comparison_text(c: ScenarioComparisonFFI, cmp: ScenarioComparison) -> bool {
    &&& result_text(c.base, cmp.base)
    &&& result_text(c.scenario, cmp.scenario)
    &&& c.net_difference@ == decimal_text(cmp.net_difference@)
    &&& c.monthly_difference@ == decimal_text(cmp.monthly_difference@)
    &&& c.is_positive == (cmp.net_difference.value() > 0)
}

/// The text record shows every period's amount.
pub open spec fn timeframe_text(t: TimeframeFFI, tf: TimeframeIncome) -> bool {
    &&& t.annual@ == decimal_text(tf.annual@)
    &&& t.monthly@ == decimal_text(tf.monthly@)
    &&& t.bi_weekly@ == decimal_text(tf.bi_weekly@)
    &&& t.weekly@ == decimal_text(tf.weekly@)
    &&& t.daily@ == decimal_text(tf.daily@)
    &&& t.hourly@ == decimal_text(tf.hourly@)
}

/// The text record shows the split's ratios and amounts.
pub open spec fn split_text(h: HouseholdSplitFFI, sp: HouseholdSplit) -> bool {
    &&& h.primary_ratio@ == decimal_text(sp.primary_ratio@)
    &&& h.partner_ratio@ == decimal_text(sp.partner_ratio@)
    &&& h.primary_amount@ == decimal_text(sp.primary_monthly_amount@)
    &&& h.partner_amount@ == decimal_text(sp.partner_monthly_amount@)
}

/// Parses the seven texts of a calculation input.
pub fn parse_input(
    gross: &str,
    filing_status: &str,
    state: &str,
    pre_tax: &str,
    post_tax: &str,
    traditional: &str,
    roth: &str,
) -> (r: Result<TaxCalculationInput, TaxCalcError>)
    ensures
        r matches Ok(i) ==> input_parses_to(
            gross@,
            filing_status@,
            state@,
            pre_tax@,
            post_tax@,
            traditional@,
            roth@,
            i,
        ),
        r matches Err(e) ==> !(e is CalculationError),
        r is Err ==> {
            ||| parsed_decimal(gross@) is None
            ||| forall|fs: FilingStatus| #[trigger] fs.as_str_spec() != filing_status@
            ||| forall|s: USState| #[trigger] s.code_spec() != uppercase_of(state@)
            ||| parsed_decimal(pre_tax@) is None
            ||| parsed_decimal(post_tax@) is None
            ||| parsed_decimal(traditional@) is None
            ||| parsed_decimal(roth@) is None
        },
{
    let gross_income = parse_decimal(gross)?;
    let filing_status = parse_filing_status(filing_status)?;
    let state = match USState::from_code(state) {
        Some(s) => s,
        None => {
            return Err(TaxCalcError::InvalidState { message: state.to_owned() });
        },
    };
    let pre_tax_deductions = parse_decimal(pre_tax)?;
    let post_tax_deductions = parse_decimal(post_tax)?;
    let traditional_401k = parse_decimal(traditional)?;
    let roth_401k = parse_decimal(roth)?;
    Ok(
        TaxCalculationInput {
            gross_income,
            filing_status,
            state,
            pre_tax_deductions,
            post_tax_deductions,
            traditional_401k,
            roth_401k,
        },
    )
}

/// Checks at run time that an input lies in the calculators' range.
fn check_input(input: &TaxCalculationInput) -> (r: bool)
    ensures
        r == input.in_range(),
{
    input.gross_income.is_within(6, INPUT_LIMIT) && input.pre_tax_deductions.is_within(
        6,
        INPUT_LIMIT,
    ) && input.post_tax_deductions.is_within(6, INPUT_LIMIT) && input.traditional_401k.is_within(
        6,
        INPUT_LIMIT,
    ) && input.roth_401k.is_within(6, INPUT_LIMIT)
}

fn out_of_range() -> (r: TaxCalcError)
    ensures
        r is CalculationError,
{
    TaxCalcError::CalculationError { message: "amount out of range".to_owned() }
}

/// The text of a decimal value; empty for a value outside the representation
/// limits, which the calculators never produce.
pub fn format_decimal(d: Dec) -> (r: String)
    ensures
        d.wf() ==> r@ == decimal_text(d@),
{
    if d.check_wf() {
        decimal_to_string(d)
    } else {
        String::new()
    }
}

/// Whether the seven texts of an input all parse.
pub open spec fn texts_parse(
    gross: Seq<char>,
    filing_status: Seq<char>,
    state: Seq<char>,
    pre_tax: Seq<char>,
    post_tax: Seq<char>,
    traditional: Seq<char>,
    roth: Seq<char>,
) -> bool {
    &&& parsed_decimal(gross) is Some
    &&& exists|fs: FilingStatus| #[trigger] fs.as_str_spec() == filing_status
    &&& exists|s: USState| #[trigger] s.code_spec() == uppercase_of(state)
    &&& parsed_decimal(pre_tax) is Some
    &&& parsed_decimal(post_tax) is Some
    &&& parsed_decimal(traditional) is Some
    &&& parsed_decimal(roth) is Some
}

/// The decimal a text parses to, if any.
pub open spec fn parsed_dec(s: Seq<char>) -> Dec {
    let p = parsed_decimal(s).unwrap();
    Dec { mantissa: p.0 as i128, scale: p.1 as u32 }
}

/// Whether the parsed amounts of an input lie in the calculators' range.
pub open spec fn texts_in_range(
    gross: Seq<char>,
    pre_tax: Seq<char>,
    post_tax: Seq<char>,
    traditional: Seq<char>,
    roth: Seq<char>,
) -> bool {
    &&& bounded(parsed_dec(gross), 6, INPUT_LIMIT as int)
    &&& bounded(parsed_dec(pre_tax), 6, INPUT_LIMIT as int)
    &&& bounded(parsed_dec(post_tax), 6, INPUT_LIMIT as int)
    &&& bounded(parsed_dec(traditional), 6, INPUT_LIMIT as int)
    &&& bounded(parsed_dec(roth), 6, INPUT_LIMIT as int)
}

/// Parses and range-checks the seven texts of an input.
fn checked_input(
    gross: &str,
    filing_status: &str,
    state: &str,
    pre_tax: &str,
    post_tax: &str,
    traditional: &str,
    roth: &str,
) -> (r: Result<TaxCalculationInput, TaxCalcError>)
    ensures
        r is Ok <==> texts_parse(gross@, filing_status@, state@, pre_tax@, post_tax@, traditional@, roth@)
            && texts_in_range(gross@, pre_tax@, post_tax@, traditional@, roth@),
        r matches Ok(i) ==> i.in_range() && input_parses_to(
            gross@,
            filing_status@,
            state@,
            pre_tax@,
            post_tax@,
            traditional@,
            roth@,
            i,
        ),
        r matches Err(e) ==> (e is CalculationError <==> texts_parse(
            gross@,
            filing_status@,
            state@,
            pre_tax@,
            post_tax@,
            traditional@,
            roth@,
        )),
{
    let input = match parse_input(gross, filing_status, state, pre_tax, post_tax, traditional, roth) {
        Ok(i) => i,
        Err(e) => {
            proof {
                if texts_parse(gross@, filing_status@, state@, pre_tax@, post_tax@, traditional@, roth@) {
                    let fs = choose|fs: FilingStatus| #[trigger] fs.as_str_spec() == filing_status@;
                    let st = choose|s: USState| #[trigger] s.code_spec() == uppercase_of(state@);
                    assert(fs.as_str_spec() == filing_status@);
                    assert(st.code_spec() == uppercase_of(state@));
                }
            }
            return Err(e);
        },
    };
    proof {
        assert(input.gross_income == parsed_dec(gross@));
        assert(input.pre_tax_deductions == parsed_dec(pre_tax@));
        assert(input.post_tax_deductions == parsed_dec(post_tax@));
        assert(input.traditional_401k == parsed_dec(traditional@));
        assert(input.roth_401k == parsed_dec(roth@));
    }
    if !check_input(&input) {
        return Err(out_of_range());
    }
    Ok(input)
}

/// Calculates taxes for textual input with the embedded tables.
pub fn calculate_taxes(
    gross_income: String,
    filing_status: String,
    state_code: String,
    pre_tax_deductions: String,
    post_tax_deductions: String,
    traditional_401k: String,
    roth_401k: String,
) -> (r: Result<TaxResultFFI, TaxCalcError>)
    ensures
        r is Ok <==> texts_parse(
            gross_income@,
            filing_status@,
            state_code@,
            pre_tax_deductions@,
            post_tax_deductions@,
            traditional_401k@,
            roth_401k@,
        ) && texts_in_range(
            gross_income@,
            pre_tax_deductions@,
            post_tax_deductions@,
            traditional_401k@,
            roth_401k@,
        ),
        r matches Ok(t) ==> t.gross_annual@ == decimal_text(parsed_decimal(gross_income@).unwrap()),
        r matches Ok(t) ==> exists|d: EmbeddedTaxData, i: TaxCalculationInput, res: TaxCalculationResult|
            #[trigger] calculation_spec(&d, TAX_YEAR, i, res) && d.has_2024_tables()
                && input_parses_to(
                gross_income@,
                filing_status@,
                state_code@,
                pre_tax_deductions@,
                post_tax_deductions@,
                traditional_401k@,
                roth_401k@,
                i,
            ) && result_text(t, res),
        r matches Err(e) ==> (e is CalculationError <==> texts_parse(
            gross_income@,
            filing_status@,
            state_code@,
            pre_tax_deductions@,
            post_tax_deductions@,
            traditional_401k@,
            roth_401k@,
        )),
{
    let input = checked_input(
        gross_income.as_str(),
        filing_status.as_str(),
        state_code.as_str(),
        pre_tax_deductions.as_str(),
        post_tax_deductions.as_str(),
        traditional_401k.as_str(),
        roth_401k.as_str(),
    )?;
    let data = EmbeddedTaxData::new();
    let engine = TaxCalculationEngine::new(&data, TAX_YEAR);
    let result = engine.calculate(&input);
    let t = TaxResultFFI::from_result(&result);
    assert(calculation_spec(&data, TAX_YEAR, input, result) && result_text(t, result));
    Ok(t)
}

/// Compares two scenarios given as text, with the embedded tables.
pub fn compare_scenarios(
    base_gross: String,
    base_filing_status: String,
    base_state: String,
    base_pre_tax: String,
    base_post_tax: String,
    base_traditional_401k: String,
    base_roth_401k: String,
    scenario_gross: String,
    scenario_filing_status: String,
    scenario_state: String,
    scenario_pre_tax: String,
    scenario_post_tax: String,
    scenario_traditional_401k: String,
    scenario_roth_401k: String,
) -> (r: Result<ScenarioComparisonFFI, TaxCalcError>)
    ensures
        r is Ok <==> texts_parse(
            base_gross@,
            base_filing_status@,
            base_state@,
            base_pre_tax@,
            base_post_tax@,
            base_traditional_401k@,
            base_roth_401k@,
        ) && texts_in_range(
            base_gross@,
            base_pre_tax@,
            base_post_tax@,
            base_traditional_401k@,
            base_roth_401k@,
        ) && texts_parse(
            scenario_gross@,
            scenario_filing_status@,
            scenario_state@,
            scenario_pre_tax@,
            scenario_post_tax@,
            scenario_traditional_401k@,
            scenario_roth_401k@,
        ) && texts_in_range(
            scenario_gross@,
            scenario_pre_tax@,
            scenario_post_tax@,
            scenario_traditional_401k@,
            scenario_roth_401k@,
        ),
        r matches Ok(c) ==> exists|
            d: EmbeddedTaxData,
            bi: TaxCalculationInput,
            si: TaxCalculationInput,
            cmp: ScenarioComparison,
        |
            #[trigger] comparison_spec(&d, TAX_YEAR, bi, si, cmp) && d.has_2024_tables()
                && input_parses_to(
                base_gross@,
                base_filing_status@,
                base_state@,
                base_pre_tax@,
                base_post_tax@,
                base_traditional_401k@,
                base_roth_401k@,
                bi,
            ) && input_parses_to(
                scenario_gross@,
                scenario_filing_status@,
                scenario_state@,
                scenario_pre_tax@,
                scenario_post_tax@,
                scenario_traditional_401k@,
                scenario_roth_401k@,
                si,
            ) && comparison_text(c, cmp),
{
    let base = checked_input(
        base_gross.as_str(),
        base_filing_status.as_str(),
        base_state.as_str(),
        base_pre_tax.as_str(),
        base_post_tax.as_str(),
        base_traditional_401k.as_str(),
        base_roth_401k.as_str(),
    )?;
    let scenario = checked_input(
        scenario_gross.as_str(),
        scenario_filing_status.as_str(),
        scenario_state.as_str(),
        scenario_pre_tax.as_str(),
        scenario_post_tax.as_str(),
        scenario_traditional_401k.as_str(),
        scenario_roth_401k.as_str(),
    )?;
    let data = EmbeddedTaxData::new();
    let engine = TaxCalculationEngine::new(&data, TAX_YEAR);
    let comparison = engine.compare_scenarios(&base, &scenario);
    let c = ScenarioComparisonFFI::from_comparison(&comparison);
    assert(comparison_spec(&data, TAX_YEAR, base, scenario, comparison) && comparison_text(
        c,
        comparison,
    ));
    Ok(c)
}

/// An annual amount given as text over all standard periods.
pub fn convert_timeframes(annual: String) -> (r: Result<TimeframeFFI, TaxCalcError>)
    ensures
        r is Ok <==> parsed_decimal(annual@) is Some && in_range(parsed_dec(annual@).value()),
        r matches Ok(t) ==> t.annual@ == decimal_text(parsed_decimal(annual@).unwrap()),
        r matches Ok(t) ==> exists|tf: TimeframeIncome|
            #[trigger] timeframes_spec(tf, parsed_dec(annual@)) && timeframe_text(t, tf),
        r matches Err(e) ==> (e is InvalidDecimal <==> parsed_decimal(annual@) is None),
{
    let amount = parse_decimal(annual.as_str())?;
    assert(amount == parsed_dec(annual@));
    if !amount.is_in_range() {
        return Err(out_of_range());
    }
    let timeframes = TimeframeIncome::from_annual(amount);
    let t = TimeframeFFI::from_timeframes(&timeframes);
    assert(timeframes_spec(timeframes, parsed_dec(annual@)) && timeframe_text(t, timeframes));
    Ok(t)
}

/// Splits a shared expense given as text; the method is "proportional",
/// "equal" or "custom:<share>", and any other text means proportional.
pub fn calculate_household_split(
    primary_net: String,
    partner_net: String,
    shared_expense: String,
    split_method: String,
) -> (r: Result<HouseholdSplitFFI, TaxCalcError>)
    ensures
        r is Ok ==> parsed_decimal(primary_net@) is Some && parsed_decimal(partner_net@) is Some
            && parsed_decimal(shared_expense@) is Some,
        (parsed_decimal(primary_net@) is None || parsed_decimal(partner_net@) is None
            || parsed_decimal(shared_expense@) is None) ==> r matches Err(
            TaxCalcError::InvalidDecimal { .. },
        ),
        (parsed_decimal(primary_net@) is Some && parsed_decimal(partner_net@) is Some
            && parsed_decimal(shared_expense@) is Some && is_amount(parsed_dec(primary_net@))
            && is_amount(parsed_dec(partner_net@)) && bounded(
            parsed_dec(shared_expense@),
            6,
            EXPENSE_LIMIT as int,
        ) && (split_method@ == "proportional"@ || split_method@ == "equal"@ || !custom_prefix(
            encode_utf8(split_method@),
        ))) ==> r is Ok,
        r matches Ok(h) ==> exists|m: SplitMethod, sp: HouseholdSplit|
            #[trigger] split_spec(
                sp,
                parsed_dec(primary_net@),
                parsed_dec(partner_net@),
                parsed_dec(shared_expense@),
                m,
            ) && split_text(h, sp) && (split_method@ == "proportional"@ ==> m
                == SplitMethod::Proportional) && (split_method@ == "equal"@ ==> m
                == SplitMethod::Equal) && ((split_method@ != "equal"@ && !custom_prefix(
                encode_utf8(split_method@),
            )) ==> m == SplitMethod::Proportional) && (m matches SplitMethod::Custom(pct)
                ==> custom_text(split_method@, pct)),
{
    let primary = parse_decimal(primary_net.as_str())?;
    let partner = parse_decimal(partner_net.as_str())?;
    let expense = parse_decimal(shared_expense.as_str())?;
    assert(primary == parsed_dec(primary_net@) && partner == parsed_dec(partner_net@) && expense
        == parsed_dec(shared_expense@));
    let method = split_method_of(split_method.as_str())?;
    let pct_ok = match method {
        SplitMethod::Custom(pct) => pct.is_within(6, AMOUNT_LIMIT),
        _ => true,
    };
    if !primary.is_within(6, AMOUNT_LIMIT) || !partner.is_within(6, AMOUNT_LIMIT)
        || !expense.is_within(6, EXPENSE_LIMIT) || !pct_ok {
        return Err(out_of_range());
    }
    let split = calculate_split(primary, partner, expense, method);
    let h = HouseholdSplitFFI::from_split(&split);
    assert(split_spec(split, primary, partner, expense, method) && split_text(h, split));
    Ok(h)
}

/// The UTF-8 bytes of a text start with "custom:".
pub open spec fn custom_prefix(b: Seq<u8>) -> bool {
    &&& b.len() >= 7
    &&& b[0] == 99u8
    &&& b[1] == 117u8
    &&& b[2] == 115u8
    &&& b[3] == 116u8
    &&& b[4] == 111u8
    &&& b[5] == 109u8
    &&& b[6] == 58u8
}

/// A text reads "custom:" followed by the decimal `pct`.
pub open spec fn custom_text(s: Seq<char>, pct: Dec) -> bool {
    &&& custom_prefix(encode_utf8(s))
    &&& exists|tail: Seq<char>|
        encode_utf8(tail) == encode_utf8(s).subrange(7, encode_utf8(s).len() as int)
            && #[trigger] parsed_decimal(tail) == Some(pct@)
}

/// The split method a text names: "proportional", "equal", or "custom:" followed
/// by the primary earner's share; anything else means proportional.
fn split_method_of(s: &str) -> (r: Result<SplitMethod, TaxCalcError>)
    ensures
        r matches Ok(SplitMethod::Custom(pct)) ==> pct.wf() && custom_text(s@, pct),
        s@ == "proportional"@ ==> r == Ok::<SplitMethod, TaxCalcError>(SplitMethod::Proportional),
        s@ == "equal"@ ==> r == Ok::<SplitMethod, TaxCalcError>(SplitMethod::Equal),
        (s@ != "proportional"@ && s@ != "equal"@ && !custom_prefix(encode_utf8(s@))) ==> r
            == Ok::<SplitMethod, TaxCalcError>(SplitMethod::Proportional),
        r matches Err(e) ==> e is InvalidDecimal && custom_prefix(encode_utf8(s@)),
{
    proof {
        reveal_strlit("proportional");
        reveal_strlit("equal");
        assert("equal"@.len() == 5 && "proportional"@.len() == 12);
        assert("equal"@ != "proportional"@);
    }
    let text = s.to_owned();
    if text == "proportional".to_owned() {
        return Ok(SplitMethod::Proportional);
    }
    if text == "equal".to_owned() {
        return Ok(SplitMethod::Equal);
    }
    let bytes = s.as_bytes();
    if bytes.len() >= 7 && bytes[0] == 99u8 && bytes[1] == 117u8 && bytes[2] == 115u8 && bytes[3]
        == 116u8 && bytes[4] == 111u8 && bytes[5] == 109u8 && bytes[6] == 58u8
        && s.is_char_boundary(7) {
        let (_head, tail) = s.split_at(7);
        let pct = parse_decimal(tail)?;
        proof {
            assert(encode_utf8(tail@) == encode_utf8(s@).subrange(7, encode_utf8(s@).len() as int));
            assert(parsed_decimal(tail@) == Some(pct@));
        }
        return Ok(SplitMethod::Custom(pct));
    }
    Ok(SplitMethod::Proportional)
}

/// Postal codes of all jurisdictions, in alphabetical order of name.
pub fn get_all_state_codes() -> (r: Vec<String>)
    ensures
        r@.len() == STATE_COUNT,
        forall|s: USState| (#[trigger] r@[s.index_spec()])@ == s.code_spec(),
{
    let states = USState::all();
    let mut r: Vec<String> = Vec::new();
    let mut i: usize = 0;
    while i < states.len()
        invariant
            i <= states@.len(),
            states@.len() == STATE_COUNT,
            forall|j: int| 0 <= j < states@.len() ==> (#[trigger] states@[j]).index_spec() == j,
            r@.len() == i,
            forall|s: USState| s.index_spec() < i ==> (#[trigger] r@[s.index_spec()])@ == s.code_spec(),
        decreases states@.len() - i,
    {
        let st = states[i];
        r.push(st.code().to_owned());
        proof {
            assert forall|s: USState| s.index_spec() < i + 1 implies (#[trigger] r@[s.index_spec()])@
                == s.code_spec() by {
                if s.index_spec() == i {
                    assert(s == st);
                }
            }
        }
        i = i + 1;
    }
    proof {
        assert forall|s: USState| (#[trigger] r@[s.index_spec()])@ == s.code_spec() by {
            assert(s.index_spec() < STATE_COUNT);
        }
    }
    r
}

/// Identifiers of all filing statuses.
pub fn get_all_filing_statuses() -> (r: Vec<String>)
    ensures
        r@.len() == 5,
        r@[0]@ == FilingStatus::Single.as_str_spec(),
        r@[1]@ == FilingStatus::MarriedFilingJointly.as_str_spec(),
        r@[2]@ == FilingStatus::MarriedFilingSeparately.as_str_spec(),
        r@[3]@ == FilingStatus::HeadOfHousehold.as_str_spec(),
        r@[4]@ == FilingStatus::QualifyingWidower.as_str_spec(),
{
    let mut r: Vec<String> = Vec::new();
    r.push(FilingStatus::Single.as_str().to_owned());
    r.push(FilingStatus::MarriedFilingJointly.as_str().to_owned());
    r.push(FilingStatus::MarriedFilingSeparately.as_str().to_owned());
    r.push(FilingStatus::HeadOfHousehold.as_str().to_owned());
    r.push(FilingStatus::QualifyingWidower.as_str().to_owned());
    r
}

/// Whether a postal code names a jurisdiction without income tax; false for an
/// unknown code.
pub fn state_has_no_income_tax(state_code: String) -> (r: bool)
    ensures
        r ==> exists|s: USState| #[trigger] s.code_spec() == uppercase_of(state_code@)
            && s.has_no_income_tax_spec(),
        (forall|s: USState| #[trigger] s.code_spec() != uppercase_of(state_code@)) ==> !r,
{
    match USState::from_code(state_code.as_str()) {
        Some(s) => s.has_no_income_tax(),
        None => false,
    }
}

/// Calculation result as text.
#[derive(Debug, Clone)]
pub struct TaxResultFFI {
    pub gross_annual: String,
    pub net_annual: String,
    pub net_monthly: String,
    pub net_biweekly: String,
    pub net_weekly: String,
    pub net_daily: String,
    pub net_hourly: String,
    pub take_home_percentage: String,
    pub federal_tax: String,
    pub federal_effective_rate: String,
    pub federal_marginal_rate: String,
    pub state_code: String,
    pub state_income_tax: String,
    pub state_local_tax: String,
    pub state_sdi: String,
    pub state_total_tax: String,
    pub social_security: String,
    pub medicare: String,
    pub additional_medicare: String,
    pub fica_total: String,
    pub total_taxes: String,
    pub total_effective_rate: String,
}

impl TaxResultFFI {
    pub fn from_result(r: &TaxCalculationResult) -> (t: TaxResultFFI)
        ensures
            r.income.gross.wf() ==> t.gross_annual@ == decimal_text(r.income.gross@),
            r.income.net.wf() ==> t.net_annual@ == decimal_text(r.income.net@),
            r.tax_breakdown.total_taxes.wf() ==> t.total_taxes@ == decimal_text(
                r.tax_breakdown.total_taxes@,
            ),
            t.state_code@ == r.tax_breakdown.state.state_code@,
    {
        TaxResultFFI {
            gross_annual: format_decimal(r.income.gross),
            net_annual: format_decimal(r.income.net),
            net_monthly: format_decimal(r.income.timeframes.monthly),
            net_biweekly: format_decimal(r.income.timeframes.bi_weekly),
            net_weekly: format_decimal(r.income.timeframes.weekly),
            net_daily: format_decimal(r.income.timeframes.daily),
            net_hourly: format_decimal(r.income.timeframes.hourly),
            take_home_percentage: format_decimal(r.income.take_home_percentage),
            federal_tax: format_decimal(r.tax_breakdown.federal.tax),
            federal_effective_rate: format_decimal(r.tax_breakdown.federal.effective_rate),
            federal_marginal_rate: format_decimal(r.tax_breakdown.federal.marginal_rate),
            state_code: r.tax_breakdown.state.state_code.clone(),
            state_income_tax: format_decimal(r.tax_breakdown.state.income_tax),
            state_local_tax: format_decimal(r.tax_breakdown.state.local_tax),
            state_sdi: format_decimal(r.tax_breakdown.state.sdi),
            state_total_tax: format_decimal(r.tax_breakdown.state.total_tax),
            social_security: format_decimal(r.tax_breakdown.fica.social_security),
            medicare: format_decimal(r.tax_breakdown.fica.medicare),
            additional_medicare: format_decimal(r.tax_breakdown.fica.additional_medicare),
            fica_total: format_decimal(r.tax_breakdown.fica.total),
            total_taxes: format_decimal(r.tax_breakdown.total_taxes),
            total_effective_rate: format_decimal(r.effective_rates.total),
        }
    }
}

/// Scenario comparison as text.
#[derive(Debug, Clone)]
pub struct ScenarioComparisonFFI {
    pub base: TaxResultFFI,
    pub scenario: TaxResultFFI,
    pub net_difference: String,
    pub monthly_difference: String,
    pub is_positive: bool,
}

impl ScenarioComparisonFFI {
    pub fn from_comparison(c: &ScenarioComparison) -> (t: ScenarioComparisonFFI)
        ensures
            c.net_difference.wf() ==> t.net_difference@ == decimal_text(c.net_difference@),
            c.monthly_difference.wf() ==> t.monthly_difference@ == decimal_text(
                c.monthly_difference@,
            ),
            c.net_difference.wf() ==> t.is_positive == (c.net_difference.value() > 0),
            (c.base.income.gross.wf() && c.base.income.net.wf()
                && c.base.tax_breakdown.total_taxes.wf()) ==> result_text(t.base, c.base),
            (c.scenario.income.gross.wf() && c.scenario.income.net.wf()
                && c.scenario.tax_breakdown.total_taxes.wf()) ==> result_text(
                t.scenario,
                c.scenario,
            ),
    {
        let is_positive = if c.net_difference.check_wf() {
            c.is_positive()
        } else {
            false
        };
        ScenarioComparisonFFI {
            base: TaxResultFFI::from_result(&c.base),
            scenario: TaxResultFFI::from_result(&c.scenario),
            net_difference: format_decimal(c.net_difference),
            monthly_difference: format_decimal(c.monthly_difference),
            is_positive,
        }
    }
}

/// Per-period amounts as text.
#[derive(Debug, Clone)]
pub struct TimeframeFFI {
    pub annual: String,
    pub monthly: String,
    pub bi_weekly: String,
    pub weekly: String,
    pub daily: String,
    pub hourly: String,
}

impl TimeframeFFI {
    pub fn from_timeframes(t: &TimeframeIncome) -> (r: TimeframeFFI)
        ensures
            t.annual.wf() ==> r.annual@ == decimal_text(t.annual@),
            t.monthly.wf() ==> r.monthly@ == decimal_text(t.monthly@),
            t.bi_weekly.wf() ==> r.bi_weekly@ == decimal_text(t.bi_weekly@),
            t.weekly.wf() ==> r.weekly@ == decimal_text(t.weekly@),
            t.daily.wf() ==> r.daily@ == decimal_text(t.daily@),
            t.hourly.wf() ==> r.hourly@ == decimal_text(t.hourly@),
    {
        TimeframeFFI {
            annual: format_decimal(t.annual),
            monthly: format_decimal(t.monthly),
            bi_weekly: format_decimal(t.bi_weekly),
            weekly: format_decimal(t.weekly),
            daily: format_decimal(t.daily),
            hourly: format_decimal(t.hourly),
        }
    }
}

/// Household split as text.
#[derive(Debug, Clone)]
pub struct HouseholdSplitFFI {
    pub primary_ratio: String,
    pub partner_ratio: String,
    pub primary_amount: String,
    pub partner_amount: String,
}

impl HouseholdSplitFFI {
    pub fn from_split(h: &HouseholdSplit) -> (r: HouseholdSplitFFI)
        ensures
            h.primary_ratio.wf() ==> r.primary_ratio@ == decimal_text(h.primary_ratio@),
            h.partner_ratio.wf() ==> r.partner_ratio@ == decimal_text(h.partner_ratio@),
            h.primary_monthly_amount.wf() ==> r.primary_amount@ == decimal_text(
                h.primary_monthly_amount@,
            ),
            h.partner_monthly_amount.wf() ==> r.partner_amount@ == decimal_text(
                h.partner_monthly_amount@,
            ),
    {
        HouseholdSplitFFI {
            primary_ratio: format_decimal(h.primary_ratio),
            partner_ratio: format_decimal(h.partner_ratio),
            primary_amount: format_decimal(h.primary_monthly_amount),
            partner_amount: format_decimal(h.partner_monthly_amount),
        }
    }
}

} // verus!
