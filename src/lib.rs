//! Take-home pay calculations: federal, state and payroll taxes on a gross income,
//! net income over calendar periods, and comparison of two income scenarios.
pub mod calculators;
pub mod data;
pub mod decimal;
pub mod engine;
pub mod ffi;
pub mod models;

pub use decimal::Dec;
pub use engine::{
    ScenarioComparison, TaxCalculationEngine, TaxCalculationInput, TaxCalculationResult,
};
pub use ffi::TaxCalcError;
pub use models::income::{CalculatedIncome, IncomeInput, PayFrequency, TimeframeIncome};
pub use models::state::USState;
pub use models::tax::{FederalTaxResult, FicaResult, FilingStatus, StateTaxResult, TaxBreakdown};
