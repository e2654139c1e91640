//! The echocardiography report pipeline: a fixed-precision decimal data
//! model for operator-supplied measurements, the conditional dependency
//! rules between fields, the clinical derivation formulas, and the
//! locale rendering that fills the document template's text fragments.

pub mod choices;
pub mod date;
pub mod num;
pub mod parse;
pub mod power;
pub mod report;
