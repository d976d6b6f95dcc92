//! Unit conversion between temperature and length units, with the rules that
//! decide which requests are valid and how conversion history is presented.

pub mod cli;
pub mod error;
pub mod formula;
pub mod history;
pub mod laws;
pub mod text;
pub mod units;
pub mod validate;

pub use cli::{error_line, exit_status, run, Action, Cli, Commands, Notice};
pub use error::{ErrorKind, ErrorView, Field};
pub use formula::{
    celsius_to_other, cm_to_other, convert, convert_length, convert_temperature, other_to_celsius,
    other_to_cm, Op, Step,
};
pub use history::{add_conversion, clear_hist, show_hist, ConvHist};
pub use text::{number_text, numbered};
pub use units::{list_unit, parse_unit, Family, LUnit, TUnit, Unit};
pub use validate::{validate_arguments, ConversionRequest};
