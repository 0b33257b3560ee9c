//! Bounded diagnostic reports: a fixed-capacity error backtrace that is built
//! up as an error propagates across call sites, together with a unified error
//! type and a line-oriented rendering of the final diagnostic.

pub mod backtrace;
pub mod error;
pub mod location;
pub mod report;
pub mod text;

pub use backtrace::Backtrace;
pub use error::Error;
pub use location::Location;
pub use report::{Report, ResultExt};
