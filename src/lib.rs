//! Terminal progress lines: a percentage state for one running operation, the
//! lines that show it, and a runner that wraps an operation and settles its
//! outcome.
//!
//! Nothing here writes to the terminal. Each change of a `Progress` leaves the
//! line to draw in the state; the runner returns the closing line beside the
//! result, and the status functions return their line. The caller writes them
//! out.

pub mod layout;
pub mod paint;
pub mod progress;
pub mod run;
pub mod status;

pub use paint::Tone;
pub use progress::{percentage, Progress, RangeError};
pub use run::{proceed, proceed_padded, run, DEFAULT_PADDING};
pub use status::{error, error_padded, info, info_padded, success, success_padded, warning, warning_padded};
