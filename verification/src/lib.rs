//! A chart of the weather over time: observations and forecasts merged into
//! one timeline, scales for what they measure, a mapping between times and
//! values on one side and positions on a canvas on the other, and the list of
//! shapes that a drawing backend puts on the canvas.
//!
//! Nothing here is a floating-point number. Readings, ranges and positions
//! are integers that count thousandths: of a degree, a percent, a mile per
//! hour, a pixel. Times are Unix timestamps in whole seconds. The formulas
//! that need an exponential, a logarithm or a fractional power are left to the
//! caller, who hands their values in with each record (`weather::DerivedTerms`).
//!
//! Every function states what it returns, and Verus proves it. Three items
//! are believed without proof, all in `clock`: what chrono reads out of a
//! timestamp, and what the calendar of the machine shows at that instant.

pub mod chart;
pub mod clock;
pub mod coords;
pub mod derived;
pub mod label;
pub mod metric;
pub mod plan;
pub mod precip;
pub mod scale;
pub mod state;
pub mod timeline;
pub mod units;
pub mod weather;
