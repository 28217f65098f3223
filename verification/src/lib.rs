//! Trading terminal workspace logic: timeframes, New York session clock,
//! watchlists, chart interest and indicator configuration.
use vstd::prelude::*;

pub mod calendar;
pub mod text;
pub mod timeframe;
pub mod feed_clock;
pub mod glyph;
pub mod model;
pub mod app;
pub mod keys;
pub mod endpoint;
pub mod labels;
pub mod vp_span;
