//! Date-aware backend routing for a reverse proxy: classify a request's
//! query string, turn it into a calendar-day offset, and pick the backend
//! whose data horizon covers that day.
pub mod text;
pub mod time;
pub mod parameters;
pub mod current_offset;
pub mod config;
pub mod routing;
pub mod path_rewriter;
pub mod logger;
