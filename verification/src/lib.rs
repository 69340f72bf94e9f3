//! Terminal output utilities: consistently formatted, prefixed lines,
//! with verbosity gated by a three-way severity level.
//!
//! The library computes every line as a `String`; callers write the
//! lines to the error stream. Severity is resolved from the value of
//! the `LOG_LEVEL` environment variable, which callers read and pass in.

pub mod level;
pub mod line;
pub mod template;

pub use level::LogLevel;
pub use level::is_debug;
pub use level::is_info;
pub use level::level_from_env_value;
pub use line::blank_line;
pub use line::debug_line;
pub use line::detail_line;
pub use line::diagnostic_line;
pub use line::error_line;
pub use line::fail_line;
pub use line::header_lines;
pub use line::hint_line;
pub use line::info_line;
pub use line::log_line;
pub use line::next_step_line;
pub use line::status_line;
pub use line::success_line;
pub use line::warn_line;
pub use line::warn_simple_line;
pub use template::render_template;
