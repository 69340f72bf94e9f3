use tana_stdio::LogLevel;
use tana_stdio::blank_line;
use tana_stdio::debug_line;
use tana_stdio::detail_line;
use tana_stdio::diagnostic_line;
use tana_stdio::error_line;
use tana_stdio::fail_line;
use tana_stdio::header_lines;
use tana_stdio::hint_line;
use tana_stdio::info_line;
use tana_stdio::log_line;
use tana_stdio::next_step_line;
use tana_stdio::status_line;
use tana_stdio::success_line;
use tana_stdio::warn_line;
use tana_stdio::warn_simple_line;

#[test]
fn log_line_shape_at_default_severity() {
    assert_eq!(
        log_line(LogLevel::Info, "build", "compiling contract..."),
        Some("[build] compiling contract...".to_string())
    );
}

#[test]
fn success_line_shape() {
    assert_eq!(success_line("build complete"), "[ok] build complete");
}

#[test]
fn error_line_prints_even_in_error_only_mode() {
    // The error emitter takes no severity at all: nothing can silence it.
    assert_eq!(error_line("build", "compilation failed"), "[build] compilation failed");
}

#[test]
fn status_line_shapes() {
    assert_eq!(status_line("database", "connected", true), "[ok] [database] connected");
    assert_eq!(status_line("database", "timeout", false), "[fail] [database] timeout");
}

#[test]
fn header_is_blank_title_rule() {
    let lines = header_lines("configuration");
    assert_eq!(lines.len(), 3);
    assert_eq!(lines[0], "");
    assert_eq!(lines[1], "configuration");
    assert_eq!(lines[2], "-".repeat(40));
    assert_eq!(lines[2].len(), 40);
}

#[test]
fn info_line_pads_label_to_width_ten() {
    assert_eq!(info_line("port", "8506"), "  port       8506");
    assert_eq!(info_line("port", "8506"), format!("  {:<10} {}", "port", "8506"));
}

#[test]
fn info_line_never_truncates_a_long_label() {
    assert_eq!(info_line("a-rather-long-label", "x"), "  a-rather-long-label x");
    assert_eq!(info_line("", "v"), "             v");
    assert_eq!(info_line("", "v"), format!("  {:<10} {}", "", "v"));
}

#[test]
fn next_step_line_shape() {
    assert_eq!(
        next_step_line("start the server", "npm run dev"),
        "  -> start the server: npm run dev"
    );
}

#[test]
fn debug_line_only_under_debug_severity() {
    assert_eq!(
        debug_line(LogLevel::Debug, "cache", "hit for key: user_123"),
        Some("[cache] hit for key: user_123".to_string())
    );
    assert_eq!(debug_line(LogLevel::Info, "cache", "hit for key: user_123"), None);
    assert_eq!(debug_line(LogLevel::Error, "cache", "hit for key: user_123"), None);
}

#[test]
fn error_only_severity_silences_routine_output() {
    assert_eq!(log_line(LogLevel::Error, "build", "compiling"), None);
    assert_eq!(debug_line(LogLevel::Error, "cache", "miss"), None);
    // Everything that signals an outcome or structure still prints.
    assert_eq!(error_line("build", "failed"), "[build] failed");
    assert_eq!(warn_line("cache", "stale"), "[warn] [cache] stale");
    assert_eq!(success_line("done"), "[ok] done");
    assert_eq!(fail_line("broken"), "[fail] broken");
    assert_eq!(status_line("db", "up", true), "[ok] [db] up");
    assert_eq!(header_lines("x").len(), 3);
    assert_eq!(info_line("k", "v"), "  k          v");
}

#[test]
fn debug_severity_enables_every_emitter() {
    assert_eq!(log_line(LogLevel::Debug, "build", "compiling"), Some("[build] compiling".to_string()));
    assert_eq!(debug_line(LogLevel::Debug, "cache", "miss"), Some("[cache] miss".to_string()));
}

#[test]
fn warn_lines_shapes() {
    assert_eq!(warn_line("cache", "stale entries detected"), "[warn] [cache] stale entries detected");
    assert_eq!(warn_simple_line("stale entries detected"), "[warn] stale entries detected");
    assert_eq!(diagnostic_line("cache", "stale entries detected"), "[warn] [cache] stale entries detected");
}

#[test]
fn indent_lines_shapes() {
    assert_eq!(hint_line("try --help"), "  try --help");
    assert_eq!(detail_line("checking dependencies"), "    -> checking dependencies");
    assert_eq!(blank_line(), "");
}

#[test]
fn empty_strings_are_accepted_verbatim() {
    assert_eq!(error_line("", ""), "[] ");
    assert_eq!(success_line(""), "[ok] ");
    assert_eq!(log_line(LogLevel::Info, "", ""), Some("[] ".to_string()));
    assert_eq!(hint_line(""), "  ");
}
