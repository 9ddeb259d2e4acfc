use line_formatter::line::console_line;
use line_formatter::line::file_line_with_level;
use line_formatter::line::file_line_without_level;
use line_formatter::line::file_stamp;
use line_formatter::record::LogRecord;
use line_formatter::severity::level_label;
use line_formatter::severity::level_label_colored;
use line_formatter::severity::severity_name;
use line_formatter::severity::Severity;
use line_formatter::timestamp::render_date;
use line_formatter::timestamp::render_time;
use line_formatter::timestamp::u32_decimal;
use line_formatter::timestamp::Timestamp;

fn sample_timestamp() -> Timestamp {
    Timestamp {
        year: 2024,
        month: 1,
        day: 15,
        hour: 9,
        minute: 30,
        second: 0,
        millisecond: 125,
    }
}

fn sample_record() -> LogRecord {
    LogRecord {
        severity: Severity::Info,
        message: "listening on :8080".to_string(),
        module: Some("app::server".to_string()),
        line: Some(42),
        thread: Some("main".to_string()),
    }
}

fn strip_ansi_text(s: &str) -> String {
    let mut out = String::new();
    let mut in_escape = false;
    for c in s.chars() {
        if in_escape {
            if c == 'm' {
                in_escape = false;
            }
        } else if c == '\u{1b}' {
            in_escape = true;
        } else {
            out.push(c);
        }
    }
    out
}

#[test]
fn plain_labels_are_the_fixed_strings() {
    assert_eq!(level_label(Severity::Off), "OFF");
    assert_eq!(level_label(Severity::Error), "ERROR");
    assert_eq!(level_label(Severity::Warn), "WARN ");
    assert_eq!(level_label(Severity::Info), "INFO ");
    assert_eq!(level_label(Severity::Debug), "DEBUG");
    assert_eq!(level_label(Severity::Trace), "TRACE");
}

#[test]
fn severity_names_are_unpadded() {
    assert_eq!(severity_name(Severity::Off), "OFF");
    assert_eq!(severity_name(Severity::Error), "ERROR");
    assert_eq!(severity_name(Severity::Warn), "WARN");
    assert_eq!(severity_name(Severity::Info), "INFO");
    assert_eq!(severity_name(Severity::Debug), "DEBUG");
    assert_eq!(severity_name(Severity::Trace), "TRACE");
}

#[test]
fn colored_labels_wrap_the_plain_text() {
    assert_eq!(level_label_colored(Severity::Off), "\u{1b}[38;5;8mOFF\u{1b}[0m");
    assert_eq!(level_label_colored(Severity::Error), "\u{1b}[31mERROR\u{1b}[0m");
    assert_eq!(level_label_colored(Severity::Warn), "\u{1b}[33mWARN \u{1b}[0m");
    assert_eq!(level_label_colored(Severity::Info), "\u{1b}[32mINFO \u{1b}[0m");
    assert_eq!(level_label_colored(Severity::Debug), "\u{1b}[34mDEBUG\u{1b}[0m");
    assert_eq!(level_label_colored(Severity::Trace), "\u{1b}[35mTRACE\u{1b}[0m");
}

#[test]
fn colored_labels_strip_back_to_plain() {
    let severities = [
        Severity::Off,
        Severity::Error,
        Severity::Warn,
        Severity::Info,
        Severity::Debug,
        Severity::Trace,
    ];
    for sev in severities {
        assert_eq!(strip_ansi_text(&level_label_colored(sev)), level_label(sev));
    }
}

#[test]
fn console_line_example_plain() {
    let line = console_line(&sample_timestamp(), &sample_record(), false);
    assert_eq!(line, "09:30:00.125 INFO  app::server:42 T{main} listening on :8080");
}

#[test]
fn console_line_example_colored() {
    let line = console_line(&sample_timestamp(), &sample_record(), true);
    assert_eq!(
        line,
        "\u{1b}[90m09:30:00.125\u{1b}[0m \u{1b}[32mINFO \u{1b}[0m \u{1b}[35mapp::server:42\u{1b}[0m \u{1b}[36mT{main}\u{1b}[0m listening on :8080"
    );
}

#[test]
fn colored_console_line_strips_to_plain() {
    let plain = console_line(&sample_timestamp(), &sample_record(), false);
    let colored = console_line(&sample_timestamp(), &sample_record(), true);
    assert_ne!(plain, colored);
    assert_eq!(strip_ansi_text(&colored), plain);
}

#[test]
fn missing_module_and_line_render_placeholder() {
    let rec = LogRecord {
        severity: Severity::Warn,
        message: "m".to_string(),
        module: None,
        line: None,
        thread: Some("main".to_string()),
    };
    let line = console_line(&sample_timestamp(), &rec, false);
    assert_eq!(line, "09:30:00.125 WARN  <unnamed>:0 T{main} m");
}

#[test]
fn missing_line_alone_renders_zero() {
    let rec = LogRecord {
        severity: Severity::Debug,
        message: "m".to_string(),
        module: Some("app".to_string()),
        line: None,
        thread: Some("main".to_string()),
    };
    let line = console_line(&sample_timestamp(), &rec, false);
    assert_eq!(line, "09:30:00.125 DEBUG app:0 T{main} m");
}

#[test]
fn missing_thread_renders_unnamed() {
    let rec = LogRecord {
        severity: Severity::Trace,
        message: "m".to_string(),
        module: Some("app".to_string()),
        line: Some(7),
        thread: None,
    };
    let line = console_line(&sample_timestamp(), &rec, false);
    assert_eq!(line, "09:30:00.125 TRACE app:7 T{unnamed} m");
}

#[test]
fn message_with_spaces_stays_last_and_verbatim() {
    let rec = LogRecord {
        severity: Severity::Error,
        message: "a b  c   d".to_string(),
        module: Some("x".to_string()),
        line: Some(1),
        thread: Some("t".to_string()),
    };
    let line = console_line(&sample_timestamp(), &rec, false);
    let fields: Vec<&str> = line.splitn(5, ' ').collect();
    assert_eq!(fields[0], "09:30:00.125");
    assert_eq!(fields[1], "ERROR");
    assert_eq!(fields[2], "x:1");
    assert_eq!(fields[3], "T{t}");
    assert_eq!(fields[4], "a b  c   d");
}

#[test]
fn file_line_with_level_example() {
    let line = file_line_with_level(&sample_timestamp(), Severity::Info, "listening on :8080");
    assert_eq!(line, "[2024-01-15 09:30:00.125] INFO listening on :8080");
}

#[test]
fn file_line_without_level_example() {
    let line = file_line_without_level(&sample_timestamp(), "listening on :8080");
    assert_eq!(line, "[2024-01-15 09:30:00.125] listening on :8080");
}

#[test]
fn file_lines_differ_only_by_level_token() {
    let with = file_line_with_level(&sample_timestamp(), Severity::Warn, "msg");
    let without = file_line_without_level(&sample_timestamp(), "msg");
    let stamp = file_stamp(&sample_timestamp());
    assert_eq!(with, format!("{} WARN msg", stamp));
    assert_eq!(without, format!("{} msg", stamp));
    let token = "WARN ";
    let rebuilt = format!("{} {}{}", stamp, token, "msg");
    assert_eq!(with, rebuilt);
}

#[test]
fn formatting_is_deterministic() {
    let a = console_line(&sample_timestamp(), &sample_record(), true);
    let b = console_line(&sample_timestamp(), &sample_record(), true);
    assert_eq!(a, b);
    let c = file_line_with_level(&sample_timestamp(), Severity::Info, "x");
    let d = file_line_with_level(&sample_timestamp(), Severity::Info, "x");
    assert_eq!(c, d);
}

#[test]
fn timestamp_components_are_zero_padded() {
    let ts = Timestamp {
        year: 987,
        month: 2,
        day: 3,
        hour: 0,
        minute: 4,
        second: 5,
        millisecond: 6,
    };
    assert_eq!(render_time(&ts), "00:04:05.006");
    assert_eq!(render_date(&ts), "0987-02-03");
}

#[test]
fn timestamp_extremes_render_full_width() {
    let ts = Timestamp {
        year: 9999,
        month: 12,
        day: 31,
        hour: 23,
        minute: 59,
        second: 59,
        millisecond: 999,
    };
    assert_eq!(render_time(&ts), "23:59:59.999");
    assert_eq!(render_date(&ts), "9999-12-31");
}

#[test]
fn line_numbers_render_unpadded_decimal() {
    assert_eq!(u32_decimal(0), "0");
    assert_eq!(u32_decimal(7), "7");
    assert_eq!(u32_decimal(42), "42");
    assert_eq!(u32_decimal(4294967295), "4294967295");
}

#[test]
fn empty_message_leaves_trailing_space_fields_intact() {
    let rec = LogRecord {
        severity: Severity::Info,
        message: String::new(),
        module: None,
        line: Some(0),
        thread: None,
    };
    let line = console_line(&sample_timestamp(), &rec, false);
    assert_eq!(line, "09:30:00.125 INFO  <unnamed>:0 T{unnamed} ");
    let file = file_line_without_level(&sample_timestamp(), "");
    assert_eq!(file, "[2024-01-15 09:30:00.125] ");
}
