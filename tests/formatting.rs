use std::sync::atomic::{AtomicBool, Ordering};
use std::sync::Arc;

use dynamic_format::error::FormatError;
use dynamic_format::format::{style_of, DynamicFormatter, LogEvent, MyFormat, Rendered, Style};
use dynamic_format::level::Level;
use dynamic_format::switch::StyleSwitch;
use dynamic_format::timestamp::Timestamp;

fn event(level: Level, target: &str, fields: &str) -> LogEvent {
    LogEvent { level, target: target.to_string(), fields: fields.to_string() }
}

fn at(year: i32, nanosecond: u32) -> Timestamp {
    Timestamp { year, month: 1, day: 2, hour: 3, minute: 4, second: 5, nanosecond }
}

fn has_timestamp_shape(s: &str) -> bool {
    let b = s.as_bytes();
    if b.len() != 27 {
        return false;
    }
    let seps = [(4, b'-'), (7, b'-'), (10, b'T'), (13, b':'), (16, b':'), (19, b'.'), (26, b'Z')];
    for i in 0..27 {
        match seps.iter().find(|(p, _)| *p == i) {
            Some((_, c)) => {
                if b[i] != *c {
                    return false;
                }
            }
            None => {
                if !b[i].is_ascii_digit() {
                    return false;
                }
            }
        }
    }
    true
}

fn dim_line(f: &DynamicFormatter, ev: &LogEvent, color: bool) -> String {
    match f.format(ev, color) {
        Ok(Rendered::Dim(s)) => s,
        other => panic!("expected a dimmed line, got {:?}", other),
    }
}

#[test]
fn level_tokens_are_five_wide() {
    let levels = [Level::Error, Level::Warn, Level::Info, Level::Debug, Level::Trace];
    let tokens: Vec<&str> = levels.iter().map(|l| l.token()).collect();
    assert_eq!(tokens, vec!["ERROR", "WARN ", "INFO ", "DEBUG", "TRACE"]);
    for t in tokens {
        assert_eq!(t.len(), 5);
    }
}

#[test]
fn timestamp_fields_are_zero_padded() {
    assert_eq!(at(2024, 6000).format(), Ok("2024-01-02T03:04:05.000006Z".to_string()));
    let t = Timestamp { year: 987, month: 12, day: 31, hour: 23, minute: 59, second: 59, nanosecond: 123_456_789 };
    assert_eq!(t.format(), Ok("0987-12-31T23:59:59.123456Z".to_string()));
}

#[test]
fn timestamp_around_a_whole_second() {
    assert_eq!(at(2024, 999_999_999).format(), Ok("2024-01-02T03:04:05.999999Z".to_string()));
    assert_eq!(at(2024, 0).format(), Ok("2024-01-02T03:04:05.000000Z".to_string()));
    assert_eq!(at(2024, 999).format(), Ok("2024-01-02T03:04:05.000000Z".to_string()));
    for n in [0, 999, 1000, 999_999_000, 999_999_999] {
        assert!(has_timestamp_shape(&at(2024, n).format().unwrap()));
    }
}

#[test]
fn timestamp_year_outside_four_digits_fails() {
    assert_eq!(at(10000, 0).format(), Err(FormatError::TimestampFormatFailed));
    assert_eq!(at(-1, 0).format(), Err(FormatError::TimestampFormatFailed));
    assert_eq!(at(0, 0).format(), Ok("0000-01-02T03:04:05.000000Z".to_string()));
    assert_eq!(at(9999, 0).format(), Ok("9999-01-02T03:04:05.000000Z".to_string()));
}

#[test]
fn timestamp_field_out_of_range_fails() {
    let mut t = at(2024, 0);
    t.month = 13;
    assert_eq!(t.format(), Err(FormatError::TimestampFormatFailed));
    let mut t = at(2024, 0);
    t.nanosecond = 1_000_000_000;
    assert_eq!(t.format(), Err(FormatError::TimestampFormatFailed));
    let mut t = at(2024, 0);
    t.hour = 24;
    let ev = event(Level::Info, "app", "msg=x");
    assert_eq!(MyFormat::new().render(true, &t, &ev), Err(FormatError::TimestampFormatFailed));
}

#[test]
fn captured_timestamps_have_the_pattern() {
    let f = DynamicFormatter::new(Arc::new(AtomicBool::new(true)));
    let ev = event(Level::Info, "app", "msg=DIM");
    for _ in 0..20 {
        let line = dim_line(&f, &ev, false);
        assert!(has_timestamp_shape(&line[..27]), "{}", line);
        assert_eq!(&line[27..], "  INFO app: msg=DIM\n");
    }
}

#[test]
fn dim_render_exact_line() {
    let ev = event(Level::Warn, "db", "rows=3");
    let plain = MyFormat::new().render(false, &at(2024, 6000), &ev);
    assert_eq!(plain, Ok("2024-01-02T03:04:05.000006Z  WARN db: rows=3\n".to_string()));
    let colored = MyFormat::new().render(true, &at(2024, 6000), &ev);
    assert_eq!(
        colored,
        Ok("\x1b[2m2024-01-02T03:04:05.000006Z  WARN db: rows=3\x1b[0m\n".to_string())
    );
    let err = MyFormat::new().render(true, &at(12345, 0), &ev);
    assert_eq!(err, Err(FormatError::TimestampFormatFailed));
}

#[test]
fn error_level_token_runs_into_target() {
    let ev = event(Level::Error, "app", "msg=x");
    let line = MyFormat::new().render(false, &at(2024, 0), &ev).unwrap();
    assert_eq!(&line[27..], "  ERRORapp: msg=x\n");
}

#[test]
fn toggling_switches_style_between_calls() {
    let flag = Arc::new(AtomicBool::new(false));
    let f = DynamicFormatter::new(flag.clone());
    let ev = event(Level::Info, "app", "msg=TOGGLE");
    assert_eq!(f.style(), Style::Plain);
    assert_eq!(f.format(&ev, true), Ok(Rendered::Plain));
    flag.store(true, Ordering::Relaxed);
    assert_eq!(f.style(), Style::Dim);
    let line = dim_line(&f, &ev, true);
    assert!(line.starts_with("\x1b[2m"));
    flag.store(false, Ordering::Relaxed);
    assert_eq!(f.format(&ev, true), Ok(Rendered::Plain));
}

#[test]
fn same_event_differs_only_in_timestamp() {
    let f = DynamicFormatter::new(Arc::new(AtomicBool::new(true)));
    let ev = event(Level::Debug, "svc", "k=v");
    let a = dim_line(&f, &ev, true);
    let b = dim_line(&f, &ev, true);
    assert_eq!(a.len(), b.len());
    assert_eq!(&a[..4], &b[..4]);
    assert_eq!(&a[31..], &b[31..]);
    let r1 = MyFormat::new().render(true, &at(2024, 1), &ev).unwrap();
    let r2 = MyFormat::new().render(true, &at(1999, 999_999_999), &ev).unwrap();
    assert_ne!(r1, r2);
    assert_eq!(&r1[31..], &r2[31..]);
}

#[test]
fn no_escape_bytes_without_color() {
    let f = DynamicFormatter::new(Arc::new(AtomicBool::new(true)));
    for level in [Level::Error, Level::Warn, Level::Info, Level::Debug, Level::Trace] {
        let line = dim_line(&f, &event(level, "app", "msg=DIM"), false);
        assert!(!line.as_bytes().contains(&0x1b), "{:?}", line);
    }
}

#[test]
fn plain_flag_delegates_to_default_renderer() {
    let f = DynamicFormatter::new(Arc::new(AtomicBool::new(false)));
    let ev = event(Level::Info, "app", "msg=NORMAL");
    assert_eq!(f.format(&ev, true), Ok(Rendered::Plain));
    assert_eq!(f.format(&ev, false), Ok(Rendered::Plain));
    assert_eq!(f.render_in(Style::Plain, true, &at(2024, 0), &ev), Ok(Rendered::Plain));
}

#[test]
fn dim_flag_on_color_sink() {
    let f = DynamicFormatter::new(Arc::new(AtomicBool::new(true)));
    let line = dim_line(&f, &event(Level::Info, "app", "msg=DIM"), true);
    assert!(line.starts_with("\x1b[2m"));
    assert!(line.contains("INFO app: msg=DIM"));
    assert!(line.ends_with("\x1b[0m\n"));
    assert!(has_timestamp_shape(&line[4..31]));
}

#[test]
fn render_in_dim_gives_exact_line() {
    let f = DynamicFormatter::new(Arc::new(AtomicBool::new(false)));
    let ev = event(Level::Trace, "t", "");
    assert_eq!(
        f.render_in(Style::Dim, false, &at(2024, 0), &ev),
        Ok(Rendered::Dim("2024-01-02T03:04:05.000000Z  TRACEt: \n".to_string()))
    );
}

#[test]
fn style_of_flag() {
    assert_eq!(style_of(true), Style::Dim);
    assert_eq!(style_of(false), Style::Plain);
}

#[test]
fn switch_get_and_set() {
    let s = StyleSwitch::new(false);
    assert!(!s.get());
    s.set(true);
    assert!(s.get());
    s.set(false);
    assert!(!s.get());
    let shared = Arc::new(AtomicBool::new(true));
    let t = StyleSwitch::shared(shared.clone());
    assert!(t.get());
    t.set(false);
    assert!(!shared.load(Ordering::Relaxed));
}

#[test]
fn dim_format_stamps_current_time() {
    let line = MyFormat::new().format_event(false, &event(Level::Warn, "net", "retry=2")).unwrap();
    assert!(has_timestamp_shape(&line[..27]), "{}", line);
    assert!(line[..4].parse::<i32>().unwrap() >= 2024);
    assert_eq!(&line[27..], "  WARN net: retry=2\n");
}
