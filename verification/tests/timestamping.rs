use uniqopy::timestamp::{format_timestamp, local_timestamp, render_reading, ClockTime};

#[test]
fn render_reading_formats_a_four_digit_year() {
    let t = ClockTime { year: 2022, month: 2, day: 2, hour: 22, minute: 22, second: 22 };
    assert_eq!(render_reading(&t).as_deref(), Some("2022-02-02-22:22:22"));
}

#[test]
fn render_reading_refuses_a_wide_year() {
    let t = ClockTime { year: 10000, month: 1, day: 1, hour: 0, minute: 0, second: 0 };
    assert_eq!(render_reading(&t), None);
}

#[test]
fn render_reading_refuses_a_negative_year() {
    let t = ClockTime { year: -1, month: 1, day: 1, hour: 0, minute: 0, second: 0 };
    assert_eq!(render_reading(&t), None);
}

#[test]
fn formats_a_plain_reading() {
    let t = ClockTime { year: 2022, month: 2, day: 2, hour: 22, minute: 22, second: 22 };
    assert_eq!(format_timestamp(&t), "2022-02-02-22:22:22");
}

#[test]
fn zero_pads_every_field() {
    let t = ClockTime { year: 4, month: 1, day: 9, hour: 0, minute: 5, second: 6 };
    assert_eq!(format_timestamp(&t), "0004-01-09-00:05:06");
}

#[test]
fn largest_fields_format_in_full() {
    let t = ClockTime { year: 9999, month: 12, day: 31, hour: 23, minute: 59, second: 59 };
    assert_eq!(format_timestamp(&t), "9999-12-31-23:59:59");
}

#[test]
fn local_timestamp_has_the_documented_shape() {
    let s = local_timestamp().expect("the clock's year should fit four digits");
    let b: Vec<char> = s.chars().collect();
    assert_eq!(b.len(), 19);
    for (i, c) in b.iter().enumerate() {
        match i {
            4 | 7 | 10 => assert_eq!(*c, '-'),
            13 | 16 => assert_eq!(*c, ':'),
            _ => assert!(c.is_ascii_digit()),
        }
    }
}
