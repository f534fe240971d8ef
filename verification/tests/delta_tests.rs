use delegatify::delta::format_delta;

#[test]
fn zero_is_written_with_minutes_and_seconds() {
    assert_eq!(format_delta(0), "00:00");
}

#[test]
fn below_one_minute() {
    assert_eq!(format_delta(7), "00:07");
    assert_eq!(format_delta(59), "00:59");
}

#[test]
fn whole_minutes() {
    assert_eq!(format_delta(60), "01:00");
    assert_eq!(format_delta(600), "10:00");
}

#[test]
fn minutes_and_seconds() {
    assert_eq!(format_delta(75), "01:15");
    assert_eq!(format_delta(754), "12:34");
}

#[test]
fn last_second_before_the_hour() {
    assert_eq!(format_delta(3599), "59:59");
}

#[test]
fn the_hour_itself_gets_an_hours_part() {
    assert_eq!(format_delta(3600), "1:00:00");
}

#[test]
fn hours_minutes_and_seconds() {
    assert_eq!(format_delta(3661), "1:01:01");
    assert_eq!(format_delta(5025), "1:23:45");
    assert_eq!(format_delta(86399), "23:59:59");
}

#[test]
fn hours_take_as_many_digits_as_they_need() {
    assert_eq!(format_delta(36000), "10:00:00");
    assert_eq!(format_delta(360000), "100:00:00");
    assert_eq!(format_delta(3_600_000 + 62), "1000:01:02");
}

#[test]
fn the_longest_span_is_written_too() {
    assert_eq!(format_delta(u64::MAX), "5124095576030431:00:15");
}

#[test]
fn short_texts_have_five_characters_and_a_colon_in_the_middle() {
    let mut seconds: u64 = 0;
    while seconds < 3600 {
        let text = format_delta(seconds);
        let chars: Vec<char> = text.chars().collect();
        assert_eq!(chars.len(), 5);
        assert_eq!(chars[2], ':');
        assert!(chars[0].is_ascii_digit());
        assert!(chars[1].is_ascii_digit());
        assert!(chars[3].is_ascii_digit());
        assert!(chars[4].is_ascii_digit());
        let minutes: u64 = text[0..2].parse().unwrap();
        let secs: u64 = text[3..5].parse().unwrap();
        assert_eq!(minutes * 60 + secs, seconds);
        seconds += 1;
    }
}

#[test]
fn long_texts_read_back_as_the_span() {
    let spans: Vec<u64> = vec![3600, 3601, 7199, 7200, 35999, 36000, 359999, 1234567];
    for seconds in spans {
        let text = format_delta(seconds);
        let parts: Vec<&str> = text.split(':').collect();
        assert_eq!(parts.len(), 3);
        assert_eq!(parts[1].len(), 2);
        assert_eq!(parts[2].len(), 2);
        assert!(!parts[0].starts_with('0'));
        let hours: u64 = parts[0].parse().unwrap();
        let minutes: u64 = parts[1].parse().unwrap();
        let secs: u64 = parts[2].parse().unwrap();
        assert!(minutes < 60);
        assert!(secs < 60);
        assert_eq!(hours * 3600 + minutes * 60 + secs, seconds);
    }
}
