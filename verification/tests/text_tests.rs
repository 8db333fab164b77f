use shupogaki::text::{contains, decimal_string, format_play_time};

#[test]
fn decimal_string_matches_to_string() {
    for n in [0u64, 1, 9, 10, 99, 100, 1234, 999_999, 1_000_000, u64::MAX] {
        assert_eq!(decimal_string(n), n.to_string());
    }
}

#[test]
fn play_time_examples() {
    assert_eq!(format_play_time(0), "00:00:000");
    assert_eq!(format_play_time(61_234), "01:01:234");
    assert_eq!(format_play_time(3_600_005), "00:00:005");
    assert_eq!(format_play_time(59 * 60_000 + 59_999), "59:59:999");
}

#[test]
fn play_time_matches_format_string() {
    let mut ms: u64 = 0;
    while ms < 4_000_000 {
        let minutes = (ms / (1000 * 60)) % 60;
        let seconds = (ms / 1000) % 60;
        let millis = ms % 1000;
        let expected = format!("{:02}:{:02}:{:03}", minutes, seconds, millis);
        assert_eq!(format_play_time(ms), expected);
        ms += 997;
    }
}

#[test]
fn contains_examples() {
    assert!(contains("Face_EyeMouth_01", "EyeMouth"));
    assert!(contains("EyeMouth", "EyeMouth"));
    assert!(!contains("Eye_Mouth", "EyeMouth"));
    assert!(!contains("Eye", "EyeMouth"));
    assert!(contains("abc", ""));
    assert!(contains("ヒカリEyeMouth", "EyeMouth"));
}
