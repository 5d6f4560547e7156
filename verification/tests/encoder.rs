use vorticity::encoder::{
    decimal, encoder_args, encoder_report, output_path, signed_decimal, video_size,
};

#[test]
fn decimal_writes_digits_without_leading_zeros() {
    assert_eq!(decimal(0), "0");
    assert_eq!(decimal(7), "7");
    assert_eq!(decimal(10), "10");
    assert_eq!(decimal(4096), "4096");
    assert_eq!(decimal(1_234_567_890), "1234567890");
    assert_eq!(decimal(u64::MAX), "18446744073709551615");
}

#[test]
fn decimal_agrees_with_the_standard_formatting() {
    for n in [0u64, 1, 9, 10, 11, 99, 100, 101, 999, 1000, 65_535, 1_700_000_000] {
        assert_eq!(decimal(n), format!("{}", n));
    }
}

#[test]
fn signed_decimal_puts_a_minus_below_zero() {
    assert_eq!(signed_decimal(0), "0");
    assert_eq!(signed_decimal(1), "1");
    assert_eq!(signed_decimal(-1), "-1");
    assert_eq!(signed_decimal(255), "255");
    assert_eq!(signed_decimal(i32::MAX), "2147483647");
    assert_eq!(signed_decimal(i32::MIN), "-2147483648");
}

#[test]
fn video_size_is_side_by_side() {
    assert_eq!(video_size(4096), "4096x4096");
    assert_eq!(video_size(0), "0x0");
    assert_eq!(video_size(7), "7x7");
}

#[test]
fn output_path_is_named_by_the_stamp() {
    assert_eq!(output_path(1_700_000_000), "videos/1700000000.mp4");
    assert_eq!(output_path(0), "videos/0.mp4");
}

#[test]
fn encoder_args_in_order() {
    assert_eq!(
        encoder_args(4096, 1_700_000_000),
        vec![
            "-hide_banner",
            "-loglevel",
            "warning",
            "-f",
            "rawvideo",
            "-pixel_format",
            "rgb24",
            "-video_size",
            "4096x4096",
            "-i",
            "pipe:",
            "-threads",
            "2",
            "-crf",
            "19",
            "videos/1700000000.mp4",
        ]
    );
}

#[test]
fn encoder_report_on_success_shows_what_was_printed() {
    assert_eq!(encoder_report(Some(0), "done\n"), Some(String::from("OK FFMPEG: done\n")));
    assert_eq!(encoder_report(Some(0), ""), Some(String::from("OK FFMPEG: ")));
}

#[test]
fn encoder_report_on_failure_shows_the_code() {
    assert_eq!(encoder_report(Some(1), "ignored"), Some(String::from("Error 1")));
    assert_eq!(encoder_report(Some(-11), ""), Some(String::from("Error -11")));
    assert_eq!(encoder_report(Some(255), ""), Some(String::from("Error 255")));
}

#[test]
fn encoder_report_without_a_code_is_silent() {
    assert_eq!(encoder_report(None, "anything"), None);
}
