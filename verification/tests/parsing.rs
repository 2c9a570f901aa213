use statusbar::gpu::gpu_usage_tenths;

#[test]
fn reads_fifteenth_column_of_device_line() {
    let report = "\
======== GPU report ========\n\
GPU Temp Power SCLK MCLK Fan Perf PwrCap VRAM Busy a b c d e\n\
0 30c 20W 800Mhz 1000Mhz 20% auto 200W 10% 1 2 3 4 5 42.5%\n\
============================\n";
    assert_eq!(gpu_usage_tenths(report), 425);
}

#[test]
fn integer_percentage_parses() {
    let line = "0 a b c d e f g h i j k l m 7%\n";
    assert_eq!(gpu_usage_tenths(line), 70);
}

#[test]
fn truncates_past_first_fractional_digit() {
    let line = "0 a b c d e f g h i j k l m 12.39%";
    assert_eq!(gpu_usage_tenths(line), 123);
}

#[test]
fn empty_report_reads_zero() {
    assert_eq!(gpu_usage_tenths(""), 0);
}

#[test]
fn no_device_line_reads_zero() {
    assert_eq!(gpu_usage_tenths("GPU busy 50%\n1 a b\n"), 0);
}

#[test]
fn short_device_line_is_skipped() {
    let report = "0 only three cols\n0 a b c d e f g h i j k l m 5.0%\n";
    assert_eq!(gpu_usage_tenths(report), 50);
}

#[test]
fn unparsable_column_is_skipped() {
    let report = "0 a b c d e f g h i j k l m N/A\n0 a b c d e f g h i j k l m 33%\n";
    assert_eq!(gpu_usage_tenths(report), 330);
}

#[test]
fn first_matching_line_wins() {
    let report = "0 a b c d e f g h i j k l m 10%\n0 a b c d e f g h i j k l m 90%\n";
    assert_eq!(gpu_usage_tenths(report), 100);
}

#[test]
fn bare_dot_does_not_parse() {
    let line = "0 a b c d e f g h i j k l m .%";
    assert_eq!(gpu_usage_tenths(line), 0);
}

#[test]
fn leading_dot_parses_as_fraction() {
    let line = "0 a b c d e f g h i j k l m .5";
    assert_eq!(gpu_usage_tenths(line), 5);
}

#[test]
fn trailing_dot_parses_as_integer() {
    let line = "0 a b c d e f g h i j k l m 8.";
    assert_eq!(gpu_usage_tenths(line), 80);
}

#[test]
fn tabs_separate_columns_too() {
    let line = "0\ta\tb\tc\td\te\tf\tg\th\ti\tj\tk\tl\tm\t64.2%";
    assert_eq!(gpu_usage_tenths(line), 642);
}
