use convertoid::webp::{ParseError, WebpInfo};

#[test]
fn static_image_with_canvas_only() {
    let info = WebpInfo::from_stdout("  Canvas size 512 x 512\n").unwrap();
    assert!(!info.is_animated());
    assert_eq!(info.frame_count(), 0);
    assert_eq!((info.width(), info.height()), (512, 512));
}

#[test]
fn missing_canvas_line_is_a_parse_error() {
    let text = "  Duration: 100\n  Duration: 200\n";
    assert_eq!(
        WebpInfo::from_stdout(text).unwrap_err(),
        ParseError::MissingCanvasSize
    );
    assert_eq!(
        WebpInfo::from_stdout("").unwrap_err(),
        ParseError::MissingCanvasSize
    );
}

#[test]
fn durations_are_collected_in_line_order() {
    let text = "  Duration: 40\nnoise\n  Duration: 80\n  Canvas size 128 x 96\n  Duration: 120\n";
    let info = WebpInfo::from_stdout(text).unwrap();
    assert_eq!(info.durations, vec![40, 80, 120]);
    assert!(info.is_animated());
    assert_eq!(info.frame_count(), 3);
    assert_eq!((info.width(), info.height()), (128, 96));
}

#[test]
fn carriage_returns_are_tolerated() {
    let text = "  Duration: 64\r\n  Canvas size 32 x 48\r\n";
    let info = WebpInfo::from_stdout(text).unwrap();
    assert_eq!(info.durations, vec![64]);
    assert_eq!((info.width(), info.height()), (32, 48));
}

#[test]
fn first_canvas_line_wins() {
    let text = "  Canvas size 10 x 20\n  Canvas size 30 x 40\n";
    let info = WebpInfo::from_stdout(text).unwrap();
    assert_eq!((info.width(), info.height()), (10, 20));
}

#[test]
fn lines_that_merely_resemble_markers_do_not_match() {
    let text = " Duration: 5\nDuration: 5\n   Duration: 5\n  Duration: x\n  Canvas size 1 x 2\n";
    let info = WebpInfo::from_stdout(text).unwrap();
    assert_eq!(info.durations, Vec::<i32>::new());
}

#[test]
fn oversized_numbers_are_rejected() {
    let text = "  Duration: 99999999999\n  Canvas size 512 x 512\n";
    assert_eq!(
        WebpInfo::from_stdout(text).unwrap_err(),
        ParseError::NumberOverflow
    );
    let text = "  Canvas size 99999999999 x 512\n";
    assert_eq!(
        WebpInfo::from_stdout(text).unwrap_err(),
        ParseError::NumberOverflow
    );
}

#[test]
fn total_duration_sums_all_frames() {
    let text = "  Duration: 40\n  Duration: 80\n  Duration: 120\n  Canvas size 8 x 8\n";
    let info = WebpInfo::from_stdout(text).unwrap();
    assert_eq!(info.total_duration(), 240);
}

#[test]
fn min_and_max_duration() {
    let text = "  Duration: 80\n  Duration: 40\n  Duration: 120\n  Canvas size 8 x 8\n";
    let info = WebpInfo::from_stdout(text).unwrap();
    assert_eq!(info.min_duration(), Some(40));
    assert_eq!(info.max_duration(), Some(120));
    let empty = WebpInfo::from_stdout("  Canvas size 8 x 8\n").unwrap();
    assert_eq!(empty.min_duration(), None);
    assert_eq!(empty.max_duration(), None);
}

#[test]
fn all_durations_eq_and_unique_durations() {
    let text = "  Duration: 50\n  Duration: 50\n  Duration: 50\n  Canvas size 8 x 8\n";
    let info = WebpInfo::from_stdout(text).unwrap();
    assert!(info.all_durations_eq());
    assert_eq!(info.unique_durations(), vec![50]);

    let text = "  Duration: 80\n  Duration: 40\n  Duration: 80\n  Canvas size 8 x 8\n";
    let info = WebpInfo::from_stdout(text).unwrap();
    assert!(!info.all_durations_eq());
    assert_eq!(info.unique_durations(), vec![40, 80]);
}
