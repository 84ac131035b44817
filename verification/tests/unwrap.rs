use convertoid::unwrap_ext::ExpectLog;

#[test]
fn present_values_are_unwrapped() {
    let some: Option<u32> = Some(7);
    assert_eq!(some.expect_log("value missing"), 7);
    let ok: Result<u32, String> = Ok(9);
    assert_eq!(ok.expect_log("value missing"), 9);
}

#[test]
fn the_variants_with_messages_behave_alike() {
    let some: Option<&str> = Some("x");
    assert_eq!(some.expect_log_v("err", "ok"), "x");
    assert_eq!(Some(3u8).expect_log_fmt(|| "late message".to_string()), 3);
    let ok: Result<i32, ()> = Ok(-1);
    assert_eq!(ok.expect_log_v("err", "ok"), -1);
    assert_eq!(ok.expect_log_fmt(|| "late message".to_string()), -1);
}
