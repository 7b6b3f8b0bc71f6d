use mr_text::echo::EchoArea;

#[test]
fn message_lives_for_its_duration() {
    let mut echo = EchoArea::new(100);
    echo.new_disp_len(3);
    assert!(echo.is_empty());
    echo.store_message("saved", 100);
    assert!(!echo.is_empty());
    assert_eq!(echo.to_string(), "saved");
    echo.check_msg_timer(100);
    assert_eq!(echo.to_string(), "saved");
    echo.check_msg_timer(102);
    assert_eq!(echo.to_string(), "saved");
    assert!(!echo.timer_done(102));
    assert!(echo.timer_done(103));
    echo.check_msg_timer(103);
    assert!(echo.is_empty());
    assert_eq!(echo.to_string(), "");
}

#[test]
fn message_is_gone_long_after_its_duration() {
    let mut echo = EchoArea::new(0);
    echo.store_message("late", 10);
    echo.check_msg_timer(500);
    assert!(echo.is_empty());
}

#[test]
fn storing_starts_the_time_anew() {
    let mut echo = EchoArea::new(0);
    echo.store_message("one", 10);
    echo.store_message(" two", 12);
    echo.check_msg_timer(14);
    assert_eq!(echo.to_string(), "one two");
    echo.check_msg_timer(15);
    assert!(echo.is_empty());
}

#[test]
fn default_shows_for_three_seconds() {
    let mut echo = EchoArea::default();
    echo.store_message("x", 7);
    assert!(!echo.timer_done(9));
    assert!(echo.timer_done(10));
}

#[test]
fn long_message_is_cut_at_the_limit() {
    let short = "a".repeat(63);
    let mut echo = EchoArea::new(0);
    echo.store_message(&short, 0);
    assert_eq!(echo.to_string(), short);

    let exact = "b".repeat(64);
    let mut echo = EchoArea::new(0);
    echo.store_message(&exact, 0);
    assert_eq!(echo.to_string(), exact);

    let long = "c".repeat(200);
    let mut echo = EchoArea::new(0);
    echo.store_message(&long, 0);
    assert_eq!(echo.to_string(), "c".repeat(64));
}

#[test]
fn cut_never_splits_a_character() {
    let mut msg = "a".repeat(63);
    msg.push('é');
    msg.push_str("tail");
    let mut echo = EchoArea::new(0);
    echo.store_message(&msg, 0);
    assert_eq!(echo.to_string(), "a".repeat(63));

    let mut msg = "a".repeat(61);
    msg.push('😀');
    let mut echo = EchoArea::new(0);
    echo.store_message(&msg, 0);
    assert_eq!(echo.to_string(), "a".repeat(61));

    let mut msg = "a".repeat(60);
    msg.push('😀');
    msg.push('x');
    let mut echo = EchoArea::new(0);
    echo.store_message(&msg, 0);
    let mut expected = "a".repeat(60);
    expected.push('😀');
    assert_eq!(echo.to_string(), expected);
}

#[test]
fn error_goes_to_status_text() {
    let mut echo = EchoArea::new(0);
    echo.store_message("old", 1);
    echo.store_error("boom", 5);
    assert_eq!(echo.to_string(), "Error: boomMr-Text found an error.");
    assert!(!echo.timer_done(7));
    assert!(echo.timer_done(8));
}

#[test]
fn long_error_gets_a_standin() {
    let mut echo = EchoArea::new(0);
    let err = "e".repeat(58);
    echo.store_error(&err, 0);
    assert_eq!(echo.to_string(), "You've got an error.Mr-Text found an error.");
    let mut echo = EchoArea::new(0);
    let err = "e".repeat(57);
    echo.store_error(&err, 0);
    assert_eq!(echo.to_string(), format!("Error: {}Mr-Text found an error.", err));
}
