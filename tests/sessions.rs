use turnchat::error::Error;
use turnchat::sessions::SessionInstance;

#[test]
fn turns_alternate_with_offset_two() {
    let mut s = SessionInstance::new(2);
    assert!(s.can_submit());
    s.submit("hello.".to_string());
    assert!(!s.can_submit());
    s.submit("hi.".to_string());
    assert!(s.can_submit());
}

#[test]
fn offset_one_always_may_submit() {
    let mut s = SessionInstance::new(1);
    for _ in 0..3 {
        assert!(s.can_submit());
        s.submit("x.".to_string());
    }
}

#[test]
fn error_messages() {
    assert_eq!(Error::IO("refused".to_string()).message(), "IO error: refused");
    assert_eq!(Error::Send("Log".to_string()).message(), "Send error: Log");
}
