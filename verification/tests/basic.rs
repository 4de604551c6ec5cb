use bear::cents::cents_display;
use bear::errors::{anyerr, anyerr_in, map_os_err, AnyHandlerError, ApiError};
use bear::utils::{debug, err_expected, gen_alphabetical, gentoken, str_contains, str_eq};
use bear::utils::{Clock, MockClock, RealClock, TimeMetric};

#[test]
fn it_works() {
}

#[test]
fn cents_display_two_digits() {
    assert_eq!(cents_display(1234), "12.34");
    assert_eq!(cents_display(-1234), "-12.34");
    assert_eq!(cents_display(5), "0.05");
    assert_eq!(cents_display(99), "0.99");
}

#[test]
fn cents_display_trims_trailing_zeros() {
    assert_eq!(cents_display(1200), "12");
    assert_eq!(cents_display(1230), "12.3");
    assert_eq!(cents_display(50), "0.5");
    assert_eq!(cents_display(0), "0");
    assert_eq!(cents_display(100), "1");
    assert_eq!(cents_display(-50), "-0.5");
}

#[test]
fn api_error_messages() {
    assert_eq!(ApiError::Expired.message(), "Expired");
    assert_eq!(ApiError::AuthError.message(), "AuthError");
    assert_eq!(
        ApiError::AuthError1(String::from("request.not.authenticated")).message(),
        "AuthError1(request.not.authenticated)"
    );
    assert_eq!(ApiError::Any(String::from("user.id.missing")).message(), "user.id.missing");
    assert_eq!(
        ApiError::Any1(String::from("step"), String::from("seven")).message(),
        "step:seven"
    );
    assert_eq!(
        ApiError::InvalidState(String::from("TxnContainer missing in req")).message(),
        "InvalidState(TxnContainer missing in req)"
    );
}

#[test]
fn handler_error_status_codes() {
    assert_eq!(AnyHandlerError::Api(ApiError::AuthError).status_code(), 401);
    assert_eq!(AnyHandlerError::Api(ApiError::Expired).status_code(), 401);
    assert_eq!(
        AnyHandlerError::Api(ApiError::AuthError1(String::from("x"))).status_code(),
        401
    );
    assert_eq!(AnyHandlerError::Api(ApiError::InvalidInput).status_code(), 400);
    assert_eq!(AnyHandlerError::Other(String::from("boom")).status_code(), 500);
}

#[test]
fn handler_error_response_messages() {
    let e = AnyHandlerError::from(ApiError::Expired);
    assert_eq!(e.response_message(), "Expired");
    let o = AnyHandlerError::Other(String::from("secret detail"));
    assert_eq!(o.response_message(), "InternalError");
}

#[test]
fn anyerr_builds_string_errors() {
    let r: Result<u32, ApiError> = anyerr("a.b.c");
    assert!(matches!(r, Err(ApiError::Any(ref s)) if s == "a.b.c"));
    let e = anyerr_in("d.e");
    assert!(matches!(e, ApiError::Any(ref s) if s == "d.e"));
}

#[test]
fn map_os_err_keeps_ok_and_wraps_err() {
    let ok: Result<u32, String> = Ok(7);
    assert_eq!(map_os_err(ok).unwrap(), 7);
    let bad: Result<u32, String> = Err(String::from("nope"));
    let e = map_os_err(bad).unwrap_err();
    assert!(format!("{}", e).contains("nope"));
}

#[test]
fn string_helpers() {
    assert!(str_eq("abc", "abc"));
    assert!(!str_eq("abc", "abd"));
    assert!(!str_eq("abc", "ab"));
    assert!(str_contains("hello world", "lo wo"));
    assert!(str_contains("hello", ""));
    assert!(!str_contains("hello", "world"));
    assert!(str_contains("aaab", "aab"));
}

#[test]
fn err_expected_checks_fragment() {
    assert!(err_expected(Some(String::from("got AuthError here")), "AuthError"));
    assert!(!err_expected(Some(String::from("all fine")), "AuthError"));
    assert!(!err_expected(None::<String>, "AuthError"));
}

#[test]
fn tokens_have_requested_shape() {
    let t1 = gentoken();
    let t2 = gentoken();
    assert!(!t1.is_empty());
    assert_ne!(t1, t2);
    let a = gen_alphabetical(12);
    assert_eq!(a.chars().count(), 12);
    assert!(a.chars().all(|c| c.is_ascii_uppercase() || c.is_ascii_digit()));
}

#[test]
fn debug_returns_argument() {
    assert_eq!(debug("n", 41), 41);
}

#[test]
fn clocks() {
    let mut c = MockClock::new();
    assert_eq!(c.utcnow(), 1000);
    assert_eq!(c.advance(500), 1500);
    assert_eq!(c.utcnow(), 1500);
    let c2 = c.clone();
    assert_eq!(c2.time, 1500);
    let real = RealClock::new();
    assert!(real.utcnow() > 0);
}

#[test]
fn time_metric_keeps_label() {
    let m = TimeMetric::new("req_seconds");
    assert_eq!(m.label, "req_seconds");
}
