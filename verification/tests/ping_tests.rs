use radarr::PingResponse;

#[test]
fn is_success_returns_true() {
    let r = PingResponse { response: String::from("pong") };

    assert!(r.is_success());
}

#[test]
fn is_success_returns_false() {
    let r = PingResponse { response: String::from("err") };

    assert!(!r.is_success());
}
