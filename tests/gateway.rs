use lcu_bridge::error::{InvalidReason, LcuError};
use lcu_bridge::gateway::{
    classify_response, interpret_response, is_allowed_lcu_request, prepare_lcu_request,
    target_url, HttpMethod, LcuRequest, LcuValue,
};
use lcu_bridge::number::{parse_u16, push_decimal};
use lcu_bridge::text::{contains_dot_dot, text_eq, trim_text, trimmed_non_blank};

fn refusal_of(r: Result<LcuRequest, LcuError>) -> Option<InvalidReason> {
    match r {
        Err(LcuError::InvalidRequest(reason)) => Some(reason),
        _ => None,
    }
}

#[test]
fn allow_list_is_exact() {
    assert!(is_allowed_lcu_request("PUT", "/lol-chat/v1/me"));
    assert!(is_allowed_lcu_request("GET", "/lol-chat/v1/me"));
    assert!(is_allowed_lcu_request("PUT", "/lol-summoner/v1/current-summoner/icon"));
    assert!(is_allowed_lcu_request("GET", "/lol-challenges/v1/summary-player-data/local-player"));
    assert!(is_allowed_lcu_request("GET", "/lol-challenges/v1/challenges/local-player"));
    assert!(is_allowed_lcu_request("POST", "/lol-challenges/v1/update-player-preferences"));
    assert!(!is_allowed_lcu_request("DELETE", "/lol-chat/v1/me"));
    assert!(!is_allowed_lcu_request("put", "/lol-chat/v1/me"));
    assert!(!is_allowed_lcu_request("GET", "/lol-chat/v1/me/"));
    assert!(!is_allowed_lcu_request("GET", "/lol-chat/v1"));
    assert!(!is_allowed_lcu_request("GET", "/lol-summoner/v1/current-summoner/icon"));
}

#[test]
fn disallowed_pairs_are_invalid_requests() {
    let pairs = [
        ("DELETE", "/lol-chat/v1/me"),
        ("GET", "/lol-summoner/v1/current-summoner/icon"),
        ("POST", "/lol-chat/v1/me"),
        ("GET", "/lol-login/v1/session"),
        ("PATCH", "/lol-challenges/v1/update-player-preferences"),
    ];
    for (m, e) in pairs {
        let r = prepare_lcu_request(m, e, None, "7000", "tok");
        assert_eq!(refusal_of(r), Some(InvalidReason::NotAllowed));
    }
}

#[test]
fn lower_case_method_is_accepted() {
    let req = prepare_lcu_request("put", "/lol-chat/v1/me", None, "7000", "tok").unwrap();
    assert_eq!(req.method, HttpMethod::Put);
    assert_eq!(req.url, "https://127.0.0.1:7000/lol-chat/v1/me");
    assert_eq!(req.authorization, "Basic cmlvdDp0b2s=");
    assert!(req.body.is_none());
}

#[test]
fn method_and_endpoint_are_trimmed() {
    let req = prepare_lcu_request(
        "  post\t",
        " /lol-challenges/v1/update-player-preferences \n",
        None,
        "+0443",
        "tok",
    )
    .unwrap();
    assert_eq!(req.method, HttpMethod::Post);
    assert_eq!(req.url, "https://127.0.0.1:443/lol-challenges/v1/update-player-preferences");
}

#[test]
fn dot_dot_endpoint_is_rejected() {
    let r = prepare_lcu_request("GET", "/lol-chat/../../etc", None, "7000", "tok");
    assert_eq!(refusal_of(r), Some(InvalidReason::Endpoint));
    let r = prepare_lcu_request("GET", "/lol-chat/v1/me/..", None, "7000", "tok");
    assert_eq!(refusal_of(r), Some(InvalidReason::Endpoint));
}

#[test]
fn malformed_endpoints_are_rejected() {
    assert_eq!(
        refusal_of(prepare_lcu_request("GET", "   ", None, "7000", "tok")),
        Some(InvalidReason::Endpoint)
    );
    assert_eq!(
        refusal_of(prepare_lcu_request("GET", "lol-chat/v1/me", None, "7000", "tok")),
        Some(InvalidReason::Endpoint)
    );
}

#[test]
fn missing_token_is_rejected() {
    assert_eq!(
        refusal_of(prepare_lcu_request("GET", "/lol-chat/v1/me", None, "7000", " \t")),
        Some(InvalidReason::MissingToken)
    );
}

#[test]
fn unparsable_port_is_rejected() {
    assert_eq!(
        refusal_of(prepare_lcu_request("GET", "/lol-chat/v1/me", None, "not-a-number", "tok")),
        Some(InvalidReason::Port)
    );
    assert_eq!(
        refusal_of(prepare_lcu_request("GET", "/lol-chat/v1/me", None, "70000", "tok")),
        Some(InvalidReason::Port)
    );
}

#[test]
fn port_parsing_edges() {
    assert_eq!(parse_u16("0"), Some(0));
    assert_eq!(parse_u16("65535"), Some(65535));
    assert_eq!(parse_u16("65536"), None);
    assert_eq!(parse_u16("+12"), Some(12));
    assert_eq!(parse_u16("+"), None);
    assert_eq!(parse_u16(""), None);
    assert_eq!(parse_u16("-1"), None);
    assert_eq!(parse_u16(" 80"), None);
    assert_eq!(parse_u16("000000000080"), Some(80));
    assert_eq!(parse_u16("99999999999999999999"), None);
}

#[test]
fn decimal_text_of_ports() {
    let mut s = String::from("p=");
    push_decimal(&mut s, 0);
    assert_eq!(s, "p=0");
    let mut s = String::new();
    push_decimal(&mut s, 65535);
    assert_eq!(s, "65535");
    assert_eq!(target_url(8080, "/x"), "https://127.0.0.1:8080/x");
}

#[test]
fn text_helpers() {
    assert_eq!(trim_text("\u{3000} a b \u{a0}"), "a b");
    assert_eq!(trim_text("   "), "");
    assert!(contains_dot_dot("a..b"));
    assert!(!contains_dot_dot("a.b.c"));
    assert_eq!(trimmed_non_blank("  logs/out.txt \n"), Some("logs/out.txt"));
    assert_eq!(trimmed_non_blank(" \t "), None);
    assert!(text_eq("abc", "abc"));
    assert!(!text_eq("abc", "abd"));
}

#[test]
fn no_content_is_success_whatever_the_body() {
    assert!(matches!(interpret_response(204, "garbage {".to_string()), Ok(LcuValue::Success)));
    assert!(matches!(classify_response(204, "x".to_string(), None), Ok(LcuValue::Success)));
}

#[test]
fn empty_success_body_is_success() {
    assert!(matches!(interpret_response(200, String::new()), Ok(LcuValue::Success)));
}

#[test]
fn non_json_body_is_wrapped_as_text() {
    match interpret_response(200, "ok".to_string()) {
        Ok(LcuValue::Text(t)) => assert_eq!(t, "ok"),
        other => panic!("unexpected {:?}", other),
    }
}

#[test]
fn json_body_is_parsed() {
    match interpret_response(201, "{\"statusMessage\":\"hi\"}".to_string()) {
        Ok(LcuValue::Json(v)) => assert_eq!(v["statusMessage"], "hi"),
        other => panic!("unexpected {:?}", other),
    }
}

#[test]
fn forbidden_is_remote_rejection() {
    match interpret_response(403, "unauthorized".to_string()) {
        Err(LcuError::RemoteRejection { status, body }) => {
            assert_eq!(status, 403);
            assert_eq!(body, "unauthorized");
        }
        other => panic!("unexpected {:?}", other),
    }
    assert!(matches!(
        interpret_response(199, String::new()),
        Err(LcuError::RemoteRejection { status: 199, .. })
    ));
}
