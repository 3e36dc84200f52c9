use calc_service::form::FormError;
use calc_service::params::CalcParams;
use calc_service::reply::{Reply, BAD_REQUEST, NOT_FOUND, OK};
use calc_service::router::{apply, refuse, respond, route, serve, Operation};

#[test]
fn route_finds_the_four_operations() {
    assert_eq!(route("POST", "/add"), Some(Operation::Add));
    assert_eq!(route("POST", "/sub"), Some(Operation::Sub));
    assert_eq!(route("POST", "/mul"), Some(Operation::Mul));
    assert_eq!(route("POST", "/div"), Some(Operation::Div));
}

#[test]
fn route_finds_nothing_elsewhere() {
    assert_eq!(route("GET", "/add"), None);
    assert_eq!(route("post", "/add"), None);
    assert_eq!(route("POST ", "/add"), None);
    assert_eq!(route("", "/add"), None);
    assert_eq!(route("POST", "/"), None);
    assert_eq!(route("POST", ""), None);
    assert_eq!(route("POST", "/add/"), None);
    assert_eq!(route("POST", "/Add"), None);
    assert_eq!(route("POST", "/divide"), None);
    assert_eq!(route("POST", "add"), None);
}

#[test]
fn apply_calls_the_named_operation() {
    let p = CalcParams::new(20, 6);
    assert_eq!(apply(Operation::Add, &p), Reply { status: 200, body: "26".to_string() });
    assert_eq!(apply(Operation::Sub, &p), Reply { status: 200, body: "14".to_string() });
    assert_eq!(apply(Operation::Mul, &p), Reply { status: 200, body: "120".to_string() });
    assert_eq!(apply(Operation::Div, &p), Reply { status: 200, body: "3".to_string() });
}

#[test]
fn refusals_have_status_400_and_a_message() {
    assert_eq!(refuse(FormError::Undecodable).body, "Malformed form body");
    assert_eq!(refuse(FormError::Repeated).body, "Repeated parameter");
    assert_eq!(refuse(FormError::Missing).body, "Missing parameter");
    assert_eq!(refuse(FormError::NotInteger).body, "Parameter is not an integer");
    for e in [
        FormError::Undecodable,
        FormError::Repeated,
        FormError::Missing,
        FormError::NotInteger,
    ] {
        assert_eq!(refuse(e).status, 400);
    }
}

#[test]
fn respond_answers_a_body() {
    assert_eq!(respond(Operation::Mul, b"a=-4&b=5").body, "-20");
    assert_eq!(respond(Operation::Mul, b"a=-4&b=5").status, 200);
    assert_eq!(respond(Operation::Div, b"a=-9&b=2").body, "-4");
    assert_eq!(respond(Operation::Div, b"a=1&b=0").status, 400);
}

#[test]
fn respond_refuses_a_body_without_payload() {
    for op in [Operation::Add, Operation::Sub, Operation::Mul, Operation::Div] {
        assert_eq!(respond(op, b"a=x&b=2"), refuse(FormError::NotInteger));
        assert_eq!(respond(op, b"a=1"), refuse(FormError::Missing));
        assert_eq!(respond(op, b"a=1&a=2&b=3"), refuse(FormError::Repeated));
        assert_eq!(respond(op, b"a=1&b=0&b=0"), refuse(FormError::Repeated));
    }
}

#[test]
fn serve_decodes_the_body_before_it_computes() {
    assert_eq!(serve("POST", "/add", b"a=%31%30&b=%2D3").body, "7");
    assert_eq!(serve("POST", "/div", b"a=9&b=%30").body, "Cannot divide by zero");
}

#[test]
fn serve_looks_at_the_route_before_the_body() {
    assert_eq!(serve("GET", "/add", b"a=x").status, 404);
    assert_eq!(serve("POST", "/nothing", b"").status, 404);
    assert_eq!(serve("POST", "/add", b"a=x").status, 400);
}

#[test]
fn status_codes_have_their_http_values() {
    assert_eq!(OK, 200);
    assert_eq!(BAD_REQUEST, 400);
    assert_eq!(NOT_FOUND, 404);
    assert_eq!(Reply::ok("1".to_string()), Reply { status: 200, body: "1".to_string() });
    assert_eq!(Reply::bad_request("no"), Reply { status: 400, body: "no".to_string() });
    assert_eq!(Reply::not_found(), Reply { status: 404, body: String::new() });
    assert!(Reply::ok(String::new()).is_ok());
    assert!(!Reply::bad_request("").is_ok());
    assert!(!Reply::not_found().is_ok());
}
