use calc_service::reply::Reply;
use calc_service::router::serve;

fn post(path: &str, body: &str) -> Reply {
    serve("POST", path, body.as_bytes())
}

fn assert_reply(reply: Reply, status: u16, body: &str) {
    assert_eq!(reply.status, status);
    assert_eq!(reply.body, body);
}

#[test]
fn add_three_and_four() {
    assert_reply(post("/add", "a=3&b=4"), 200, "7");
}

#[test]
fn sub_ten_and_four() {
    assert_reply(post("/sub", "a=10&b=4"), 200, "6");
}

#[test]
fn mul_five_and_six() {
    assert_reply(post("/mul", "a=5&b=6"), 200, "30");
}

#[test]
fn div_nine_by_three() {
    assert_reply(post("/div", "a=9&b=3"), 200, "3");
}

#[test]
fn div_nine_by_zero_is_refused() {
    assert_reply(post("/div", "a=9&b=0"), 400, "Cannot divide by zero");
}

#[test]
fn div_seven_by_two_truncates() {
    assert_reply(post("/div", "a=7&b=2"), 200, "3");
}

#[test]
fn div_by_zero_is_refused_for_every_dividend() {
    for a in [i32::MIN, -1, 0, 1, 9, i32::MAX] {
        let body = format!("a={}&b=0", a);
        assert_reply(post("/div", &body), 400, "Cannot divide by zero");
    }
}

#[test]
fn malformed_operand_is_refused_on_every_endpoint() {
    for path in ["/add", "/sub", "/mul", "/div"] {
        let reply = post(path, "a=x&b=2");
        assert_ne!(reply.status, 200);
        assert_eq!(reply.status, 400);
        assert!(!reply.is_ok());
    }
}

#[test]
fn missing_operand_is_refused_on_every_endpoint() {
    for path in ["/add", "/sub", "/mul", "/div"] {
        assert_eq!(post(path, "a=1").status, 400);
        assert_eq!(post(path, "b=1").status, 400);
        assert_eq!(post(path, "").status, 400);
    }
}

#[test]
fn exact_results_within_range() {
    let values = [-46341, -1000, -7, -1, 0, 1, 2, 9, 1000, 46340];
    for a in values {
        for b in values {
            let body = format!("a={}&b={}", a, b);
            assert_reply(post("/add", &body), 200, &(a + b).to_string());
            assert_reply(post("/sub", &body), 200, &(a - b).to_string());
            assert_reply(post("/mul", &body), 200, &(a * b).to_string());
            if b != 0 {
                assert_reply(post("/div", &body), 200, &(a / b).to_string());
            }
        }
    }
}

#[test]
fn operands_may_come_in_either_order() {
    assert_reply(post("/sub", "b=4&a=10"), 200, "6");
}

#[test]
fn other_fields_are_passed_over() {
    assert_reply(post("/add", "x=1&a=3&note=hello+there&b=4&"), 200, "7");
}

#[test]
fn other_method_is_not_found() {
    for method in ["GET", "PUT", "DELETE", "HEAD", "post", ""] {
        let reply = serve(method, "/add", b"a=3&b=4");
        assert_eq!(reply.status, 404);
        assert_eq!(reply.body, "");
    }
}

#[test]
fn other_path_is_not_found() {
    for path in ["/", "", "/add/", "add", "/ADD", "/pow", "/add?x=1", "/addé"] {
        let reply = serve("POST", path, b"a=3&b=4");
        assert_eq!(reply.status, 404);
        assert_eq!(reply.body, "");
    }
}
