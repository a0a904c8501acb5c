use gateway::auth::AuthOutcome;
use gateway::auth::extract;
use gateway::errors::ErrorEnvelope;
use gateway::errors::StoreError;
use gateway::errors::badrequest;
use gateway::errors::classify;
use gateway::errors::notfound;
use gateway::errors::unauthorized;
use gateway::invoke::StoreOutcome;
use gateway::invoke::interpret;
use gateway::invoke::invoke;
use gateway::invoke::invoke_each;
use gateway::json::JsonValue;
use gateway::json::error_body;
use gateway::pool::Pool;
use gateway::routes::Arg;
use gateway::routes::Body;
use gateway::routes::Login;
use gateway::routes::PasswordForgot;
use gateway::routes::PasswordReset;
use gateway::routes::Response;
use gateway::routes::Step;
use gateway::routes::fields_get;
use gateway::routes::fields_get_i;
use gateway::routes::fields_set;
use gateway::routes::gate;
use gateway::routes::login;
use gateway::routes::password_forgot;
use gateway::routes::password_reset;
use gateway::routes::path_param_i32;
use gateway::routes::people_add;
use gateway::routes::people_get;
use gateway::routes::people_get_i;
use gateway::routes::people_set_i;
use gateway::routes::permissions_get;
use gateway::routes::respond;
use gateway::routes::statement_text;
use gateway::routes::roles_add;
use gateway::routes::roles_get;
use gateway::routes::roles_get_i;
use gateway::routes::roles_set;

fn not_found(status: u16) -> ErrorEnvelope {
    ErrorEnvelope { status, message: "Id not found (or no read access)".to_string() }
}

fn fixed_body(msg: &str) -> JsonValue {
    JsonValue::Obj(vec![("error".to_string(), JsonValue::Str(msg.to_string()))])
}

fn person() -> JsonValue {
    JsonValue::Obj(vec![
        ("name".to_string(), JsonValue::Str("Ada".to_string())),
        ("age".to_string(), JsonValue::Num("36".to_string())),
        ("height".to_string(), JsonValue::Num("1.69".to_string())),
        ("tags".to_string(), JsonValue::Arr(vec![JsonValue::Str("admin".to_string())])),
    ])
}

// Credential-header extraction: zero or two values reject with 401.

#[test]
fn auth_missing_header_rejected() {
    let headers: Vec<String> = vec![];
    assert_eq!(extract(&headers), AuthOutcome::Rejected(401));
}

#[test]
fn auth_two_headers_rejected() {
    let headers = vec!["a".to_string(), "b".to_string()];
    assert_eq!(extract(&headers), AuthOutcome::Rejected(401));
}

// The sentinel bypass value skips the handler and is never a session token.

#[test]
fn auth_sentinel_skips() {
    let headers = vec!["test".to_string()];
    assert_eq!(extract(&headers), AuthOutcome::Skip);
}

#[test]
fn auth_single_header_authenticates() {
    let headers = vec!["opaque-bearer".to_string()];
    assert_eq!(extract(&headers), AuthOutcome::Authenticated("opaque-bearer".to_string()));
}

#[test]
fn gate_missing_header_answers_401_with_fixed_body() {
    let headers: Vec<String> = vec![];
    let step = gate(true, &headers, false, true);
    let expected = Response {
        status: 401,
        body: Body::Json(fixed_body("No Authorization header found")),
    };
    assert_eq!(step, Step::Respond(expected));
}

#[test]
fn gate_two_headers_answers_401() {
    let headers = vec!["a".to_string(), "b".to_string()];
    match gate(true, &headers, true, true) {
        Step::Respond(resp) => assert_eq!(resp.status, 401),
        other => panic!("expected an immediate 401, got {:?}", other),
    }
}

#[test]
fn gate_sentinel_forwards() {
    let headers = vec!["test".to_string()];
    assert_eq!(gate(true, &headers, false, true), Step::Forward);
}

#[test]
fn gate_token_proceeds() {
    let headers = vec!["opaque-bearer".to_string()];
    assert_eq!(
        gate(true, &headers, true, true),
        Step::Proceed(Some("opaque-bearer".to_string()))
    );
}

#[test]
fn gate_open_route_proceeds_without_token() {
    let headers: Vec<String> = vec![];
    assert_eq!(gate(false, &headers, false, true), Step::Proceed(None));
}

// Malformed JSON body on a body-accepting route: 400 with the fixed
// validation-error body.

#[test]
fn gate_malformed_body_answers_400_with_fixed_body() {
    let headers = vec!["opaque-bearer".to_string()];
    let step = gate(true, &headers, true, false);
    let expected = Response {
        status: 400,
        body: Body::Json(fixed_body("An error occurred on the server")),
    };
    assert_eq!(step, Step::Respond(expected));
}

#[test]
fn gate_malformed_body_open_route_answers_400() {
    let headers: Vec<String> = vec![];
    let step = gate(false, &headers, true, false);
    match step {
        Step::Respond(resp) => assert_eq!(resp.status, 400),
        other => panic!("expected an immediate 400, got {:?}", other),
    }
}

// Store-failure classification: application errors are 400, anything else
// 500, message passed through.

#[test]
fn classify_application_error_is_400() {
    let env = classify(StoreError::Application("balance too low".to_string()));
    assert_eq!(env, ErrorEnvelope { status: 400, message: "balance too low".to_string() });
}

#[test]
fn classify_transport_error_is_500() {
    let env = classify(StoreError::Transport("connection refused".to_string()));
    assert_eq!(env, ErrorEnvelope { status: 500, message: "connection refused".to_string() });
}

// Zero rows is never a success: it answers exactly the declared not-found
// outcome.

#[test]
fn interpret_zero_rows_is_declared_not_found() {
    let r = interpret(StoreOutcome::Rows(vec![]), not_found(404));
    assert_eq!(r, Err(not_found(404)));
}

#[test]
fn interpret_zero_rows_uses_405_when_declared() {
    let r = interpret(StoreOutcome::Rows(vec![]), not_found(405));
    assert_eq!(r, Err(not_found(405)));
}

#[test]
fn interpret_first_row_is_the_result() {
    let rows = vec![JsonValue::Num("7".to_string()), JsonValue::Num("8".to_string())];
    let r = interpret(StoreOutcome::Rows(rows), not_found(404));
    assert_eq!(r, Ok(JsonValue::Num("7".to_string())));
}

#[test]
fn interpret_application_failure_is_400() {
    let r = interpret(
        StoreOutcome::Failure(StoreError::Application("no".to_string())),
        not_found(404),
    );
    assert_eq!(r, Err(ErrorEnvelope { status: 400, message: "no".to_string() }));
}

// Pool accounting: after any sequence of invocations, whatever their
// outcomes, the available count returns to its pre-sequence value.

#[test]
fn pool_restored_after_mixed_sequence() {
    let mut pool = Pool::new(3);
    assert_eq!(pool.available(), 3);
    let _ = invoke(&mut pool, StoreOutcome::Rows(vec![JsonValue::Null]), not_found(404));
    assert_eq!(pool.available(), 3);
    let _ = invoke(
        &mut pool,
        StoreOutcome::Failure(StoreError::Application("rule".to_string())),
        not_found(404),
    );
    assert_eq!(pool.available(), 3);
    let _ = invoke(
        &mut pool,
        StoreOutcome::Failure(StoreError::Transport("down".to_string())),
        not_found(404),
    );
    assert_eq!(pool.available(), 3);
    let _ = invoke(&mut pool, StoreOutcome::Rows(vec![]), not_found(405));
    assert_eq!(pool.available(), 3);
}

// Login scenario: valid credentials give 200 with the session object,
// unknown credentials give 404 with the fixed refusal message.

#[test]
fn login_plan_binds_credentials_in_order() {
    let c = login(Login { user: "a@b.com".to_string(), password: "secret".to_string() });
    assert_eq!(c.name, "login".to_string());
    assert_eq!(
        c.args,
        vec![
            ("emailaddress".to_string(), Arg::Str("a@b.com".to_string())),
            ("password".to_string(), Arg::Str("secret".to_string())),
        ]
    );
    assert_eq!(c.not_found, not_found(404));
}

#[test]
fn login_success_returns_session_object() {
    let mut pool = Pool::new(2);
    let c = login(Login { user: "a@b.com".to_string(), password: "secret".to_string() });
    let session = JsonValue::Obj(vec![(
        "token".to_string(),
        JsonValue::Str("fresh-session".to_string()),
    )]);
    let r = invoke(&mut pool, StoreOutcome::Rows(vec![session]), c.not_found);
    let resp = respond(r);
    assert_eq!(resp.status, 200);
    let expected = JsonValue::Obj(vec![(
        "token".to_string(),
        JsonValue::Str("fresh-session".to_string()),
    )]);
    assert_eq!(resp.body, Body::Json(expected));
}

#[test]
fn login_unknown_credentials_answer_404() {
    let mut pool = Pool::new(2);
    let c = login(Login { user: "a@b.com".to_string(), password: "wrong".to_string() });
    let r = invoke(&mut pool, StoreOutcome::Rows(vec![]), c.not_found);
    let resp = respond(r);
    assert_eq!(resp.status, 404);
    assert_eq!(resp.body, Body::Text("Id not found (or no read access)".to_string()));
}

// Round trip: the object submitted to create a person is forwarded unchanged
// as the `data` argument, and an echoing store returns it unchanged on fetch.

#[test]
fn person_round_trip_passes_data_unchanged() {
    let c = people_add("opaque-bearer".to_string(), person());
    assert_eq!(c.name, "people_add".to_string());
    assert_eq!(c.args[0], ("token".to_string(), Arg::Str("opaque-bearer".to_string())));
    assert_eq!(c.args[1], ("data".to_string(), Arg::Json(person())));

    let mut pool = Pool::new(1);
    let fetch = people_get_i("opaque-bearer".to_string(), 42);
    let r = invoke(&mut pool, StoreOutcome::Rows(vec![person()]), fetch.not_found);
    let resp = respond(r);
    assert_eq!(resp.status, 200);
    assert_eq!(resp.body, Body::Json(person()));
}

// The stub route: always 200 with the JSON value `false`.

#[test]
fn fields_set_always_returns_false() {
    let resp = fields_set();
    assert_eq!(resp, Response { status: 200, body: Body::Json(JsonValue::Bool(false)) });
}

// Each route plans its declared procedure, token first.

#[test]
fn people_routes_bind_token_first() {
    let c = people_get("t1".to_string());
    assert_eq!(c.name, "people_get".to_string());
    assert_eq!(c.args, vec![("token".to_string(), Arg::Str("t1".to_string()))]);

    let c = people_get_i("t2".to_string(), 9);
    assert_eq!(c.name, "people_get".to_string());
    assert_eq!(
        c.args,
        vec![
            ("token".to_string(), Arg::Str("t2".to_string())),
            ("people_id".to_string(), Arg::Int(9)),
        ]
    );

    let c = people_set_i("t3".to_string(), 4, JsonValue::Null);
    assert_eq!(c.name, "people_set".to_string());
    assert_eq!(
        c.args,
        vec![
            ("token".to_string(), Arg::Str("t3".to_string())),
            ("people_id".to_string(), Arg::Int(4)),
            ("data".to_string(), Arg::Json(JsonValue::Null)),
        ]
    );
}

#[test]
fn roles_routes_bind_token_first() {
    let c = roles_add("t".to_string(), JsonValue::Bool(true));
    assert_eq!(c.name, "roles_add".to_string());
    assert_eq!(c.args[0], ("token".to_string(), Arg::Str("t".to_string())));
    assert_eq!(c.args[1], ("data".to_string(), Arg::Json(JsonValue::Bool(true))));

    let c = roles_get("t".to_string());
    assert_eq!(c.name, "roles_get".to_string());

    let c = roles_get_i("t".to_string(), 2);
    assert_eq!(c.name, "roles_get".to_string());
    assert_eq!(c.args[1], ("roles_id".to_string(), Arg::Int(2)));

    let c = roles_set("t".to_string(), 2, JsonValue::Null);
    assert_eq!(c.name, "roles_set".to_string());
    assert_eq!(c.args.len(), 3);
}

#[test]
fn metadata_routes_plan_their_procedures() {
    let c = permissions_get("t".to_string());
    assert_eq!(c.name, "roles_permissions_get".to_string());
    assert_eq!(c.args, vec![("token".to_string(), Arg::Str("t".to_string()))]);

    let c = fields_get("t".to_string());
    assert_eq!(c.name, "fields_get".to_string());

    let c = fields_get_i("t".to_string(), "people".to_string());
    assert_eq!(c.name, "fields_get".to_string());
    assert_eq!(c.args[1], ("ref_table".to_string(), Arg::Str("people".to_string())));
}

// The password routes are open and declare 405 as their no-rows outcome.

#[test]
fn password_routes_declare_405() {
    let c = password_forgot(PasswordForgot { email: "a@b.com".to_string() });
    assert_eq!(c.name, "password_forgot".to_string());
    assert_eq!(c.args, vec![("user_email".to_string(), Arg::Str("a@b.com".to_string()))]);
    assert_eq!(c.not_found, not_found(405));

    let c = password_reset(PasswordReset {
        token: "reset-me".to_string(),
        password: "fresh".to_string(),
    });
    assert_eq!(c.name, "password_reset".to_string());
    assert_eq!(
        c.args,
        vec![
            ("reset_token".to_string(), Arg::Str("reset-me".to_string())),
            ("new_password".to_string(), Arg::Str("fresh".to_string())),
        ]
    );
    assert_eq!(c.not_found, not_found(405));
}

// The fixed catch-all bodies.

#[test]
fn catch_all_bodies_are_fixed() {
    assert_eq!(badrequest(), fixed_body("An error occurred on the server"));
    assert_eq!(unauthorized(), fixed_body("No Authorization header found"));
    assert_eq!(notfound(), fixed_body("Resource not found"));
    assert_eq!(error_body("boom".to_string()), fixed_body("boom"));
}

// Typed path parameters: decimal 32-bit integers, anything else 400.

#[test]
fn path_param_accepts_decimal_integers() {
    assert_eq!(path_param_i32("123"), Ok(123));
    assert_eq!(path_param_i32("0"), Ok(0));
    assert_eq!(path_param_i32("007"), Ok(7));
    assert_eq!(path_param_i32("+7"), Ok(7));
    assert_eq!(path_param_i32("-0"), Ok(0));
    assert_eq!(path_param_i32("2147483647"), Ok(i32::MAX));
    assert_eq!(path_param_i32("-2147483648"), Ok(i32::MIN));
}

#[test]
fn path_param_rejects_bad_text_with_400() {
    for bad in ["", "-", "+", "abc", "12x", "2147483648", "-2147483649", "99999999999", " 1"] {
        match path_param_i32(bad) {
            Err(resp) => {
                assert_eq!(resp.status, 400);
                assert_eq!(resp.body, Body::Json(fixed_body("An error occurred on the server")));
            },
            Ok(v) => panic!("{:?} unexpectedly parsed to {}", bad, v),
        }
    }
}

#[test]
fn pool_counts_leases() {
    let mut pool = Pool::new(2);
    assert_eq!(pool.available(), 2);
    let first = pool.acquire();
    assert_eq!(pool.available(), 1);
    let second = pool.acquire();
    assert_eq!(pool.available(), 0);
    pool.release(first);
    assert_eq!(pool.available(), 1);
    pool.release(second);
    assert_eq!(pool.available(), 2);
}

// A number payload crosses the gateway as its decimal lexeme, distinct from
// a string of the same characters, and comes back unchanged.

#[test]
fn number_lexeme_passes_through_unchanged() {
    let price = JsonValue::Obj(vec![("price".to_string(), JsonValue::Num("9.99".to_string()))]);
    let c = people_add("tok".to_string(), price);
    let expected = JsonValue::Obj(vec![("price".to_string(), JsonValue::Num("9.99".to_string()))]);
    assert_eq!(c.args[1], ("data".to_string(), Arg::Json(expected)));
    let as_string = JsonValue::Obj(vec![("price".to_string(), JsonValue::Str("9.99".to_string()))]);
    match &c.args[1].1 {
        Arg::Json(v) => assert_ne!(*v, as_string),
        other => panic!("expected a JSON argument, got {:?}", other),
    }
}

// The statement text each plan prepares: one placeholder per argument,
// bound by name in positional order, JSON arguments cast.

#[test]
fn statement_text_renders_the_planned_call() {
    let c = people_set_i("tok".to_string(), 4, JsonValue::Null);
    assert_eq!(
        statement_text(&c),
        "SELECT (people_set(token := $1, people_id := $2, data := $3::json))::text".to_string()
    );
    let c = login(Login { user: "a@b.com".to_string(), password: "secret".to_string() });
    assert_eq!(
        statement_text(&c),
        "SELECT (login(emailaddress := $1, password := $2))::text".to_string()
    );
    let c = people_get("tok".to_string());
    assert_eq!(statement_text(&c), "SELECT (people_get(token := $1))::text".to_string());
}

// The sequence form of the pool law: a whole batch of invocations leaves
// the available count where it began and interprets every outcome.

#[test]
fn invoke_each_restores_pool_and_interprets_all() {
    let mut pool = Pool::new(2);
    let outcomes = vec![
        (StoreOutcome::Rows(vec![JsonValue::Bool(true)]), not_found(404)),
        (StoreOutcome::Rows(vec![]), not_found(405)),
        (StoreOutcome::Failure(StoreError::Application("rule".to_string())), not_found(404)),
        (StoreOutcome::Failure(StoreError::Transport("down".to_string())), not_found(404)),
    ];
    let results = invoke_each(&mut pool, outcomes);
    assert_eq!(pool.available(), 2);
    assert_eq!(results.len(), 4);
    assert_eq!(results[0], Ok(JsonValue::Bool(true)));
    assert_eq!(results[1], Err(not_found(405)));
    assert_eq!(results[2], Err(ErrorEnvelope { status: 400, message: "rule".to_string() }));
    assert_eq!(results[3], Err(ErrorEnvelope { status: 500, message: "down".to_string() }));
}
