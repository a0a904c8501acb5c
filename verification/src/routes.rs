use vstd::prelude::*;

use crate::auth::AuthOutcome;
use crate::auth::extract;
use crate::auth::sentinel;
use crate::errors::ErrorEnvelope;
use crate::errors::badrequest;
use crate::errors::unauthorized;
use crate::json::JsonValue;
use crate::json::is_error_body;
use crate::params::parse_i32;
use crate::params::is_int_literal;
use crate::params::int_literal_val;
use crate::params::in_i32_range;
use crate::params::dec_str;
use crate::params::dec_of_u64;

verus! {

/// One typed argument bound to a procedure placeholder: a string, a 32-bit
/// integer, or an arbitrary JSON value.
#[derive(Debug, PartialEq)]
pub enum Arg {
    Str(String),
    Int(i32),
    Json(JsonValue),
}

/// A planned procedure invocation: the procedure's name, its arguments in
/// positional order (each under the parameter name the procedure declares),
/// and the outcome to use when the call yields no rows.
#[derive(Debug, PartialEq)]
pub struct ProcedureCall {
    pub name: String,
    pub args: Vec<(String, Arg)>,
    pub not_found: ErrorEnvelope,
}

/// The not-found outcome every route declares: its chosen status with the
/// store's fixed refusal message.
pub open spec fn is_not_found(env: ErrorEnvelope, status: u16) -> bool {
    env.status == status && env.message@ == "Id not found (or no read access)"@
}

/// `arg` binds the value `v` under the parameter name `name`.
pub open spec fn is_arg(arg: (String, Arg), name: Seq<char>, v: Arg) -> bool {
    arg.0@ == name && arg.1 == v
}

/// On an authenticated route the bearer token is always the first bound
/// argument; the store, not the gateway, decides what it grants.
pub open spec fn token_first(c: ProcedureCall, token: String) -> bool {
    c.args@.len() >= 1 && is_arg(c.args@[0], "token"@, Arg::Str(token))
}

fn not_found_outcome(status: u16) -> (env: ErrorEnvelope)
    ensures
        is_not_found(env, status),
{
    ErrorEnvelope { status, message: String::from_str("Id not found (or no read access)") }
}

/// An HTTP-shaped response body: a JSON document, or the bare message text
/// of an error envelope.
#[derive(Debug, PartialEq)]
pub enum Body {
    Json(JsonValue),
    Text(String),
}

/// An HTTP-shaped response: status code and body.
#[derive(Debug, PartialEq)]
pub struct Response {
    pub status: u16,
    pub body: Body,
}

/// Serializes an invocation result: success is 200 with the JSON value as
/// body, failure is the envelope's status with its message as body text.
pub fn respond(r: Result<JsonValue, ErrorEnvelope>) -> (resp: Response)
    ensures
        r matches Ok(v) ==> resp.status == 200 && resp.body == Body::Json(v),
        r matches Err(e) ==> resp.status == e.status && resp.body == Body::Text(e.message),
{
    match r {
        Ok(v) => Response { status: 200, body: Body::Json(v) },
        Err(e) => Response { status: e.status, body: Body::Text(e.message) },
    }
}

/// What the dispatcher decides about one request before any store access:
/// answer immediately, skip this handler and keep matching, or proceed into
/// the handler body with the extracted token (`None` on an open route).
#[derive(Debug, PartialEq)]
pub enum Step {
    Respond(Response),
    Forward,
    Proceed(Option<String>),
}

/// `s` answers immediately with `status` and the fixed catch-all JSON body
/// `{"error": msg}`.
pub open spec fn is_fixed_error_response(s: Step, status: u16, msg: Seq<char>) -> bool {
    match s {
        Step::Respond(resp) => resp.status == status && match resp.body {
            Body::Json(v) => is_error_body(v, msg),
            Body::Text(_) => false,
        },
        _ => false,
    }
}

/// Everything [`gate`] promises, branch by branch, in the order the checks
/// run: credential header first (absent or ambiguous rejects with 401, the
/// sentinel forwards), then the body (required but unreadable rejects with
/// 400), and only then may the handler proceed, with the literal header
/// value as token on a protected route.
pub open spec fn gate_spec(
    protected: bool,
    headers: Seq<String>,
    needs_body: bool,
    body_ok: bool,
    s: Step,
) -> bool {
    if protected && headers.len() != 1 {
        is_fixed_error_response(s, 401, "No Authorization header found"@)
    } else if protected && headers[0]@ == sentinel() {
        s == Step::Forward
    } else if needs_body && !body_ok {
        is_fixed_error_response(s, 400, "An error occurred on the server"@)
    } else if protected {
        s == Step::Proceed(Some(headers[0]))
    } else {
        s == Step::Proceed(None::<String>)
    }
}

/// The checks every handler runs before touching the store. `headers` holds
/// the request's credential-header values; `body_ok` says whether a request
/// body was present and decoded as JSON. Auth and validation errors are
/// answered here, before any store access; the sentinel is never handed out
/// as a token.
pub fn gate(protected: bool, headers: &Vec<String>, needs_body: bool, body_ok: bool) -> (s: Step)
    ensures
        gate_spec(protected, headers@, needs_body, body_ok, s),
        protected && headers@.len() != 1 ==> is_fixed_error_response(
            s,
            401,
            "No Authorization header found"@,
        ),
        protected && headers@.len() == 1 && headers@[0]@ == sentinel() ==> s == Step::Forward,
        s matches Step::Proceed(t) ==> (t matches Some(tok) ==> tok@ != sentinel()),
{
    if protected {
        match extract(headers) {
            AuthOutcome::Rejected(status) => Step::Respond(
                Response { status, body: Body::Json(unauthorized()) },
            ),
            AuthOutcome::Skip => Step::Forward,
            AuthOutcome::Authenticated(token) => {
                if needs_body && !body_ok {
                    Step::Respond(Response { status: 400, body: Body::Json(badrequest()) })
                } else {
                    Step::Proceed(Some(token))
                }
            },
        }
    } else {
        if needs_body && !body_ok {
            Step::Respond(Response { status: 400, body: Body::Json(badrequest()) })
        } else {
            Step::Proceed(None)
        }
    }
}

/// The text that binds one argument: its parameter name, the `:=`
/// convention, its placeholder numeral, and a cast to `json` where the
/// value is a JSON document.
pub open spec fn binding_text(name: Seq<char>, position: nat, json: bool) -> Seq<char> {
    name + " := $"@ + dec_str(position) + (if json {
        "::json"@
    } else {
        Seq::<char>::empty()
    })
}

/// The comma-separated binding texts of the first `upto` arguments,
/// placeholders numbered from one in positional order.
pub open spec fn bindings_text(args: Seq<(String, Arg)>, upto: int) -> Seq<char>
    decreases upto,
{
    if upto <= 0 {
        Seq::<char>::empty()
    } else {
        bindings_text(args, upto - 1) + (if upto == 1 {
            Seq::<char>::empty()
        } else {
            ", "@
        }) + binding_text(args[upto - 1].0@, upto as nat, args[upto - 1].1 is Json)
    }
}

/// The one statement a planned call prepares: the procedure applied to one
/// placeholder per argument, bound by name in positional order, the result
/// cast to text for the wire.
pub open spec fn call_text(c: ProcedureCall) -> Seq<char> {
    "SELECT ("@ + c.name@ + "("@ + bindings_text(c.args@, c.args@.len() as int) + "))::text"@
}

/// Renders the statement text a planned call prepares, exactly
/// [`call_text`]; the store driver receives it as is.
pub fn statement_text(c: &ProcedureCall) -> (t: String)
    ensures
        t@ == call_text(*c),
{
    let mut t = String::from_str("SELECT (");
    t.append(c.name.as_str());
    t.append("(");
    let mut i: usize = 0;
    while i < c.args.len()
        invariant
            i <= c.args@.len(),
            t@ == "SELECT ("@ + c.name@ + "("@ + bindings_text(c.args@, i as int),
        decreases c.args@.len() - i,
    {
        let ghost pre = t@;
        if i > 0 {
            t.append(", ");
        }
        t.append(c.args[i].0.as_str());
        t.append(" := $");
        let numeral = dec_of_u64((i as u64) + 1);
        t.append(numeral.as_str());
        let json = match &c.args[i].1 {
            Arg::Json(_) => true,
            _ => false,
        };
        if json {
            t.append("::json");
        }
        proof {
            let sep: Seq<char> = if i == 0 {
                Seq::<char>::empty()
            } else {
                ", "@
            };
            assert(t@ =~= pre + sep + binding_text(
                c.args@[i as int].0@,
                (i + 1) as nat,
                c.args@[i as int].1 is Json,
            ));
            assert(t@ =~= "SELECT ("@ + c.name@ + "("@ + bindings_text(c.args@, i as int + 1));
        }
        i = i + 1;
    }
    t.append("))::text");
    proof {
        assert(t@ =~= call_text(*c));
    }
    t
}

/// Extracts a typed integer path parameter. Text that does not parse to a
/// 32-bit integer answers 400 with the fixed catch-all body, before any
/// store access.
pub fn path_param_i32(s: &str) -> (r: Result<i32, Response>)
    ensures
        r matches Ok(v) ==> is_int_literal(s@) && in_i32_range(int_literal_val(s@)) && v as int
            == int_literal_val(s@),
        r matches Err(resp) ==> !(is_int_literal(s@) && in_i32_range(int_literal_val(s@)))
            && resp.status == 400 && match resp.body {
            Body::Json(v) => is_error_body(v, "An error occurred on the server"@),
            Body::Text(_) => false,
        },
{
    match parse_i32(s) {
        Some(v) => Ok(v),
        None => Err(Response { status: 400, body: Body::Json(badrequest()) }),
    }
}

/// The credentials submitted to `POST /login`.
pub struct Login {
    pub user: String,
    pub password: String,
}

/// The address submitted to `POST /password_forgot`.
pub struct PasswordForgot {
    pub email: String,
}

/// The reset token and replacement password submitted to
/// `POST /password_reset`.
pub struct PasswordReset {
    pub token: String,
    pub password: String,
}

/// `POST /login` (open): authenticate a user; zero rows means unknown
/// credentials and answers 404.
pub fn login(credentials: Login) -> (c: ProcedureCall)
    ensures
        c.name@ == "login"@,
        c.args@.len() == 2,
        is_arg(c.args@[0], "emailaddress"@, Arg::Str(credentials.user)),
        is_arg(c.args@[1], "password"@, Arg::Str(credentials.password)),
        is_not_found(c.not_found, 404),
{
    let Login { user, password } = credentials;
    let mut args: Vec<(String, Arg)> = Vec::new();
    args.push((String::from_str("emailaddress"), Arg::Str(user)));
    args.push((String::from_str("password"), Arg::Str(password)));
    ProcedureCall { name: String::from_str("login"), args, not_found: not_found_outcome(404) }
}

/// `POST /people` (token): create a person record from the submitted JSON
/// object, which is forwarded unchanged as the `data` argument.
pub fn people_add(token: String, person: JsonValue) -> (c: ProcedureCall)
    ensures
        c.name@ == "people_add"@,
        c.args@.len() == 2,
        token_first(c, token),
        is_arg(c.args@[1], "data"@, Arg::Json(person)),
        is_not_found(c.not_found, 404),
{
    let mut args: Vec<(String, Arg)> = Vec::new();
    args.push((String::from_str("token"), Arg::Str(token)));
    args.push((String::from_str("data"), Arg::Json(person)));
    ProcedureCall { name: String::from_str("people_add"), args, not_found: not_found_outcome(404) }
}

/// `GET /people` (token): list the people this token may read.
pub fn people_get(token: String) -> (c: ProcedureCall)
    ensures
        c.name@ == "people_get"@,
        c.args@.len() == 1,
        token_first(c, token),
        is_not_found(c.not_found, 404),
{
    let mut args: Vec<(String, Arg)> = Vec::new();
    args.push((String::from_str("token"), Arg::Str(token)));
    ProcedureCall { name: String::from_str("people_get"), args, not_found: not_found_outcome(404) }
}

/// `GET /people/{id}` (token): fetch one person by id.
pub fn people_get_i(token: String, id: i32) -> (c: ProcedureCall)
    ensures
        c.name@ == "people_get"@,
        c.args@.len() == 2,
        token_first(c, token),
        is_arg(c.args@[1], "people_id"@, Arg::Int(id)),
        is_not_found(c.not_found, 404),
{
    let mut args: Vec<(String, Arg)> = Vec::new();
    args.push((String::from_str("token"), Arg::Str(token)));
    args.push((String::from_str("people_id"), Arg::Int(id)));
    ProcedureCall { name: String::from_str("people_get"), args, not_found: not_found_outcome(404) }
}

/// `PUT /people/{id}` (token): update one person from the submitted JSON
/// object, forwarded unchanged as the `data` argument.
pub fn people_set_i(token: String, id: i32, person: JsonValue) -> (c: ProcedureCall)
    ensures
        c.name@ == "people_set"@,
        c.args@.len() == 3,
        token_first(c, token),
        is_arg(c.args@[1], "people_id"@, Arg::Int(id)),
        is_arg(c.args@[2], "data"@, Arg::Json(person)),
        is_not_found(c.not_found, 404),
{
    let mut args: Vec<(String, Arg)> = Vec::new();
    args.push((String::from_str("token"), Arg::Str(token)));
    args.push((String::from_str("people_id"), Arg::Int(id)));
    args.push((String::from_str("data"), Arg::Json(person)));
    ProcedureCall { name: String::from_str("people_set"), args, not_found: not_found_outcome(404) }
}

/// `POST /roles` (token): create a role from the submitted JSON object.
pub fn roles_add(token: String, role: JsonValue) -> (c: ProcedureCall)
    ensures
        c.name@ == "roles_add"@,
        c.args@.len() == 2,
        token_first(c, token),
        is_arg(c.args@[1], "data"@, Arg::Json(role)),
        is_not_found(c.not_found, 404),
{
    let mut args: Vec<(String, Arg)> = Vec::new();
    args.push((String::from_str("token"), Arg::Str(token)));
    args.push((String::from_str("data"), Arg::Json(role)));
    ProcedureCall { name: String::from_str("roles_add"), args, not_found: not_found_outcome(404) }
}

/// `GET /roles` (token): list the roles this token may read.
pub fn roles_get(token: String) -> (c: ProcedureCall)
    ensures
        c.name@ == "roles_get"@,
        c.args@.len() == 1,
        token_first(c, token),
        is_not_found(c.not_found, 404),
{
    let mut args: Vec<(String, Arg)> = Vec::new();
    args.push((String::from_str("token"), Arg::Str(token)));
    ProcedureCall { name: String::from_str("roles_get"), args, not_found: not_found_outcome(404) }
}

/// `GET /roles/{id}` (token): fetch one role by id.
pub fn roles_get_i(token: String, id: i32) -> (c: ProcedureCall)
    ensures
        c.name@ == "roles_get"@,
        c.args@.len() == 2,
        token_first(c, token),
        is_arg(c.args@[1], "roles_id"@, Arg::Int(id)),
        is_not_found(c.not_found, 404),
{
    let mut args: Vec<(String, Arg)> = Vec::new();
    args.push((String::from_str("token"), Arg::Str(token)));
    args.push((String::from_str("roles_id"), Arg::Int(id)));
    ProcedureCall { name: String::from_str("roles_get"), args, not_found: not_found_outcome(404) }
}

/// `PUT /roles/{id}` (token): update one role from the submitted JSON
/// object.
pub fn roles_set(token: String, id: i32, role: JsonValue) -> (c: ProcedureCall)
    ensures
        c.name@ == "roles_set"@,
        c.args@.len() == 3,
        token_first(c, token),
        is_arg(c.args@[1], "roles_id"@, Arg::Int(id)),
        is_arg(c.args@[2], "data"@, Arg::Json(role)),
        is_not_found(c.not_found, 404),
{
    let mut args: Vec<(String, Arg)> = Vec::new();
    args.push((String::from_str("token"), Arg::Str(token)));
    args.push((String::from_str("roles_id"), Arg::Int(id)));
    args.push((String::from_str("data"), Arg::Json(role)));
    ProcedureCall { name: String::from_str("roles_set"), args, not_found: not_found_outcome(404) }
}

/// `GET /permissions` (token): list role-permission grants.
pub fn permissions_get(token: String) -> (c: ProcedureCall)
    ensures
        c.name@ == "roles_permissions_get"@,
        c.args@.len() == 1,
        token_first(c, token),
        is_not_found(c.not_found, 404),
{
    let mut args: Vec<(String, Arg)> = Vec::new();
    args.push((String::from_str("token"), Arg::Str(token)));
    ProcedureCall {
        name: String::from_str("roles_permissions_get"),
        args,
        not_found: not_found_outcome(404),
    }
}

/// `GET /fields` (token): list field metadata.
pub fn fields_get(token: String) -> (c: ProcedureCall)
    ensures
        c.name@ == "fields_get"@,
        c.args@.len() == 1,
        token_first(c, token),
        is_not_found(c.not_found, 404),
{
    let mut args: Vec<(String, Arg)> = Vec::new();
    args.push((String::from_str("token"), Arg::Str(token)));
    ProcedureCall { name: String::from_str("fields_get"), args, not_found: not_found_outcome(404) }
}

/// `GET /fields/{table}` (token): list field metadata for one table.
pub fn fields_get_i(token: String, table: String) -> (c: ProcedureCall)
    ensures
        c.name@ == "fields_get"@,
        c.args@.len() == 2,
        token_first(c, token),
        is_arg(c.args@[1], "ref_table"@, Arg::Str(table)),
        is_not_found(c.not_found, 404),
{
    let mut args: Vec<(String, Arg)> = Vec::new();
    args.push((String::from_str("token"), Arg::Str(token)));
    args.push((String::from_str("ref_table"), Arg::Str(table)));
    ProcedureCall { name: String::from_str("fields_get"), args, not_found: not_found_outcome(404) }
}

/// `PUT /fields`: a stub. It always answers 200 with the JSON value
/// `false`, whatever the request carried; it never touches the store.
pub fn fields_set() -> (resp: Response)
    ensures
        resp.status == 200,
        resp.body == Body::Json(JsonValue::Bool(false)),
{
    Response { status: 200, body: Body::Json(JsonValue::Bool(false)) }
}

/// `POST /password_forgot` (open): initiate a password reset; zero rows
/// answers 405.
pub fn password_forgot(forgot: PasswordForgot) -> (c: ProcedureCall)
    ensures
        c.name@ == "password_forgot"@,
        c.args@.len() == 1,
        is_arg(c.args@[0], "user_email"@, Arg::Str(forgot.email)),
        is_not_found(c.not_found, 405),
{
    let PasswordForgot { email } = forgot;
    let mut args: Vec<(String, Arg)> = Vec::new();
    args.push((String::from_str("user_email"), Arg::Str(email)));
    ProcedureCall {
        name: String::from_str("password_forgot"),
        args,
        not_found: not_found_outcome(405),
    }
}

/// `POST /password_reset` (open): complete a password reset; zero rows
/// answers 405.
pub fn password_reset(reset: PasswordReset) -> (c: ProcedureCall)
    ensures
        c.name@ == "password_reset"@,
        c.args@.len() == 2,
        is_arg(c.args@[0], "reset_token"@, Arg::Str(reset.token)),
        is_arg(c.args@[1], "new_password"@, Arg::Str(reset.password)),
        is_not_found(c.not_found, 405),
{
    let PasswordReset { token, password } = reset;
    let mut args: Vec<(String, Arg)> = Vec::new();
    args.push((String::from_str("reset_token"), Arg::Str(token)));
    args.push((String::from_str("new_password"), Arg::Str(password)));
    ProcedureCall {
        name: String::from_str("password_reset"),
        args,
        not_found: not_found_outcome(405),
    }
}

} // verus!
