use vstd::prelude::*;
use vstd::string::StrSliceExecFns;

verus! {

/// One header of the inbound request: a name and its value, both already
/// decoded to strings by the transport layer.
pub struct Header {
    pub name: String,
    pub value: String,
}

/// Case-insensitive equality of two header-name characters: equal outright,
/// or equal up to the ASCII upper/lower distance of 32.
pub open spec fn chars_eq_nocase(a: char, b: char) -> bool {
    let x = a as int;
    let y = b as int;
    ||| x == y
    ||| (65 <= x <= 90 && y == x + 32)
    ||| (65 <= y <= 90 && x == y + 32)
}

/// Header names match per the transport's semantics: same length, and each
/// character equal up to ASCII case.
pub open spec fn name_matches(a: Seq<char>, b: Seq<char>) -> bool {
    a.len() == b.len() && (forall|i: int| 0 <= i < a.len() ==> chars_eq_nocase(a[i], b[i]))
}

/// The value of the first header whose name matches `name`, or the empty
/// string when no header does.
pub open spec fn spec_get_header(headers: Seq<Header>, name: Seq<char>) -> Seq<char>
    decreases headers.len(),
{
    if headers.len() == 0 {
        Seq::empty()
    } else if name_matches(headers[0].name@, name) {
        headers[0].value@
    } else {
        spec_get_header(headers.skip(1), name)
    }
}

fn char_eq_nocase(a: char, b: char) -> (r: bool)
    ensures
        r == chars_eq_nocase(a, b),
{
    let x = a as u32;
    let y = b as u32;
    x == y || (65 <= x && x <= 90 && y == x + 32) || (65 <= y && y <= 90 && x == y + 32)
}

/// Whether two header names are the same up to ASCII case.
fn names_match(a: &str, b: &str) -> (r: bool)
    ensures
        r == name_matches(a@, b@),
{
    let alen = a.unicode_len();
    let blen = b.unicode_len();
    if alen != blen {
        return false;
    }
    let mut i: usize = 0;
    while i < alen
        invariant
            i <= alen,
            alen == a@.len(),
            alen == b@.len(),
            forall|j: int| 0 <= j < i ==> chars_eq_nocase(a@[j], b@[j]),
        decreases alen - i,
    {
        if !char_eq_nocase(a.get_char(i), b.get_char(i)) {
            return false;
        }
        i += 1;
    }
    true
}

/// The read-only capability object handed to the script for one request:
/// the connection's remote address and the request's headers. It exposes
/// nothing of the response being built.
pub struct LuaRequest {
    remote_addr: String,
    headers: Vec<Header>,
}

impl LuaRequest {
    /// The remote address the context was built with.
    pub closed spec fn spec_remote_addr(&self) -> Seq<char> {
        self.remote_addr@
    }

    /// The headers the context was built with, in request order.
    pub closed spec fn spec_headers(&self) -> Seq<Header> {
        self.headers@
    }

    /// Bind a request context to a connection's remote address and the
    /// request's headers.
    pub fn new(remote_addr: String, headers: Vec<Header>) -> (req: LuaRequest)
        ensures
            req.spec_remote_addr() == remote_addr@,
            req.spec_headers() == headers@,
    {
        LuaRequest { remote_addr, headers }
    }

    /// The literal string form of the connection's remote socket address.
    pub fn remote_addr(&self) -> (r: String)
        ensures
            r@ == self.spec_remote_addr(),
    {
        self.remote_addr.clone()
    }

    /// The value of the first header matching `name` up to ASCII case, or
    /// the empty string when the header is absent. Lookup never fails.
    pub fn get_header(&self, name: &str) -> (r: String)
        ensures
            r@ == spec_get_header(self.spec_headers(), name@),
    {
        let n = self.headers.len();
        proof {
            assert(self.headers@.skip(0) =~= self.headers@);
        }
        let mut i: usize = 0;
        while i < n
            invariant
                i <= n,
                n == self.headers@.len(),
                spec_get_header(self.headers@, name@) == spec_get_header(
                    self.headers@.skip(i as int),
                    name@,
                ),
            decreases n - i,
        {
            proof {
                assert(self.headers@.skip(i as int)[0] == self.headers@[i as int]);
            }
            if names_match(self.headers[i].name.as_str(), name) {
                return self.headers[i].value.clone();
            }
            proof {
                assert(self.headers@.skip(i as int).skip(1) =~= self.headers@.skip(i + 1));
            }
            i += 1;
        }
        String::new()
    }
}

/// What the host reads of a value the script produced: only the shapes the
/// response contract distinguishes. Anything else (tables, functions,
/// foreign values) is `Other`.
pub enum ScriptValue {
    Nil,
    Boolean(bool),
    Integer(i64),
    Bytes(Vec<u8>),
    Other,
}

/// Why a script's returned mapping could not be interpreted as a response.
#[derive(Debug)]
pub enum ResponseError {
    /// The mapping has no `body` field.
    MissingBody,
    /// The `body` field is not a string payload.
    InvalidBody,
    /// The `status` field is an integer outside the wire-status range.
    InvalidStatus,
}

/// The typed response distilled from the script's returned mapping: a wire
/// status and the body bytes. The response carries nothing else by design:
/// any further field of the returned mapping, such as a table of response
/// headers, is deliberately ignored rather than passed through.
pub struct ScriptResponse {
    pub status: u16,
    pub body: Vec<u8>,
}

impl ScriptResponse {
    /// A response is well formed when its status is a wire status.
    pub open spec fn wf(&self) -> bool {
        100 <= self.status <= 599
    }
}

/// The body bytes a `body` field yields, if it has the required shape.
pub open spec fn spec_body_of(body: ScriptValue) -> Option<Seq<u8>> {
    match body {
        ScriptValue::Bytes(b) => Some(b@),
        _ => None,
    }
}

/// The status a `status` field yields: 200 when the field is absent or of
/// an unexpected type, the integer itself when it is a wire status, and
/// nothing when it is an integer no response can carry.
pub open spec fn spec_status_of(status: ScriptValue) -> Option<u16> {
    match status {
        ScriptValue::Nil => Some(200u16),
        ScriptValue::Integer(s) => if 100 <= s <= 599 {
            Some(s as u16)
        } else {
            None
        },
        _ => Some(200u16),
    }
}

/// Whether a returned mapping's `body` and `status` fields conform to the
/// response contract.
pub open spec fn spec_conforms(body: ScriptValue, status: ScriptValue) -> bool {
    spec_body_of(body) is Some && spec_status_of(status) is Some
}

/// The strict conversion step from the script's loosely-typed return value
/// to a typed response: `body` is required and must be a string payload;
/// `status` defaults to 200 when absent or of an unexpected type. A field
/// of the wrong shape is a conversion failure, never a host crash.
pub fn convert_response(body: ScriptValue, status: ScriptValue) -> (r: Result<
    ScriptResponse,
    ResponseError,
>)
    ensures
        spec_conforms(body, status) ==> (r matches Ok(resp) && resp.wf() && Some(resp.body@)
            == spec_body_of(body) && Some(resp.status) == spec_status_of(status)),
        body is Nil ==> (r matches Err(e) && e is MissingBody),
        !(body is Nil) && spec_body_of(body) is None ==> (r matches Err(e) && e is InvalidBody),
        spec_body_of(body) is Some && spec_status_of(status) is None ==> (r matches Err(e)
            && e is InvalidStatus),
{
    let body_bytes: Vec<u8> = match body {
        ScriptValue::Bytes(b) => b,
        ScriptValue::Nil => {
            return Err(ResponseError::MissingBody);
        },
        _ => {
            return Err(ResponseError::InvalidBody);
        },
    };
    let status_code: u16 = match status {
        ScriptValue::Nil => 200,
        ScriptValue::Integer(s) => {
            if 100 <= s && s <= 599 {
                s as u16
            } else {
                return Err(ResponseError::InvalidStatus);
            }
        },
        _ => 200,
    };
    Ok(ScriptResponse { status: status_code, body: body_bytes })
}

/// How one script invocation ended, as the runtime reports it back to the
/// handler: either the call failed outright (entry point missing, an error
/// raised during the call, or a return value that is not a mapping), or it
/// returned a mapping whose `body` and `status` fields were read out.
pub enum ScriptOutcome {
    Failed,
    Returned { body: ScriptValue, status: ScriptValue },
}

/// The bytes of the generic error body a failed request is answered with.
pub open spec fn spec_error_body() -> Seq<u8> {
    seq![73u8, 110u8, 116u8, 101u8, 110u8, 97u8, 108u8, 32u8, 69u8, 114u8, 114u8, 111u8, 114u8]
}

/// The status the handler answers a given outcome with: the script's own
/// (defaulted) status when the returned mapping conforms, and 500 for
/// every failure.
pub open spec fn spec_response_status(outcome: ScriptOutcome) -> int {
    match outcome {
        ScriptOutcome::Failed => 500,
        ScriptOutcome::Returned { body, status } => if spec_conforms(body, status) {
            spec_status_of(status).unwrap() as int
        } else {
            500
        },
    }
}

/// The body the handler answers a given outcome with: the script's body
/// bytes when the returned mapping conforms, and the generic error body
/// for every failure.
pub open spec fn spec_response_body(outcome: ScriptOutcome) -> Seq<u8> {
    match outcome {
        ScriptOutcome::Failed => spec_error_body(),
        ScriptOutcome::Returned { body, status } => if spec_conforms(body, status) {
            spec_body_of(body).unwrap()
        } else {
            spec_error_body()
        },
    }
}

fn error_body() -> (v: Vec<u8>)
    ensures
        v@ == spec_error_body(),
{
    let v: Vec<u8> = vec![73u8, 110, 116, 101, 110, 97, 108, 32, 69, 114, 114, 111, 114];
    proof {
        assert(v@ =~= spec_error_body());
    }
    v
}

/// The per-connection request handler, bound to the remote address of the
/// connection it serves. Connections share only the script runtime, never
/// mutable state, so the handler itself carries nothing but the address.
#[derive(Clone)]
pub struct LuaSvr {
    remote_addr: String,
}

impl View for LuaSvr {
    type V = Seq<char>;

    closed spec fn view(&self) -> Seq<char> {
        self.remote_addr@
    }
}

impl LuaSvr {
    /// Bind a handler to one connection's remote address.
    pub fn new(remote_addr: String) -> (s: LuaSvr)
        ensures
            s@ == remote_addr@,
    {
        LuaSvr { remote_addr }
    }

    /// The request context handed to the script for one inbound request on
    /// this connection: the handler's remote address and the request's
    /// headers.
    pub fn make_context(&self, headers: Vec<Header>) -> (req: LuaRequest)
        ensures
            req.spec_remote_addr() == self@,
            req.spec_headers() == headers@,
    {
        LuaRequest::new(self.remote_addr.clone(), headers)
    }

    /// Turn how the script call ended into the outbound response. A failure
    /// never escapes: every non-conforming or failed outcome becomes a 500
    /// with the generic error body, and the handler stays ready for the
    /// next request.
    pub fn call(&self, outcome: ScriptOutcome) -> (r: ScriptResponse)
        ensures
            r.wf(),
            r.status as int == spec_response_status(outcome),
            r.body@ == spec_response_body(outcome),
    {
        match outcome {
            ScriptOutcome::Failed => ScriptResponse { status: 500, body: error_body() },
            ScriptOutcome::Returned { body, status } => match convert_response(body, status) {
                Ok(resp) => resp,
                Err(_) => ScriptResponse { status: 500, body: error_body() },
            },
        }
    }
}

/// The connection factory: invoked once per accepted connection, it binds
/// a fresh handler to that connection's remote address. All handlers share
/// only the script runtime, which lives outside the factory.
pub struct MakeLuaSvr {}

impl MakeLuaSvr {
    /// A factory for per-connection handlers.
    pub fn new() -> MakeLuaSvr {
        MakeLuaSvr {}
    }

    /// Produce the handler for one accepted connection.
    pub fn call(&self, remote_addr: String) -> (s: LuaSvr)
        ensures
            s@ == remote_addr@,
    {
        LuaSvr::new(remote_addr)
    }
}

/// When some header matches, the lookup returns the value of the first
/// matching header, exactly as the client sent it: if `headers[i]` matches
/// `name` and no earlier header does, the lookup yields `headers[i].value`.
pub proof fn lemma_get_header_present(headers: Seq<Header>, name: Seq<char>, i: int)
    requires
        0 <= i < headers.len(),
        name_matches(headers[i].name@, name),
        forall|j: int| 0 <= j < i ==> !name_matches(#[trigger] headers[j].name@, name),
    ensures
        spec_get_header(headers, name) == headers[i].value@,
    decreases i,
{
    if i == 0 {
    } else {
        assert(!name_matches(headers[0].name@, name));
        let rest = headers.skip(1);
        assert(rest[i - 1] == headers[i]);
        assert forall|j: int| 0 <= j < i - 1 implies !name_matches(
            #[trigger] rest[j].name@,
            name,
        ) by {
            assert(rest[j] == headers[j + 1]);
        }
        lemma_get_header_present(rest, name, i - 1);
    }
}

/// When no header matches, the lookup returns the empty string rather than
/// failing.
pub proof fn lemma_get_header_absent(headers: Seq<Header>, name: Seq<char>)
    requires
        forall|j: int| 0 <= j < headers.len() ==> !name_matches(#[trigger] headers[j].name@, name),
    ensures
        spec_get_header(headers, name) == Seq::<char>::empty(),
    decreases headers.len(),
{
    if headers.len() > 0 {
        let rest = headers.skip(1);
        assert forall|j: int| 0 <= j < rest.len() implies !name_matches(
            #[trigger] rest[j].name@,
            name,
        ) by {
            assert(rest[j] == headers[j + 1]);
        }
        lemma_get_header_absent(rest, name);
    }
}

/// The responses a handler gives to a batch of outcomes, pointwise: the
/// status and body for each.
pub open spec fn spec_responses(outcomes: Seq<ScriptOutcome>) -> Seq<(int, Seq<u8>)> {
    outcomes.map_values(
        |o: ScriptOutcome| (spec_response_status(o), spec_response_body(o)),
    )
}

/// Responses never bleed between requests: in any batch of outstanding
/// requests, each one's response is determined by its own outcome alone,
/// whatever else is in flight and in whatever order the calls complete.
pub proof fn lemma_no_response_bleed(outcomes: Seq<ScriptOutcome>, i: int)
    requires
        0 <= i < outcomes.len(),
    ensures
        spec_responses(outcomes)[i] == (
            spec_response_status(outcomes[i]),
            spec_response_body(outcomes[i]),
        ),
{
}

/// A failed script call is answered with status 500, and a later
/// conforming call through the same handler is answered with its own
/// status and body: one request's failure does not carry into the next.
pub proof fn lemma_failure_isolated(failed: ScriptOutcome, later: ScriptOutcome)
    requires
        failed is Failed,
        later matches ScriptOutcome::Returned { body, status } && spec_conforms(body, status),
    ensures
        spec_response_status(failed) == 500,
        spec_response_body(failed) == spec_error_body(),
        spec_response_status(later) == spec_status_of(later->status).unwrap() as int,
        spec_response_body(later) == spec_body_of(later->body).unwrap(),
{
}

} // verus!
