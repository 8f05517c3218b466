use vstd::prelude::*;

use crate::model::{ApiError, InverterCommand};
use crate::signing::{sign_request, SignedHeaders, MAX_HTTP_DATE_MILLIS};

verus! {

/// A lower-case hexadecimal digit.
pub open spec fn hex_digit(n: int) -> char {
    "0123456789abcdef"@[n]
}

/// One character inside a JSON string: quote and backslash escaped, the control
/// characters by their short escape or as `\u00XX`, all others as they are.
pub open spec fn json_escape_char(c: char) -> Seq<char> {
    if c == '"' {
        seq!['\\', '"']
    } else if c == '\\' {
        seq!['\\', '\\']
    } else if c == '\u{8}' {
        seq!['\\', 'b']
    } else if c == '\t' {
        seq!['\\', 't']
    } else if c == '\n' {
        seq!['\\', 'n']
    } else if c == '\u{c}' {
        seq!['\\', 'f']
    } else if c == '\r' {
        seq!['\\', 'r']
    } else if (c as u32) < 0x20 {
        seq!['\\', 'u', '0', '0'].push(hex_digit(((c as u32) / 16) as int)).push(
            hex_digit(((c as u32) % 16) as int),
        )
    } else {
        seq![c]
    }
}

/// The escaped characters of a text.
pub open spec fn json_escape(text: Seq<char>) -> Seq<char>
    decreases text.len(),
{
    if text.len() == 0 {
        Seq::empty()
    } else {
        json_escape(text.drop_last()) + json_escape_char(text.last())
    }
}

/// A text as a JSON string literal, quoted and escaped.
pub open spec fn json_string_of(text: Seq<char>) -> Seq<char> {
    seq!['"'] + json_escape(text) + seq!['"']
}

/// Relies on serde_json's `Display` of `Value::String`, which writes the text
/// between quotes with `format_escaped_str_contents`: its `ESCAPE` table escapes
/// `"`, `\\` and the characters below U+0020, and no others.
#[verifier::external_body]
fn json_string(text: &str) -> (r: String)
    ensures
        r@ == json_string_of(text@),
{
    serde_json::Value::String(text.to_string()).to_string()
}

/// Whether two texts hold the same characters.
pub fn text_eq(a: &str, b: &str) -> (r: bool)
    ensures
        r == (a@ == b@),
{
    let n = a.unicode_len();
    if n != b.unicode_len() {
        return false;
    }
    let mut i: usize = 0;
    while i < n
        invariant
            n == a@.len(),
            n == b@.len(),
            i <= n,
            a@.subrange(0, i as int) == b@.subrange(0, i as int),
        decreases n - i,
    {
        if a.get_char(i) != b.get_char(i) {
            assert(a@[i as int] != b@[i as int]);
            return false;
        }
        assert(a@.subrange(0, i + 1) == a@.subrange(0, i as int).push(a@[i as int]));
        assert(b@.subrange(0, i + 1) == b@.subrange(0, i as int).push(b@[i as int]));
        i = i + 1;
    }
    assert(a@ == a@.subrange(0, n as int));
    assert(b@ == b@.subrange(0, n as int));
    true
}

pub open spec fn inverter_list_path() -> Seq<char> {
    "/v1/api/inverterList"@
}

pub open spec fn inverter_detail_path() -> Seq<char> {
    "/v1/api/inverterDetail"@
}

pub open spec fn parameter_read_path() -> Seq<char> {
    "/v2/api/atRead"@
}

pub open spec fn parameter_write_path() -> Seq<char> {
    "/v2/api/control"@
}

/// The first page of ten entries of the inverter list.
pub open spec fn inverter_list_body_of() -> Seq<char> {
    "{\"pageNo\":1,\"pageSize\":10}"@
}

pub open spec fn inverter_detail_body_of(sn: Seq<char>) -> Seq<char> {
    "{\"sn\":"@ + json_string_of(sn) + "}"@
}

/// The command identifier in decimal.
pub open spec fn command_text_of(cid: InverterCommand) -> Seq<char> {
    match cid {
        InverterCommand::Time => "56"@,
        InverterCommand::AllowGridCharging => "109"@,
    }
}

pub open spec fn parameter_read_body_of(sn: Seq<char>, cid: InverterCommand) -> Seq<char> {
    "{\"inverterSn\":"@ + json_string_of(sn) + ",\"cid\":"@ + command_text_of(cid) + "}"@
}

pub open spec fn parameter_write_body_of(
    sn: Seq<char>,
    cid: InverterCommand,
    value: Seq<char>,
    yuanzhi: Seq<char>,
) -> Seq<char> {
    "{\"inverterSn\":"@ + json_string_of(sn) + ",\"cid\":"@ + command_text_of(cid)
        + ",\"value\":"@ + json_string_of(value) + ",\"yuanzhi\":"@ + json_string_of(yuanzhi)
        + "}"@
}

pub fn inverter_list_body() -> (r: String)
    ensures
        r@ == inverter_list_body_of(),
{
    <String as StringExecFns>::from_str("{\"pageNo\":1,\"pageSize\":10}")
}

pub fn inverter_detail_body(sn: &str) -> (r: String)
    ensures
        r@ == inverter_detail_body_of(sn@),
{
    let mut s = <String as StringExecFns>::from_str("{\"sn\":");
    let q = json_string(sn);
    s.append(q.as_str());
    s.append("}");
    s
}

pub fn command_text(cid: InverterCommand) -> (r: &'static str)
    ensures
        r@ == command_text_of(cid),
{
    match cid {
        InverterCommand::Time => "56",
        InverterCommand::AllowGridCharging => "109",
    }
}

pub fn parameter_read_body(sn: &str, cid: InverterCommand) -> (r: String)
    ensures
        r@ == parameter_read_body_of(sn@, cid),
{
    let mut s = <String as StringExecFns>::from_str("{\"inverterSn\":");
    let q = json_string(sn);
    s.append(q.as_str());
    s.append(",\"cid\":");
    s.append(command_text(cid));
    s.append("}");
    s
}

pub fn parameter_write_body(sn: &str, cid: InverterCommand, value: &str, yuanzhi: &str) -> (r:
    String)
    ensures
        r@ == parameter_write_body_of(sn@, cid, value@, yuanzhi@),
{
    let mut s = <String as StringExecFns>::from_str("{\"inverterSn\":");
    let q = json_string(sn);
    s.append(q.as_str());
    s.append(",\"cid\":");
    s.append(command_text(cid));
    s.append(",\"value\":");
    let v = json_string(value);
    s.append(v.as_str());
    s.append(",\"yuanzhi\":");
    let y = json_string(yuanzhi);
    s.append(y.as_str());
    s.append("}");
    s
}


/// The outcome of a response envelope: a code other than `"0"` is the vendor's
/// error, with its message or `unknown error`.
pub open spec fn envelope_ok(code: Seq<char>) -> bool {
    code == "0"@
}

/// The message of a vendor error: its own, or `unknown error`.
pub open spec fn remote_message_of(msg: Option<String>) -> Seq<char> {
    match msg {
        Some(m) => m@,
        None => "unknown error"@,
    }
}

/// Checks the status code of a response envelope.
pub fn check_envelope_code(code: &str, msg: Option<String>) -> (r: Result<(), ApiError>)
    ensures
        envelope_ok(code@) ==> r is Ok,
        !envelope_ok(code@) ==> (r matches Err(ApiError::RemoteApi(m)) && m@
            == remote_message_of(msg)),
{
    if text_eq(code, "0") {
        Ok(())
    } else {
        match msg {
            Some(m) => Err(ApiError::RemoteApi(m)),
            None => Err(ApiError::RemoteApi(<String as StringExecFns>::from_str("unknown error"))),
        }
    }
}

/// Unwraps the payload of a response envelope; a success without payload is a
/// malformed response.
pub fn decode_envelope<T>(code: &str, msg: Option<String>, data: Option<T>) -> (r: Result<
    T,
    ApiError,
>)
    ensures
        envelope_ok(code@) && data is Some ==> r == Ok::<T, ApiError>(data->Some_0),
        envelope_ok(code@) && data is None ==> r matches Err(ApiError::Transport(_)),
        !envelope_ok(code@) ==> (r matches Err(ApiError::RemoteApi(m)) && m@
            == remote_message_of(msg)),
{
    match check_envelope_code(code, msg) {
        Err(e) => Err(e),
        Ok(()) => match data {
            Some(d) => Ok(d),
            None => Err(ApiError::Transport("response without data".to_string())),
        },
    }
}

/// Reads `true` or `false`, as `str::parse::<bool>` does.
pub fn parse_bool_text(text: &str) -> (r: Option<bool>)
    ensures
        r == (if text@ == "true"@ {
            Some(true)
        } else if text@ == "false"@ {
            Some(false)
        } else {
            None::<bool>
        }),
{
    if text_eq(text, "true") {
        Some(true)
    } else if text_eq(text, "false") {
        Some(false)
    } else {
        None
    }
}

/// The answer to a parameter read: the current value as text, and the token
/// that the write which follows must carry.
#[derive(Debug, Clone)]
pub struct ParameterValue {
    pub msg: String,
    pub yuanzhi: String,
}

/// Checks the payload of a parameter read; `need_loop` is the vendor's
/// `"true"`/`"false"` text.
pub fn check_parameter_value(msg: String, yuanzhi: String, need_loop: &str) -> (r: Result<
    ParameterValue,
    ApiError,
>)
    ensures
        need_loop@ == "false"@ ==> (r matches Ok(pv) && pv.msg == msg && pv.yuanzhi == yuanzhi),
        need_loop@ == "true"@ ==> r == Err::<ParameterValue, ApiError>(
            ApiError::UnsupportedResponseShape,
        ),
        need_loop@ != "true"@ && need_loop@ != "false"@ ==> r matches Err(ApiError::Transport(_)),
{
    proof {
        reveal_strlit("true");
        reveal_strlit("false");
        assert("true"@[0] != "false"@[0]);
    }
    match parse_bool_text(need_loop) {
        Some(false) => Ok(ParameterValue { msg, yuanzhi }),
        Some(true) => Err(ApiError::UnsupportedResponseShape),
        None => Err(ApiError::Transport("needLoop is not a boolean".to_string())),
    }
}

/// The write that brings the parameter to `desired`: none where it already
/// holds that text, else one carrying the token of the read.
pub open spec fn update_plan(
    sn: Seq<char>,
    cid: InverterCommand,
    desired: Seq<char>,
    current: ParameterValue,
) -> Option<Seq<char>> {
    if current.msg@ == desired {
        None
    } else {
        Some(parameter_write_body_of(sn, cid, desired, current.yuanzhi@))
    }
}

/// With the remote value equal to the desired one no write is made; otherwise
/// exactly one write is made, and it carries the token of the preceding read.
pub proof fn lemma_update_writes_only_on_mismatch(
    sn: Seq<char>,
    cid: InverterCommand,
    desired: Seq<char>,
    current: ParameterValue,
)
    ensures
        current.msg@ == desired <==> update_plan(sn, cid, desired, current) is None,
        current.msg@ != desired ==> update_plan(sn, cid, desired, current) == Some(
            parameter_write_body_of(sn, cid, desired, current.yuanzhi@),
        ),
{
}

/// A signed request, ready to be sent as an HTTP POST.
#[derive(Debug, Clone)]
pub struct PreparedRequest {
    pub url: String,
    pub body: String,
    pub headers: SignedHeaders,
}

/// The vendor API endpoint and its credentials.
#[derive(Debug, Clone)]
pub struct SolisApi {
    pub base_url: String,
    pub api_key_id: String,
    pub api_key_secret: String,
}

impl SolisApi {
    pub fn new(base_url: String, api_key_id: String, api_key_secret: String) -> (r: Self)
        ensures
            r.base_url == base_url,
            r.api_key_id == api_key_id,
            r.api_key_secret == api_key_secret,
    {
        SolisApi { base_url, api_key_id, api_key_secret }
    }

    /// The request that posts `body` to `path`, signed at `now_millis`.
    pub open spec fn prepared(
        self,
        req: PreparedRequest,
        path: Seq<char>,
        body: Seq<char>,
        now_millis: i64,
    ) -> bool {
        &&& req.url@ == self.base_url@ + path
        &&& req.body@ == body
        &&& req.headers.signs(
            self.api_key_id@,
            self.api_key_secret@,
            path,
            body,
            crate::signing::http_date_of(now_millis),
        )
    }

    /// Builds the signed request; succeeds from the epoch to the end of the year
    /// 9999.
    pub fn request(&self, path: &str, body: String, now_millis: i64) -> (r: Result<
        PreparedRequest,
        ApiError,
    >)
        ensures
            r matches Ok(req) ==> self.prepared(req, path@, body@, now_millis),
            0 <= now_millis <= MAX_HTTP_DATE_MILLIS ==> r is Ok,
            r matches Err(e) ==> e is Transport,
    {
        match sign_request(
            self.api_key_id.as_str(),
            self.api_key_secret.as_str(),
            path,
            body.as_str(),
            now_millis,
        ) {
            Some(headers) => {
                let url = self.base_url.clone().concat(path);
                Ok(PreparedRequest { url, body, headers })
            },
            None => Err(ApiError::Transport("timestamp out of range".to_string())),
        }
    }

    pub fn get_inverters_request(&self, now_millis: i64) -> (r: Result<PreparedRequest, ApiError>)
        ensures
            r matches Ok(req) ==> self.prepared(
                req,
                inverter_list_path(),
                inverter_list_body_of(),
                now_millis,
            ),
            0 <= now_millis <= MAX_HTTP_DATE_MILLIS ==> r is Ok,
            r matches Err(e) ==> e is Transport,
    {
        self.request("/v1/api/inverterList", inverter_list_body(), now_millis)
    }

    pub fn get_inverter_detail_request(&self, inverter_sn: &str, now_millis: i64) -> (r: Result<
        PreparedRequest,
        ApiError,
    >)
        ensures
            r matches Ok(req) ==> self.prepared(
                req,
                inverter_detail_path(),
                inverter_detail_body_of(inverter_sn@),
                now_millis,
            ),
            0 <= now_millis <= MAX_HTTP_DATE_MILLIS ==> r is Ok,
            r matches Err(e) ==> e is Transport,
    {
        self.request("/v1/api/inverterDetail", inverter_detail_body(inverter_sn), now_millis)
    }

    pub fn get_parameter_value_request(
        &self,
        inverter_sn: &str,
        cid: InverterCommand,
        now_millis: i64,
    ) -> (r: Result<PreparedRequest, ApiError>)
        ensures
            r matches Ok(req) ==> self.prepared(
                req,
                parameter_read_path(),
                parameter_read_body_of(inverter_sn@, cid),
                now_millis,
            ),
            0 <= now_millis <= MAX_HTTP_DATE_MILLIS ==> r is Ok,
            r matches Err(e) ==> e is Transport,
    {
        self.request("/v2/api/atRead", parameter_read_body(inverter_sn, cid), now_millis)
    }

    pub fn set_parameter_value_request(
        &self,
        inverter_sn: &str,
        cid: InverterCommand,
        value: &str,
        yuanzhi: &str,
        now_millis: i64,
    ) -> (r: Result<PreparedRequest, ApiError>)
        ensures
            r matches Ok(req) ==> self.prepared(
                req,
                parameter_write_path(),
                parameter_write_body_of(inverter_sn@, cid, value@, yuanzhi@),
                now_millis,
            ),
            0 <= now_millis <= MAX_HTTP_DATE_MILLIS ==> r is Ok,
            r matches Err(e) ==> e is Transport,
    {
        self.request(
            "/v2/api/control",
            parameter_write_body(inverter_sn, cid, value, yuanzhi),
            now_millis,
        )
    }
    /// The second half of a conditional update: `Ok(None)` where the value read
    /// already equals `value`, else the write request with the read's token.
    pub fn update_parameter_value_request(
        &self,
        inverter_sn: &str,
        cid: InverterCommand,
        value: &str,
        current: &ParameterValue,
        now_millis: i64,
    ) -> (r: Result<Option<PreparedRequest>, ApiError>)
        ensures
            r matches Ok(None) <==> update_plan(inverter_sn@, cid, value@, *current) is None,
            r matches Ok(Some(req)) ==> update_plan(inverter_sn@, cid, value@, *current) == Some(
                req.body@,
            ) && self.prepared(req, parameter_write_path(), req.body@, now_millis),
            current.msg@ != value@ && 0 <= now_millis <= MAX_HTTP_DATE_MILLIS ==> r matches Ok(
                Some(_),
            ),
            r matches Err(e) ==> e is Transport && current.msg@ != value@,
    {
        if text_eq(current.msg.as_str(), value) {
            Ok(None)
        } else {
            match self.set_parameter_value_request(
                inverter_sn,
                cid,
                value,
                current.yuanzhi.as_str(),
                now_millis,
            ) {
                Ok(req) => Ok(Some(req)),
                Err(e) => Err(e),
            }
        }
    }
}

} // verus!
