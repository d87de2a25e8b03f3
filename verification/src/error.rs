//! How a refused request is answered: the status and the message of an error response.
use vstd::prelude::*;

verus! {

broadcast use vstd::string::group_string_axioms;

/// The HTTP status of a response that the service gives.
#[derive(PartialEq, Eq, Structural, Clone, Copy, Debug)]
pub enum StatusCode {
    Success,
    BadRequest,
    InternalServerError,
}

impl StatusCode {
    /// The status code's number.
    pub open spec fn code(self) -> u16 {
        match self {
            StatusCode::Success => 200,
            StatusCode::BadRequest => 400,
            StatusCode::InternalServerError => 500,
        }
    }

    /// The status code's number: 200, 400 or 500.
    pub fn as_u16(&self) -> (code: u16)
        ensures
            code == self.code(),
    {
        match self {
            StatusCode::Success => 200,
            StatusCode::BadRequest => 400,
            StatusCode::InternalServerError => 500,
        }
    }
}

/// Why a JSON request body was refused, as the body extractor reports it.
///
/// The two deserialization errors carry the source chain of the error: one entry for
/// the error itself and one for each of its sources in turn, holding the text of that
/// error where it is a JSON (de)serialization error, and nothing otherwise.
#[derive(Debug)]
pub enum JsonRejection {
    /// The body is well-formed JSON that does not fit the expected type.
    JsonDataError(Vec<Option<String>>),
    /// The body is not well-formed JSON.
    JsonSyntaxError(Vec<Option<String>>),
    /// The request has no `Content-Type: application/json` header.
    MissingJsonContentType,
    /// The body could not be read.
    BytesRejection,
    /// Any other refusal of the extractor.
    Other,
}

/// The errors that a request handler answers with an error response.
#[derive(Debug)]
pub enum AppError {
    /// The JSON body of the request was refused.
    JsonParsing(JsonRejection),
    /// The database refused a statement for a reason that the handler does not expect.
    /// It is answered with 500 and "Internal server error": that answer is this
    /// library's choice, since the handler that it serves names no conversion of a
    /// database error into a response.
    Database,
}

impl From<JsonRejection> for AppError {
    fn from(inner: JsonRejection) -> (error: AppError)
        ensures
            error == AppError::JsonParsing(inner),
    {
        AppError::JsonParsing(inner)
    }
}

impl vstd::std_specs::convert::FromSpecImpl<JsonRejection> for AppError {
    open spec fn obeys_from_spec() -> bool {
        true
    }

    open spec fn from_spec(v: JsonRejection) -> AppError {
        AppError::JsonParsing(v)
    }
}

/// The first entry of a source chain that holds a value: the error closest to the
/// start of the chain that has the type searched for.
pub open spec fn first_found<T>(chain: Seq<Option<T>>) -> Option<T>
    decreases chain.len(),
{
    if chain.len() == 0 {
        None
    } else if chain[0] is Some {
        chain[0]
    } else {
        first_found(chain.drop_first())
    }
}

/// Walks the source chain of an error, the error itself first, and gives the first
/// error that has the type searched for: each entry of `chain` is what the attempt to
/// take that error as the type gave.
pub fn find_error_source<T>(chain: &Vec<Option<T>>) -> (found: Option<&T>)
    ensures
        found matches Some(e) ==> first_found(chain@) == Some(*e),
        found is None <==> first_found(chain@) is None,
{
    let mut i: usize = 0;
    assert(chain@.skip(0) =~= chain@);
    while i < chain.len()
        invariant
            i <= chain.len(),
            first_found(chain@) == first_found(chain@.skip(i as int)),
        decreases chain.len() - i,
    {
        match &chain[i] {
            Some(e) => {
                return Some(e);
            },
            None => {},
        }
        assert(chain@.skip(i as int).drop_first() =~= chain@.skip(i + 1));
        i = i + 1;
    }
    assert(chain@.skip(i as int) =~= Seq::<Option<T>>::empty());
    None
}

/// The message of a refused JSON body whose error has the source chain `chain`.
pub open spec fn chain_message(chain: Seq<Option<String>>) -> Seq<char> {
    match first_found(chain) {
        Some(message) => message@,
        None => "Unknown error"@,
    }
}

/// The search of a source chain gives the earliest error of the type searched for, and
/// nothing only where no error of the chain has that type.
pub proof fn law_search_finds_earliest<T>(chain: Seq<Option<T>>)
    ensures
        first_found(chain) matches Some(e) ==> exists|i: int|
            0 <= i < chain.len() && chain[i] == Some(e) && forall|j: int|
                0 <= j < i ==> #[trigger] chain[j] is None,
        first_found(chain) is None ==> forall|j: int| 0 <= j < chain.len() ==> #[trigger] chain[j] is None,
    decreases chain.len(),
{
    if chain.len() > 0 && chain[0] is None {
        let rest = chain.drop_first();
        law_search_finds_earliest(rest);
        if let Some(e) = first_found(rest) {
            let i = choose|i: int|
                0 <= i < rest.len() && rest[i] == Some(e) && forall|j: int|
                    0 <= j < i ==> #[trigger] rest[j] is None;
            assert(chain[i + 1] == Some(e));
            assert forall|j: int| 0 <= j < i + 1 implies #[trigger] chain[j] is None by {
                if j > 0 {
                    assert(chain[j] == rest[j - 1]);
                }
            }
        } else {
            assert forall|j: int| 0 <= j < chain.len() implies #[trigger] chain[j] is None by {
                if j > 0 {
                    assert(chain[j] == rest[j - 1]);
                }
            }
        }
    } else if chain.len() > 0 {
        assert(chain[0] == first_found(chain));
    }
}

/// A JSON body that is malformed, or that does not fit the expected type, is answered
/// with 400 Bad Request, whatever its error's source chain holds.
pub proof fn law_refused_json_content_is_bad_request(chain: Vec<Option<String>>)
    ensures
        app_error_response(AppError::JsonParsing(JsonRejection::JsonDataError(chain))).0
            == StatusCode::BadRequest,
        app_error_response(AppError::JsonParsing(JsonRejection::JsonSyntaxError(chain))).0
            == StatusCode::BadRequest,
{
}

/// An entry that holds a value, with nothing before it, is what the search finds.
proof fn lemma_search_reaches(chain: Seq<Option<String>>, i: int, m: String)
    requires
        0 <= i < chain.len(),
        chain[i] == Some(m),
        forall|j: int| 0 <= j < i ==> #[trigger] chain[j] is None,
    ensures
        first_found(chain) == Some(m),
    decreases i,
{
    if i > 0 {
        let rest = chain.drop_first();
        assert forall|j: int| 0 <= j < i - 1 implies #[trigger] rest[j] is None by {
            assert(rest[j] == chain[j + 1]);
        }
        assert(chain[0] is None);
        lemma_search_reaches(rest, i - 1, m);
    }
}

/// With no entry holding a value, the search finds nothing.
proof fn lemma_search_finds_nothing(chain: Seq<Option<String>>)
    requires
        forall|j: int| 0 <= j < chain.len() ==> #[trigger] chain[j] is None,
    ensures
        first_found(chain) is None,
    decreases chain.len(),
{
    if chain.len() > 0 {
        let rest = chain.drop_first();
        assert forall|j: int| 0 <= j < rest.len() implies #[trigger] rest[j] is None by {
            assert(rest[j] == chain[j + 1]);
        }
        lemma_search_finds_nothing(rest);
    }
}

/// A JSON body that is malformed, or that does not fit the expected type, is answered
/// with 400 and the text of the first JSON error of its error's source chain, however
/// deep in the chain that error is; and with "Unknown error" where the chain holds none.
pub proof fn law_refused_json_message_is_first_json_error(
    chain: Vec<Option<String>>,
    i: int,
    m: String,
)
    requires
        0 <= i < chain@.len(),
        chain@[i] == Some(m),
        forall|j: int| 0 <= j < i ==> #[trigger] chain@[j] is None,
    ensures
        json_error_response(JsonRejection::JsonDataError(chain)) == (StatusCode::BadRequest, m@),
        json_error_response(JsonRejection::JsonSyntaxError(chain)) == (
            StatusCode::BadRequest,
            m@,
        ),
        app_error_response(AppError::JsonParsing(JsonRejection::JsonDataError(chain))) == (
            StatusCode::BadRequest,
            m@,
        ),
        app_error_response(AppError::JsonParsing(JsonRejection::JsonSyntaxError(chain))) == (
            StatusCode::BadRequest,
            m@,
        ),
{
    lemma_search_reaches(chain@, i, m);
}

/// A refused JSON body whose error's source chain holds no JSON error is answered with
/// 400 and "Unknown error".
pub proof fn law_refused_json_without_json_error_is_unknown(chain: Vec<Option<String>>)
    requires
        forall|j: int| 0 <= j < chain@.len() ==> #[trigger] chain@[j] is None,
    ensures
        json_error_response(JsonRejection::JsonDataError(chain)) == (
            StatusCode::BadRequest,
            "Unknown error"@,
        ),
        json_error_response(JsonRejection::JsonSyntaxError(chain)) == (
            StatusCode::BadRequest,
            "Unknown error"@,
        ),
{
    lemma_search_finds_nothing(chain@);
}

/// An error of a refused JSON body is answered as the refusal itself is.
pub proof fn law_json_parsing_error_answers_as_its_rejection(rejection: JsonRejection)
    ensures
        app_error_response(AppError::JsonParsing(rejection)) == json_error_response(rejection),
{
}

/// The status and message that answer a refused JSON body.
pub open spec fn json_error_response(rejection: JsonRejection) -> (StatusCode, Seq<char>) {
    match rejection {
        JsonRejection::JsonDataError(chain) => (StatusCode::BadRequest, chain_message(chain@)),
        JsonRejection::JsonSyntaxError(chain) => (StatusCode::BadRequest, chain_message(chain@)),
        JsonRejection::MissingJsonContentType => (
            StatusCode::BadRequest,
            "Missing `Content-Type: application/json` header"@,
        ),
        JsonRejection::BytesRejection => (
            StatusCode::InternalServerError,
            "Failed to buffer request body"@,
        ),
        JsonRejection::Other => (StatusCode::InternalServerError, "Unknown error"@),
    }
}

/// Answers a JSON body that could not be deserialized: with the text of the JSON error
/// in its source chain where there is one, and "Unknown error" otherwise.
fn serde_json_error_response(chain: &Vec<Option<String>>) -> (response: (StatusCode, String))
    ensures
        response.0 == StatusCode::BadRequest,
        response.1@ == chain_message(chain@),
{
    match find_error_source(chain) {
        Some(message) => (StatusCode::BadRequest, message.clone()),
        None => (StatusCode::BadRequest, "Unknown error".to_string()),
    }
}

/// The status and the message that answer a refused JSON body.
pub fn handle_json_error(err: JsonRejection) -> (response: (StatusCode, String))
    ensures
        response.0 == json_error_response(err).0,
        response.1@ == json_error_response(err).1,
{
    match err {
        JsonRejection::JsonDataError(chain) => serde_json_error_response(&chain),
        JsonRejection::JsonSyntaxError(chain) => serde_json_error_response(&chain),
        JsonRejection::MissingJsonContentType => (
            StatusCode::BadRequest,
            "Missing `Content-Type: application/json` header".to_string(),
        ),
        JsonRejection::BytesRejection => (
            StatusCode::InternalServerError,
            "Failed to buffer request body".to_string(),
        ),
        JsonRejection::Other => (StatusCode::InternalServerError, "Unknown error".to_string()),
    }
}

/// The status and message that answer an error of a request handler.
pub open spec fn app_error_response(error: AppError) -> (StatusCode, Seq<char>) {
    match error {
        AppError::JsonParsing(rejection) => json_error_response(rejection),
        AppError::Database => (StatusCode::InternalServerError, "Internal server error"@),
    }
}

/// The hexadecimal digit of `n`, in lower case, for `0 <= n < 16`.
pub open spec fn hex_digit(n: int) -> char {
    if n < 10 {
        (('0' as int) + n) as char
    } else {
        (('a' as int) + n - 10) as char
    }
}

/// How a character is written inside a JSON string: the quote and the backslash are
/// escaped with a backslash, the control characters backspace, tab, line feed, form
/// feed and carriage return by their short escapes, every other control character
/// below U+0020 as `\u00` and two lower-case hexadecimal digits, and every other
/// character as itself.
pub open spec fn json_escaped_char(c: char) -> Seq<char> {
    if c == '"' {
        seq!['\\', '"']
    } else if c == '\\' {
        seq!['\\', '\\']
    } else if c == '\x08' {
        seq!['\\', 'b']
    } else if c == '\t' {
        seq!['\\', 't']
    } else if c == '\n' {
        seq!['\\', 'n']
    } else if c == '\x0c' {
        seq!['\\', 'f']
    } else if c == '\r' {
        seq!['\\', 'r']
    } else if (c as int) < 0x20 {
        seq!['\\', 'u', '0', '0', hex_digit((c as int) / 16), hex_digit((c as int) % 16)]
    } else {
        seq![c]
    }
}

/// The characters of `s`, each written as inside a JSON string.
pub open spec fn json_escaped(s: Seq<char>) -> Seq<char>
    decreases s.len(),
{
    if s.len() == 0 {
        Seq::empty()
    } else {
        json_escaped(s.drop_last()) + json_escaped_char(s.last())
    }
}

/// The JSON string literal of `s`.
pub open spec fn json_string(s: Seq<char>) -> Seq<char> {
    seq!['"'] + json_escaped(s) + seq!['"']
}

/// The compact JSON text of an object with the single member `key`, whose value is the
/// string `value`.
pub open spec fn json_object_text(key: Seq<char>, value: Seq<char>) -> Seq<char> {
    seq!['{'] + json_string(key) + seq![':'] + json_string(value) + seq!['}']
}

/// Whether `c` is written as itself inside a JSON string.
pub open spec fn is_plain_json_char(c: char) -> bool {
    c != '"' && c != '\\' && (c as int) >= 0x20
}

/// A text without quotes, backslashes and control characters is written as itself
/// inside a JSON string.
pub proof fn law_plain_text_is_written_verbatim(s: Seq<char>)
    requires
        forall|i: int| 0 <= i < s.len() ==> is_plain_json_char(#[trigger] s[i]),
    ensures
        json_escaped(s) == s,
    decreases s.len(),
{
    if s.len() > 0 {
        law_plain_text_is_written_verbatim(s.drop_last());
        assert(is_plain_json_char(s[s.len() - 1]));
        assert(s.drop_last().push(s.last()) =~= s);
    }
}

/// Calls `serde_json::Value::to_string` on the JSON object whose single member `key`
/// holds the string `value`. serde_json writes an object in its compact form, with no
/// space: `{`, the key as a string, `:`, the value as a string, `}`. It escapes a
/// string's characters as `json_escaped_char` says (its escape table, and its
/// `\u00XX` escape with lower-case digits).
#[verifier::external_body]
fn json_object_string(key: &str, value: &str) -> (text: String)
    ensures
        text@ == json_object_text(key@, value@),
{
    let mut object = serde_json::Map::new();
    object.insert(key.to_string(), serde_json::Value::String(value.to_string()));
    serde_json::Value::Object(object).to_string()
}

/// The key of the single member of an error response's JSON body.
pub open spec fn error_key() -> Seq<char> {
    "error"@
}

/// The JSON body of an error response with this message: `{"error": message}`.
pub open spec fn error_body_text(message: Seq<char>) -> Seq<char> {
    json_object_text(error_key(), message)
}

/// The body of every error response is the object whose single member "error" holds
/// the message: `{"error":`, the message as a JSON string, `}`.
pub proof fn law_error_body_is_error_object(message: Seq<char>)
    ensures
        error_body_text(message) == seq!['{', '"', 'e', 'r', 'r', 'o', 'r', '"', ':']
            + json_string(message) + seq!['}'],
{
    reveal_strlit("error");
    let key = error_key();
    assert(key =~= seq!['e', 'r', 'r', 'o', 'r']);
    law_plain_text_is_written_verbatim(key);
    assert(error_body_text(message) =~= seq!['{', '"', 'e', 'r', 'r', 'o', 'r', '"', ':']
        + json_string(message) + seq!['}']);
}

/// An error response: its status and its JSON body.
#[derive(Debug)]
pub struct ErrorResponse {
    pub status: StatusCode,
    pub body: String,
}

impl AppError {
    /// The message of the response that answers this error.
    pub fn message(self) -> (answer: (StatusCode, String))
        ensures
            answer.0 == app_error_response(self).0,
            answer.1@ == app_error_response(self).1,
    {
        match self {
            AppError::JsonParsing(err) => handle_json_error(err),
            AppError::Database => (StatusCode::InternalServerError, "Internal server error".to_string()),
        }
    }

    /// The response that answers this error: its status, and a JSON object whose
    /// "error" member is the message.
    pub fn into_response(self) -> (response: ErrorResponse)
        ensures
            response.status == app_error_response(self).0,
            response.body@ == error_body_text(app_error_response(self).1),
    {
        let (status, error_message) = self.message();
        let body = json_object_string("error", error_message.as_str());
        ErrorResponse { status, body }
    }
}

} // verus!
