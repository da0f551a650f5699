//! The header fields that every authenticated request to the provider carries.

use vstd::prelude::*;
use vstd::string::*;
use vstd::utf8::*;
use reqwest::header::{HeaderMap, HeaderName, HeaderValue, InvalidHeaderValue};

verus! {

/// `reqwest::header::HeaderMap`, the header fields of a request; opaque here.
#[verifier::external_type_specification]
#[verifier::external_body]
#[verifier::reject_recursive_types(T)]
pub struct ExHeaderMap<T>(HeaderMap<T>);

/// `reqwest::header::HeaderValue`, the value of one header field; opaque here.
#[verifier::external_type_specification]
#[verifier::external_body]
pub struct ExHeaderValue(HeaderValue);

/// `reqwest::header::HeaderName`, the name of one header field; opaque here.
#[verifier::external_type_specification]
#[verifier::external_body]
pub struct ExHeaderName(HeaderName);

/// `reqwest::header::InvalidHeaderValue`, the refusal of a text as a header
/// value; opaque here.
#[verifier::external_type_specification]
#[verifier::external_body]
pub struct ExInvalidHeaderValue(InvalidHeaderValue);

/// Header fields by name: under each name the octets of its values.
pub type Fields = Map<Seq<char>, Seq<Seq<u8>>>;

/// The fields of a header map: each name it holds, in lower case, with the
/// octets of the values appended under that name, oldest first.
pub uninterp spec fn header_fields(headers: HeaderMap<HeaderValue>) -> Map<Seq<char>, Seq<Seq<u8>>>;

/// The octets of a header value.
pub uninterp spec fn header_value_bytes(value: HeaderValue) -> Seq<u8>;

/// The text of a header name, which is always in lower case.
pub uninterp spec fn header_name_text(name: HeaderName) -> Seq<char>;

/// Whether a header value may hold this octet: anything from the space upward
/// except DEL, and the horizontal tab.
pub open spec fn header_octet_ok(b: u8) -> bool {
    (b >= 32 && b != 127) || b == 9
}

/// Whether a text can be carried as a header value: every octet of its UTF-8
/// encoding may stand in one.
pub open spec fn header_text_ok(text: Seq<char>) -> bool {
    forall|i: int| 0 <= i < encode_utf8(text).len() ==> header_octet_ok(#[trigger] encode_utf8(text)[i])
}

/// `HeaderValue::from_str`: the text is taken exactly when each octet of it
/// may stand in a header value, and the value then holds those octets.
#[verifier::external_body]
fn parse_header_value(text: &str) -> (parsed: Result<HeaderValue, InvalidHeaderValue>)
    ensures
        parsed is Ok <==> header_text_ok(text@),
        parsed is Ok ==> header_value_bytes(parsed->Ok_0) == encode_utf8(text@),
{
    HeaderValue::from_str(text)
}

/// `reqwest::header::CONTENT_TYPE`: the name `content-type`.
#[verifier::external_body]
fn content_type_name() -> (name: HeaderName)
    ensures
        header_name_text(name) == "content-type"@,
{
    reqwest::header::CONTENT_TYPE
}

/// `reqwest::header::AUTHORIZATION`: the name `authorization`.
#[verifier::external_body]
fn authorization_name() -> (name: HeaderName)
    ensures
        header_name_text(name) == "authorization"@,
{
    reqwest::header::AUTHORIZATION
}

/// `HeaderMap::new`: a map without fields.
#[verifier::external_body]
fn empty_header_map() -> (headers: HeaderMap<HeaderValue>)
    ensures
        header_fields(headers) == Fields::empty(),
{
    HeaderMap::new()
}

/// The values under `name` once `value` has been appended there.
pub open spec fn fields_after_append(
    fields: Map<Seq<char>, Seq<Seq<u8>>>,
    name: Seq<char>,
    value: Seq<u8>,
) -> Map<Seq<char>, Seq<Seq<u8>>> {
    if fields.contains_key(name) {
        fields.insert(name, fields[name].push(value))
    } else {
        fields.insert(name, seq![value])
    }
}

/// `HeaderMap::append`: the value comes last under its name, the other
/// fields stay, and the result tells whether the name was there before.
/// The map gives up only when it would have to grow past 32768 slots, which
/// it never needs while it holds fewer than 6554 names; the bound asked
/// here lies well below that.
#[verifier::external_body]
fn append_header(headers: &mut HeaderMap<HeaderValue>, name: HeaderName, value: HeaderValue) -> (present: bool)
    requires
        header_fields(*old(headers)).dom().finite(),
        header_fields(*old(headers)).dom().len() < 4096,
    ensures
        present == header_fields(*old(headers)).contains_key(header_name_text(name)),
        header_fields(*final(headers)) == fields_after_append(
            header_fields(*old(headers)),
            header_name_text(name),
            header_value_bytes(value),
        ),
{
    headers.append(name, value)
}

/// Why a request could not be formed.
#[derive(Debug, Clone, Copy, PartialEq, Eq, Structural)]
pub enum RequestError {
    /// The credential holds an octet that no header value may hold.
    Credential,
}

/// The value of the authorization field for a credential.
pub open spec fn bearer(credential: Seq<char>) -> Seq<char> {
    "Bearer "@ + credential
}

/// The fields of an authenticated request: the JSON content type and the
/// credential as a bearer token.
pub open spec fn auth_fields(credential: Seq<char>) -> Fields {
    Fields::empty().insert("content-type"@, seq![encode_utf8("application/json"@)]).insert(
        "authorization"@,
        seq![encode_utf8(bearer(credential))],
    )
}

/// The encoding of two texts in a row is the two encodings in a row.
pub proof fn lemma_encode_concat(head: Seq<char>, tail: Seq<char>)
    ensures
        encode_utf8(head + tail) == encode_utf8(head) + encode_utf8(tail),
    decreases head.len(),
{
    if head.len() > 0 {
        assert((head + tail).drop_first() =~= head.drop_first() + tail);
        lemma_encode_concat(head.drop_first(), tail);
    }
}

/// Two texts in a row can be carried exactly when each of them can.
pub proof fn lemma_header_text_concat(head: Seq<char>, tail: Seq<char>)
    ensures
        header_text_ok(head + tail) <==> header_text_ok(head) && header_text_ok(tail),
{
    lemma_encode_concat(head, tail);
    let h = encode_utf8(head);
    let t = encode_utf8(tail);
    let all = encode_utf8(head + tail);
    if header_text_ok(head + tail) {
        assert forall|i: int| 0 <= i < h.len() implies header_octet_ok(#[trigger] h[i]) by {
            assert(all[i] == h[i]);
        }
        assert forall|i: int| 0 <= i < t.len() implies header_octet_ok(#[trigger] t[i]) by {
            assert(all[h.len() + i] == t[i]);
        }
    }
}

/// A text of visible ASCII characters can be carried as a header value.
proof fn lemma_visible_ascii_ok(text: Seq<char>)
    requires
        forall|i: int| 0 <= i < text.len() ==> ' ' <= #[trigger] text[i] <= '~',
    ensures
        header_text_ok(text),
{
    is_ascii_chars_encode_utf8(text);
}

/// A credential can be sent as a bearer token exactly when it can be
/// carried as a header value itself.
pub proof fn lemma_bearer_ok(credential: Seq<char>)
    ensures
        header_text_ok(bearer(credential)) <==> header_text_ok(credential),
{
    reveal_strlit("Bearer ");
    lemma_visible_ascii_ok("Bearer "@);
    lemma_header_text_concat("Bearer "@, credential);
}

/// Whether a credential can be sent in the authorization field.
pub fn credential_sendable(api_key: &str) -> (sendable: bool)
    ensures
        sendable == header_text_ok(api_key@),
{
    proof {
        lemma_bearer_ok(api_key@);
    }
    let value = String::from_str("Bearer ").concat(api_key);
    parse_header_value(value.as_str()).is_ok()
}

/// The header fields of an authenticated request: `Content-Type:
/// application/json` and `Authorization: Bearer` with the credential. They
/// can be formed exactly when each octet of the credential may stand in a
/// header value.
pub fn auth_headers(api_key: &str) -> (made: Result<HeaderMap<HeaderValue>, RequestError>)
    ensures
        made is Ok <==> header_text_ok(api_key@),
        made is Ok ==> header_fields(made->Ok_0) == auth_fields(api_key@),
        made is Err ==> made->Err_0 == RequestError::Credential,
{
    proof {
        lemma_bearer_ok(api_key@);
        reveal_strlit("application/json");
        lemma_visible_ascii_ok("application/json"@);
        reveal_strlit("content-type");
        reveal_strlit("authorization");
    }
    let token = String::from_str("Bearer ").concat(api_key);
    let authorization = match parse_header_value(token.as_str()) {
        Ok(value) => value,
        Err(_) => {
            return Err(RequestError::Credential);
        },
    };
    let content_type = match parse_header_value("application/json") {
        Ok(value) => value,
        Err(_) => vstd::pervasive::unreached(),
    };
    let mut headers = empty_header_map();
    append_header(&mut headers, content_type_name(), content_type);
    assert("content-type"@.len() == 12 && "authorization"@.len() == 13);
    append_header(&mut headers, authorization_name(), authorization);
    Ok(headers)
}

} // verus!
