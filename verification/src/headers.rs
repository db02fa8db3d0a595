//! The cross-origin headers that every response leaves with.
//!
//! A response's headers live in an [`http::header::HeaderMap`]. This module
//! describes such a map by the values it holds under each field name and
//! proves what annotating it adds.

use vstd::prelude::*;
use vstd::string::*;
use vstd::utf8::encode_utf8;

verus! {

/// `http::header::HeaderMap`, the headers of a request or a response.
#[verifier::external_type_specification]
#[verifier::external_body]
#[verifier::reject_recursive_types(T)]
pub struct ExHeaderMap<T>(http::header::HeaderMap<T>);

/// `http::header::HeaderValue`, the bytes of one header value.
#[verifier::external_type_specification]
#[verifier::external_body]
pub struct ExHeaderValue(http::header::HeaderValue);

/// `http::header::InvalidHeaderValue`, the refusal of a text as a header value.
#[verifier::external_type_specification]
#[verifier::external_body]
pub struct ExInvalidHeaderValue(http::header::InvalidHeaderValue);

/// `http::header::MaxSizeReached`, a header map's refusal to grow.
#[verifier::external_type_specification]
#[verifier::external_body]
pub struct ExMaxSizeReached(http::header::MaxSizeReached);

/// What a header map holds: under each field name, in lower case, the bytes
/// of its values, oldest first. A name with no value is not in the domain.
pub uninterp spec fn header_lines(map: http::header::HeaderMap) -> Map<Seq<char>, Seq<Seq<u8>>>;

/// The bytes of a header value.
pub uninterp spec fn value_bytes(value: http::header::HeaderValue) -> Seq<u8>;

/// A character that may stand in a header value: a tab, or anything from the
/// space upwards but the delete character.
pub open spec fn is_value_char(c: char) -> bool {
    c == '\t' || (c as u32 >= 32 && c as u32 != 127)
}

/// Text that a header value can be made of.
pub open spec fn is_header_text(text: Seq<char>) -> bool {
    forall|i: int| 0 <= i < text.len() ==> is_value_char(#[trigger] text[i])
}

/// A character that may stand in a field name: a letter, a digit, or one of
/// the marks that a token admits.
pub open spec fn is_name_char(c: char) -> bool {
    ('a' <= c && c <= 'z') || ('A' <= c && c <= 'Z') || ('0' <= c && c <= '9') || c == '!' || c
        == '#' || c == '$' || c == '%' || c == '&' || c == '\'' || c == '*' || c == '+' || c == '-'
        || c == '.' || c == '^' || c == '_' || c == '`' || c == '|' || c == '~'
}

/// A field name of at most 64 characters, which is as far as this module
/// relies on the map to fold and accept names.
pub open spec fn is_field_name(name: Seq<char>) -> bool {
    1 <= name.len() <= 64 && forall|i: int|
        0 <= i < name.len() ==> is_name_char(#[trigger] name[i])
}

/// A character with an upper-case letter folded to lower case.
pub open spec fn lower(c: char) -> char {
    if 'A' <= c && c <= 'Z' {
        ((c as u8) + 32u8) as char
    } else {
        c
    }
}

/// The key a map files a field name under: the name in lower case.
pub open spec fn field_key(name: Seq<char>) -> Seq<char> {
    name.map_values(|c: char| lower(c))
}

/// A map without a header.
pub open spec fn no_lines() -> Map<Seq<char>, Seq<Seq<u8>>> {
    Map::empty()
}

/// A header map that holds fewer names than this is sure to take one more.
/// The map itself refuses only far beyond it.
pub const ROOM_LIMIT: usize = 1024;

/// `lines` stand under exactly `n` names.
pub open spec fn holds_names(lines: Map<Seq<char>, Seq<Seq<u8>>>, n: nat) -> bool {
    lines.dom().finite() && lines.dom().len() == n
}

/// Whether a map that holds `lines` is sure to take the four cross-origin
/// headers: four more names keep it within [`ROOM_LIMIT`].
pub open spec fn room_for_cors(lines: Map<Seq<char>, Seq<Seq<u8>>>) -> bool {
    lines.dom().len() + 4 <= ROOM_LIMIT
}

/// The values under `key`, none where the key is absent.
pub open spec fn values_of(lines: Map<Seq<char>, Seq<Seq<u8>>>, key: Seq<char>) -> Seq<Seq<u8>> {
    if lines.dom().contains(key) {
        lines[key]
    } else {
        Seq::empty()
    }
}

/// `lines` with one more value at the end of those under `name`.
pub open spec fn with_line(
    lines: Map<Seq<char>, Seq<Seq<u8>>>,
    name: Seq<char>,
    value: Seq<u8>,
) -> Map<Seq<char>, Seq<Seq<u8>>> {
    lines.insert(field_key(name), values_of(lines, field_key(name)).push(value))
}

/// The value of `Access-Control-Allow-Headers`: the configured one, or the
/// two headers that are allowed where nothing is configured.
pub open spec fn allowed_headers(custom: Option<Seq<char>>) -> Seq<char> {
    match custom {
        Some(v) => v,
        None => "Content-Type,Authorization"@,
    }
}

/// `lines` after the first `n` of the four cross-origin headers were
/// appended, in the order in which [`cors`] appends them.
pub open spec fn annotated_upto(
    lines: Map<Seq<char>, Seq<Seq<u8>>>,
    allow: Seq<char>,
    n: nat,
) -> Map<Seq<char>, Seq<Seq<u8>>> {
    let a = if n >= 1 {
        with_line(lines, "Access-Control-Allow-Origin"@, encode_utf8("*"@))
    } else {
        lines
    };
    let b = if n >= 2 {
        with_line(
            a,
            "Access-Control-Request-Method"@,
            encode_utf8("GET,POST,PUT,DELETE,OPTIONS,HEAD,PATCH"@),
        )
    } else {
        a
    };
    let c = if n >= 3 {
        with_line(b, "Access-Control-Allow-Headers"@, encode_utf8(allow))
    } else {
        b
    };
    if n >= 4 {
        with_line(c, "Access-Control-Allow-Credentials"@, encode_utf8("true"@))
    } else {
        c
    }
}

/// `lines` after all four cross-origin headers were appended.
pub open spec fn annotated(lines: Map<Seq<char>, Seq<Seq<u8>>>, allow: Seq<char>) -> Map<
    Seq<char>,
    Seq<Seq<u8>>,
> {
    annotated_upto(lines, allow, 4)
}

/// Why a response could not be annotated.
pub enum CorsError {
    /// The configured allow-headers text cannot stand in a header value.
    /// Nothing was appended.
    InvalidAllowHeaders,
    /// The map took no further entry. `appended` of the four headers, in
    /// order, were appended before it refused.
    Overflow { appended: u8 },
}

/// Calls `HeaderValue::from_str`. It accepts a text exactly when every byte
/// of it is a tab, or at least 32 and not 127; every byte of a character
/// beyond ASCII is above 127, so this is a condition on the characters. The
/// value made holds the text's bytes.
#[verifier::external_body]
fn parse_value(text: &str) -> (r: Result<http::header::HeaderValue, http::header::InvalidHeaderValue>)
    ensures
        r.is_ok() <==> is_header_text(text@),
        r matches Ok(v) ==> value_bytes(v) == encode_utf8(text@),
{
    http::header::HeaderValue::from_str(text)
}

/// Calls `HeaderMap::try_append` with a static name. A name of one to 64
/// token characters is folded to lower case and accepted. Where the map takes
/// the entry, the value goes to the end of those under that name, the other
/// names keep theirs, and the result says whether the name was there before.
/// Where the map refuses for size, it holds what it held. It refuses only
/// when it holds 32768 names, or when its table would have to grow past
/// 32768 slots, which a table does not reach for below 6554 names; the
/// contract claims acceptance below [`ROOM_LIMIT`] names. A map holds
/// finitely many names.
#[verifier::external_body]
fn try_append(map: &mut http::header::HeaderMap, name: &'static str, value: http::header::HeaderValue) -> (r:
    Result<bool, http::header::MaxSizeReached>)
    requires
        is_field_name(name@),
    ensures
        r matches Ok(found) ==> found == header_lines(*old(map)).dom().contains(field_key(name@))
            && header_lines(*final(map)) == with_line(
            header_lines(*old(map)),
            name@,
            value_bytes(value),
        ),
        r is Err ==> header_lines(*final(map)) == header_lines(*old(map)),
        header_lines(*old(map)).dom().finite() && header_lines(*old(map)).dom().len()
            < ROOM_LIMIT ==> r is Ok,
        header_lines(*final(map)).dom().finite(),
{
    map.try_append(name, value)
}

/// Calls `HeaderMap::keys_len`, which returns the number of names that the
/// map holds, however many values stand under each.
#[verifier::external_body]
fn keys_len(map: &http::header::HeaderMap) -> (r: usize)
    ensures
        holds_names(header_lines(*map), r as nat),
{
    map.keys_len()
}

/// Whether `headers` is sure to take the four cross-origin headers, so that
/// [`cors`] cannot fail for want of room.
pub fn has_room(headers: &http::header::HeaderMap) -> (r: bool)
    ensures
        r == room_for_cors(header_lines(*headers)),
        header_lines(*headers).dom().finite(),
{
    keys_len(headers) <= ROOM_LIMIT - 4
}

/// One append adds at most one name: whether the map took the line or kept
/// what it held, it held finitely many names before, and holds at most one
/// more after.
proof fn lemma_append_adds_one_name(
    before: Map<Seq<char>, Seq<Seq<u8>>>,
    after: Map<Seq<char>, Seq<Seq<u8>>>,
    name: Seq<char>,
    value: Seq<u8>,
)
    requires
        after.dom().finite(),
        after == with_line(before, name, value) || after == before,
    ensures
        before.dom().finite(),
        after.dom().len() <= before.dom().len() + 1,
{
    if after != before {
        assert(after.dom() =~= before.dom().insert(field_key(name)));
        vstd::set_lib::lemma_set_insert_finite_iff(before.dom(), field_key(name));
    }
}

/// Calls `HeaderMap::new`, which makes a map that holds nothing.
#[verifier::external_body]
pub(crate) fn empty_headers() -> (r: http::header::HeaderMap)
    ensures
        header_lines(r) == no_lines(),
{
    http::header::HeaderMap::new()
}

/// The four field names are names the map accepts, the fixed values are
/// header text, and the names differ in length.
proof fn lemma_fixed_texts()
    ensures
        is_field_name("Access-Control-Allow-Origin"@),
        is_field_name("Access-Control-Request-Method"@),
        is_field_name("Access-Control-Allow-Headers"@),
        is_field_name("Access-Control-Allow-Credentials"@),
        is_header_text("*"@),
        is_header_text("GET,POST,PUT,DELETE,OPTIONS,HEAD,PATCH"@),
        is_header_text("Content-Type,Authorization"@),
        is_header_text("true"@),
        "Access-Control-Allow-Origin"@.len() == 27,
        "Access-Control-Request-Method"@.len() == 29,
        "Access-Control-Allow-Headers"@.len() == 28,
        "Access-Control-Allow-Credentials"@.len() == 32,
{
    reveal_strlit("Access-Control-Allow-Origin");
    reveal_strlit("Access-Control-Request-Method");
    reveal_strlit("Access-Control-Allow-Headers");
    reveal_strlit("Access-Control-Allow-Credentials");
    reveal_strlit("*");
    reveal_strlit("GET,POST,PUT,DELETE,OPTIONS,HEAD,PATCH");
    reveal_strlit("Content-Type,Authorization");
    reveal_strlit("true");
}

impl CorsError {
    /// The sentence that [`CorsError::message`] returns.
    pub open spec fn message_text(&self) -> Seq<char> {
        match *self {
            CorsError::InvalidAllowHeaders => "allow-headers is not a valid header value"@,
            CorsError::Overflow { .. } => "the response holds too many headers"@,
        }
    }

    /// A sentence for the body of an error response.
    pub fn message(&self) -> (r: String)
        ensures
            r@ == self.message_text(),
    {
        match self {
            CorsError::InvalidAllowHeaders => String::from_str(
                "allow-headers is not a valid header value",
            ),
            CorsError::Overflow { .. } => String::from_str("the response holds too many headers"),
        }
    }
}

/// What [`cors`] makes of the map's answer to one append, `appended` of the
/// four headers having gone in before it: nothing to report where the map
/// took the line, else the refusal with that count.
pub fn append_outcome(answer: &Result<bool, http::header::MaxSizeReached>, appended: u8) -> (r:
    Result<(), CorsError>)
    ensures
        answer is Ok ==> r == Ok::<(), CorsError>(()),
        answer is Err ==> r == Err::<(), CorsError>(CorsError::Overflow { appended }),
{
    match answer {
        Ok(_) => Ok(()),
        Err(_) => Err(CorsError::Overflow { appended }),
    }
}

/// Appends the four cross-origin headers to `headers`: any origin, the seven
/// methods, the allowed request headers (`custom_headers`, or content type and
/// authorization where that is `None`), and credentials. Nothing that the map
/// holds is replaced: a name that is there already gets one more value.
///
/// Text that cannot stand in a header value is refused before anything is
/// appended. Otherwise the only failure is the map's own refusal to grow, and
/// the error then counts the headers that were appended before it. A map
/// with room for four more names, which [`has_room`] tests, never refuses.
pub fn cors(headers: &mut http::header::HeaderMap, custom_headers: Option<String>) -> (r: Result<
    (),
    CorsError,
>)
    ensures
        !is_header_text(allowed_headers(option_text(custom_headers))) ==> r == Err::<(), CorsError>(
            CorsError::InvalidAllowHeaders,
        ) && header_lines(*final(headers)) == header_lines(*old(headers)),
        is_header_text(allowed_headers(option_text(custom_headers))) ==> match r {
            Ok(_) => header_lines(*final(headers)) == annotated(
                header_lines(*old(headers)),
                allowed_headers(option_text(custom_headers)),
            ),
            Err(CorsError::Overflow { appended }) => appended < 4 && header_lines(*final(headers))
                == annotated_upto(
                header_lines(*old(headers)),
                allowed_headers(option_text(custom_headers)),
                appended as nat,
            ),
            Err(CorsError::InvalidAllowHeaders) => false,
        },
        is_header_text(allowed_headers(option_text(custom_headers))) && room_for_cors(
            header_lines(*old(headers)),
        ) ==> r is Ok,
{
    proof {
        lemma_fixed_texts();
    }
    let ghost l0 = header_lines(*headers);
    let ghost allow = allowed_headers(option_text(custom_headers));
    let allow_text: String = match custom_headers {
        Some(v) => v,
        None => String::from_str("Content-Type,Authorization"),
    };
    let allow_value = match parse_value(allow_text.as_str()) {
        Ok(v) => v,
        Err(_) => {
            return Err(CorsError::InvalidAllowHeaders);
        },
    };
    let origin = parse_value("*");
    let methods = parse_value("GET,POST,PUT,DELETE,OPTIONS,HEAD,PATCH");
    let credentials = parse_value("true");
    assert(allow_text@ == allow);

    let first = try_append(headers, "Access-Control-Allow-Origin", origin.unwrap());
    let ghost l1 = header_lines(*headers);
    proof {
        lemma_append_adds_one_name(
            l0,
            l1,
            "Access-Control-Allow-Origin"@,
            encode_utf8("*"@),
        );
    }
    if first.is_err() {
        return append_outcome(&first, 0);
    }
    let second = try_append(headers, "Access-Control-Request-Method", methods.unwrap());
    let ghost l2 = header_lines(*headers);
    proof {
        lemma_append_adds_one_name(
            l1,
            l2,
            "Access-Control-Request-Method"@,
            encode_utf8("GET,POST,PUT,DELETE,OPTIONS,HEAD,PATCH"@),
        );
    }
    if second.is_err() {
        return append_outcome(&second, 1);
    }
    let third = try_append(headers, "Access-Control-Allow-Headers", allow_value);
    let ghost l3 = header_lines(*headers);
    proof {
        lemma_append_adds_one_name(l2, l3, "Access-Control-Allow-Headers"@, encode_utf8(allow));
    }
    if third.is_err() {
        return append_outcome(&third, 2);
    }
    let fourth = try_append(headers, "Access-Control-Allow-Credentials", credentials.unwrap());
    append_outcome(&fourth, 3)
}

/// The text of an optional string.
pub open spec fn option_text(s: Option<String>) -> Option<Seq<char>> {
    match s {
        Some(v) => Some(v@),
        None => None,
    }
}

/// The value that is allowed where nothing is configured can stand in a
/// header, so that annotating without a configured value never fails on its
/// text.
pub proof fn lemma_default_is_header_text()
    ensures
        is_header_text(allowed_headers(None)),
{
    lemma_fixed_texts();
}

/// The four keys under which the cross-origin headers are filed differ from
/// one another.
pub proof fn lemma_keys_differ()
    ensures
        field_key("Access-Control-Allow-Origin"@) != field_key("Access-Control-Request-Method"@),
        field_key("Access-Control-Allow-Origin"@) != field_key("Access-Control-Allow-Headers"@),
        field_key("Access-Control-Allow-Origin"@) != field_key(
            "Access-Control-Allow-Credentials"@,
        ),
        field_key("Access-Control-Request-Method"@) != field_key("Access-Control-Allow-Headers"@),
        field_key("Access-Control-Request-Method"@) != field_key(
            "Access-Control-Allow-Credentials"@,
        ),
        field_key("Access-Control-Allow-Headers"@) != field_key(
            "Access-Control-Allow-Credentials"@,
        ),
{
    lemma_fixed_texts();
    assert(field_key("Access-Control-Allow-Origin"@).len() == 27);
    assert(field_key("Access-Control-Request-Method"@).len() == 29);
    assert(field_key("Access-Control-Allow-Headers"@).len() == 28);
    assert(field_key("Access-Control-Allow-Credentials"@).len() == 32);
}

/// One annotation adds each of the four cross-origin headers exactly once:
/// under each of the four names the values are those from before and one
/// more, which for the allowed headers is the text given; every other name
/// keeps what it had, or stays absent.
pub proof fn lemma_annotated_once(lines: Map<Seq<char>, Seq<Seq<u8>>>, allow: Seq<char>)
    ensures
        values_of(annotated(lines, allow), field_key("Access-Control-Allow-Origin"@)) == values_of(
            lines,
            field_key("Access-Control-Allow-Origin"@),
        ).push(encode_utf8("*"@)),
        values_of(annotated(lines, allow), field_key("Access-Control-Request-Method"@))
            == values_of(lines, field_key("Access-Control-Request-Method"@)).push(
            encode_utf8("GET,POST,PUT,DELETE,OPTIONS,HEAD,PATCH"@),
        ),
        values_of(annotated(lines, allow), field_key("Access-Control-Allow-Headers"@)) == values_of(
            lines,
            field_key("Access-Control-Allow-Headers"@),
        ).push(encode_utf8(allow)),
        values_of(annotated(lines, allow), field_key("Access-Control-Allow-Credentials"@))
            == values_of(lines, field_key("Access-Control-Allow-Credentials"@)).push(
            encode_utf8("true"@),
        ),
        forall|key: Seq<char>|
            key != field_key("Access-Control-Allow-Origin"@) && key != field_key(
                "Access-Control-Request-Method"@,
            ) && key != field_key("Access-Control-Allow-Headers"@) && key != field_key(
                "Access-Control-Allow-Credentials"@,
            ) ==> annotated(lines, allow).dom().contains(key) == lines.dom().contains(key)
                && #[trigger] values_of(annotated(lines, allow), key) == values_of(lines, key),
{
    lemma_keys_differ();
}

/// Annotating twice appends twice: under each of the four names the values
/// are those from before and the header's value two times over. Nothing is
/// merged or dropped.
pub proof fn lemma_annotated_twice(lines: Map<Seq<char>, Seq<Seq<u8>>>, allow: Seq<char>)
    ensures
        values_of(
            annotated(annotated(lines, allow), allow),
            field_key("Access-Control-Allow-Origin"@),
        ) == values_of(lines, field_key("Access-Control-Allow-Origin"@)).push(
            encode_utf8("*"@),
        ).push(encode_utf8("*"@)),
        values_of(
            annotated(annotated(lines, allow), allow),
            field_key("Access-Control-Request-Method"@),
        ) == values_of(lines, field_key("Access-Control-Request-Method"@)).push(
            encode_utf8("GET,POST,PUT,DELETE,OPTIONS,HEAD,PATCH"@),
        ).push(encode_utf8("GET,POST,PUT,DELETE,OPTIONS,HEAD,PATCH"@)),
        values_of(
            annotated(annotated(lines, allow), allow),
            field_key("Access-Control-Allow-Headers"@),
        ) == values_of(lines, field_key("Access-Control-Allow-Headers"@)).push(
            encode_utf8(allow),
        ).push(encode_utf8(allow)),
        values_of(
            annotated(annotated(lines, allow), allow),
            field_key("Access-Control-Allow-Credentials"@),
        ) == values_of(lines, field_key("Access-Control-Allow-Credentials"@)).push(
            encode_utf8("true"@),
        ).push(encode_utf8("true"@)),
{
    lemma_annotated_once(lines, allow);
    lemma_annotated_once(annotated(lines, allow), allow);
}

} // verus!
