//! The decoding half of the data marshaler: turns the value delivered by
//! the embedded module back into a typed host structure.
//!
//! The embedded module delivers its result as one compact encoded text with
//! a fixed shape: either a success object carrying one string, or an error
//! object carrying a non-empty list of errors, each with a `message` that is
//! a string or null and an `extensions` that is null or carries a `code`
//! string.  Decoding never partially succeeds: a payload of any other shape
//! decodes to nothing, which the session surfaces as an internal contract
//! violation rather than a user error.

use vstd::prelude::*;
use vstd::string::StrSliceExecFns;

use crate::marshal::string_from_chars;

verus! {

/// The mathematical model of one error reported by the embedded module: an
/// optional message and an optional code, each a character sequence.
pub struct SpecGraphQlError {
    pub message: Option<Seq<char>>,
    pub code: Option<Seq<char>>,
}

/// The code of an error model: the code the module supplied, or the
/// sentinel when it supplied none.
pub open spec fn spec_code(e: SpecGraphQlError) -> Seq<char> {
    match e.code {
        Some(c) => c,
        None => "UNKNOWN"@,
    }
}

/// The display form of an error model: the code, then the message when
/// there is one.
pub open spec fn spec_display(e: SpecGraphQlError) -> Seq<char> {
    match e.message {
        Some(m) => spec_code(e) + ": "@ + m,
        None => spec_code(e),
    }
}

/// The mathematical model of a delivered payload: one success string, or a
/// list of errors.
pub enum SpecPayload {
    Data(Seq<char>),
    Errors(Seq<SpecGraphQlError>),
}

/// One error as delivered by the embedded module, before it is adapted to a
/// call-shape's own error type.
pub struct DeliveredError {
    /// The error's human-readable message, when the module supplied one.
    pub message: Option<String>,
    /// The error's code, when the module supplied one.
    pub code: Option<String>,
}

impl View for DeliveredError {
    type V = SpecGraphQlError;

    open spec fn view(&self) -> SpecGraphQlError {
        SpecGraphQlError {
            message: match self.message {
                Some(m) => Some(m@),
                None => None,
            },
            code: match self.code {
                Some(c) => Some(c@),
                None => None,
            },
        }
    }
}

/// The models of a sequence of delivered errors, in order.
pub open spec fn delivered_errors_view(l: Seq<DeliveredError>) -> Seq<SpecGraphQlError> {
    l.map_values(|e: DeliveredError| e@)
}

/// A decoded payload: one success string, or a list of delivered errors.
pub enum DecodedPayload {
    Data(String),
    Errors(Vec<DeliveredError>),
}

impl View for DecodedPayload {
    type V = SpecPayload;

    open spec fn view(&self) -> SpecPayload {
        match self {
            DecodedPayload::Data(s) => SpecPayload::Data(s@),
            DecodedPayload::Errors(l) => SpecPayload::Errors(delivered_errors_view(l@)),
        }
    }
}

/// Whether the characters of `lit` stand in `s` at position `i`.
pub open spec fn at_lit(s: Seq<char>, i: int, lit: Seq<char>) -> bool {
    0 <= i && i + lit.len() <= s.len() && s.subrange(i, i + lit.len()) == lit
}

/// The value of a lower-case hexadecimal digit, or a negative value for any
/// other character.
pub open spec fn hex_value(c: char) -> int {
    if c == '0' {
        0
    } else if c == '1' {
        1
    } else if c == '2' {
        2
    } else if c == '3' {
        3
    } else if c == '4' {
        4
    } else if c == '5' {
        5
    } else if c == '6' {
        6
    } else if c == '7' {
        7
    } else if c == '8' {
        8
    } else if c == '9' {
        9
    } else if c == 'a' {
        10
    } else if c == 'b' {
        11
    } else if c == 'c' {
        12
    } else if c == 'd' {
        13
    } else if c == 'e' {
        14
    } else if c == 'f' {
        15
    } else {
        -1
    }
}

/// Parse the body of an encoded string from position `i`, the position just
/// after the opening quote, accumulating the decoded characters onto `acc`.
/// Yields the decoded string and the position just after the closing quote.
/// Raw control characters, unknown escapes, and four-digit escapes outside
/// the ASCII range are refused.
pub open spec fn parse_string_body(s: Seq<char>, i: int, acc: Seq<char>) -> Option<(Seq<char>, int)>
    decreases s.len() - i,
{
    if i < 0 || i >= s.len() {
        None
    } else if s[i] == '"' {
        Some((acc, i + 1))
    } else if s[i] == '\\' {
        if i + 1 >= s.len() {
            None
        } else {
            let e = s[i + 1];
            if e == '"' {
                parse_string_body(s, i + 2, acc.push('"'))
            } else if e == '\\' {
                parse_string_body(s, i + 2, acc.push('\\'))
            } else if e == '/' {
                parse_string_body(s, i + 2, acc.push('/'))
            } else if e == 'n' {
                parse_string_body(s, i + 2, acc.push('\n'))
            } else if e == 'r' {
                parse_string_body(s, i + 2, acc.push('\r'))
            } else if e == 't' {
                parse_string_body(s, i + 2, acc.push('\t'))
            } else if e == 'b' {
                parse_string_body(s, i + 2, acc.push('\u{8}'))
            } else if e == 'f' {
                parse_string_body(s, i + 2, acc.push('\u{c}'))
            } else if e == 'u' {
                if i + 6 <= s.len() && hex_value(s[i + 2]) >= 0 && hex_value(s[i + 3]) >= 0
                    && hex_value(s[i + 4]) >= 0 && hex_value(s[i + 5]) >= 0 {
                    let v = hex_value(s[i + 2]) * 4096 + hex_value(s[i + 3]) * 256 + hex_value(
                        s[i + 4],
                    ) * 16 + hex_value(s[i + 5]);
                    if v < 0x80 {
                        parse_string_body(s, i + 6, acc.push((v as u8) as char))
                    } else {
                        None
                    }
                } else {
                    None
                }
            } else {
                None
            }
        }
    } else if (s[i] as u32) < 0x20 {
        None
    } else {
        parse_string_body(s, i + 1, acc.push(s[i]))
    }
}

/// Parse a string or the null literal at position `i`.
pub open spec fn parse_opt_string(s: Seq<char>, i: int) -> Option<(Option<Seq<char>>, int)> {
    if at_lit(s, i, "null"@) {
        Some((None, i + 4))
    } else if 0 <= i < s.len() && s[i] == '"' {
        match parse_string_body(s, i + 1, Seq::empty()) {
            None => None,
            Some((v, j)) => Some((Some(v), j)),
        }
    } else {
        None
    }
}

/// Parse an `extensions` value at position `i`: null, or an object carrying
/// one `code` string.
pub open spec fn parse_extensions(s: Seq<char>, i: int) -> Option<(Option<Seq<char>>, int)> {
    let lit = "{\"code\":\""@;
    if at_lit(s, i, "null"@) {
        Some((None, i + 4))
    } else if at_lit(s, i, lit) {
        match parse_string_body(s, i + lit.len(), Seq::empty()) {
            None => None,
            Some((v, j)) => if 0 <= j < s.len() && s[j] == '}' {
                Some((Some(v), j + 1))
            } else {
                None
            },
        }
    } else {
        None
    }
}

/// Parse one error object at position `i`: its `message`, then its
/// `extensions`.
pub open spec fn parse_error_obj(s: Seq<char>, i: int) -> Option<(SpecGraphQlError, int)> {
    let mlit = "{\"message\":"@;
    let xlit = ",\"extensions\":"@;
    if at_lit(s, i, mlit) {
        match parse_opt_string(s, i + mlit.len()) {
            None => None,
            Some((m, j)) => if at_lit(s, j, xlit) {
                match parse_extensions(s, j + xlit.len()) {
                    None => None,
                    Some((c, k)) => if 0 <= k < s.len() && s[k] == '}' {
                        Some((SpecGraphQlError { message: m, code: c }, k + 1))
                    } else {
                        None
                    },
                }
            } else {
                None
            },
        }
    } else {
        None
    }
}

/// Parse the comma-separated error objects of an error list from position
/// `i`, up to and including the closing bracket, accumulating onto `acc`.
pub open spec fn parse_errors(s: Seq<char>, i: int, acc: Seq<SpecGraphQlError>) -> Option<
    (Seq<SpecGraphQlError>, int),
>
    decreases s.len() - i,
{
    match parse_error_obj(s, i) {
        None => None,
        Some((e, j)) => if i < j && j < s.len() {
            if s[j] == ',' {
                parse_errors(s, j + 1, acc.push(e))
            } else if s[j] == ']' {
                Some((acc.push(e), j + 1))
            } else {
                None
            }
        } else {
            None
        },
    }
}

/// Parse a whole delivered payload: a success object, or an error object
/// with a non-empty error list, with nothing before or after it.
pub open spec fn parse_payload(s: Seq<char>) -> Option<SpecPayload> {
    let dlit = "{\"data\":\""@;
    let elit = "{\"errors\":["@;
    if at_lit(s, 0, dlit) {
        match parse_string_body(s, dlit.len() as int, Seq::empty()) {
            None => None,
            Some((v, j)) => if j + 1 == s.len() && s[j] == '}' {
                Some(SpecPayload::Data(v))
            } else {
                None
            },
        }
    } else if at_lit(s, 0, elit) {
        match parse_errors(s, elit.len() as int, Seq::empty()) {
            None => None,
            Some((l, j)) => if j + 1 == s.len() && s[j] == '}' && l.len() > 0 {
                Some(SpecPayload::Errors(l))
            } else {
                None
            },
        }
    } else {
        None
    }
}

/// The characters of a string, as a vector.
fn str_chars(s: &str) -> (r: Vec<char>)
    ensures
        r@ == s@,
{
    let n = s.unicode_len();
    let mut out: Vec<char> = Vec::new();
    let mut i: usize = 0;
    while i < n
        invariant
            n == s@.len(),
            i <= n,
            out@ == s@.take(i as int),
        decreases n - i,
    {
        out.push(s.get_char(i));
        proof {
            assert(s@.take(i + 1 as int) =~= s@.take(i as int).push(s@[i as int]));
        }
        i += 1;
    }
    proof {
        assert(s@.take(n as int) =~= s@);
    }
    out
}

/// The value of a lower-case hexadecimal digit.
fn hex_value_exec(c: char) -> (r: Option<u32>)
    ensures
        match r {
            Some(v) => hex_value(c) == v as int && v < 16,
            None => hex_value(c) < 0,
        },
{
    if c == '0' {
        Some(0)
    } else if c == '1' {
        Some(1)
    } else if c == '2' {
        Some(2)
    } else if c == '3' {
        Some(3)
    } else if c == '4' {
        Some(4)
    } else if c == '5' {
        Some(5)
    } else if c == '6' {
        Some(6)
    } else if c == '7' {
        Some(7)
    } else if c == '8' {
        Some(8)
    } else if c == '9' {
        Some(9)
    } else if c == 'a' {
        Some(10)
    } else if c == 'b' {
        Some(11)
    } else if c == 'c' {
        Some(12)
    } else if c == 'd' {
        Some(13)
    } else if c == 'e' {
        Some(14)
    } else if c == 'f' {
        Some(15)
    } else {
        None
    }
}

/// Whether the characters of `lit` stand in `s` at position `i`; yields the
/// position just after them when they do.
fn expect_lit(s: &Vec<char>, i: usize, lit: &str) -> (r: Option<usize>)
    ensures
        match r {
            Some(j) => at_lit(s@, i as int, lit@) && j == i + lit@.len(),
            None => !at_lit(s@, i as int, lit@),
        },
{
    let n = lit.unicode_len();
    if s.len() < n || i > s.len() - n {
        return None;
    }
    let mut j: usize = 0;
    while j < n
        invariant
            n == lit@.len(),
            j <= n,
            i + n <= s@.len(),
            i + n <= usize::MAX,
            forall|k: int| 0 <= k < j ==> s@[i + k] == lit@[k],
        decreases n - j,
    {
        if s[i + j] != lit.get_char(j) {
            proof {
                assert(s@.subrange(i as int, i + n as int)[j as int] != lit@[j as int]);
            }
            return None;
        }
        j += 1;
    }
    proof {
        assert(s@.subrange(i as int, i + n as int) =~= lit@);
    }
    Some(i + n)
}

/// Parse the body of an encoded string from `start`, the position just
/// after the opening quote, pushing the decoded characters onto `acc`.
fn parse_string_body_exec(s: &Vec<char>, start: usize, acc: &mut Vec<char>) -> (r: Option<usize>)
    ensures
        match r {
            Some(j) => parse_string_body(s@, start as int, old(acc)@) == Some(
                (final(acc)@, j as int),
            ) && start < j <= s@.len(),
            None => parse_string_body(s@, start as int, old(acc)@) is None,
        },
{
    let mut i: usize = start;
    loop
        invariant
            start <= i,
            parse_string_body(s@, start as int, old(acc)@) == parse_string_body(
                s@,
                i as int,
                acc@,
            ),
        decreases s@.len() - i,
    {
        if i >= s.len() {
            return None;
        }
        let c = s[i];
        if c == '"' {
            return Some(i + 1);
        }
        let ghost a0 = acc@;
        if c == '\\' {
            if i + 1 >= s.len() {
                return None;
            }
            let e = s[i + 1];
            if e == '"' {
                acc.push('"');
                i = i + 2;
            } else if e == '\\' {
                acc.push('\\');
                i = i + 2;
            } else if e == '/' {
                acc.push('/');
                i = i + 2;
            } else if e == 'n' {
                acc.push('\n');
                i = i + 2;
            } else if e == 'r' {
                acc.push('\r');
                i = i + 2;
            } else if e == 't' {
                acc.push('\t');
                i = i + 2;
            } else if e == 'b' {
                acc.push('\u{8}');
                i = i + 2;
            } else if e == 'f' {
                acc.push('\u{c}');
                i = i + 2;
            } else if e == 'u' {
                if s.len() - i < 6 {
                    return None;
                }
                let h1 = hex_value_exec(s[i + 2]);
                let h2 = hex_value_exec(s[i + 3]);
                let h3 = hex_value_exec(s[i + 4]);
                let h4 = hex_value_exec(s[i + 5]);
                match (h1, h2, h3, h4) {
                    (Some(v1), Some(v2), Some(v3), Some(v4)) => {
                        let v: u32 = v1 * 4096 + v2 * 256 + v3 * 16 + v4;
                        if v < 0x80 {
                            acc.push((v as u8) as char);
                            i = i + 6;
                        } else {
                            return None;
                        }
                    },
                    _ => {
                        return None;
                    },
                }
            } else {
                return None;
            }
        } else if (c as u32) < 0x20 {
            return None;
        } else {
            acc.push(c);
            i = i + 1;
        }
    }
}

/// Parse a string or the null literal at position `i`.
fn parse_opt_string_exec(s: &Vec<char>, i: usize) -> (r: Option<(Option<String>, usize)>)
    ensures
        match r {
            Some((v, j)) => parse_opt_string(s@, i as int) == Some(
                (
                    match v {
                        Some(t) => Some(t@),
                        None => None,
                    },
                    j as int,
                ),
            ) && i < j <= s@.len(),
            None => parse_opt_string(s@, i as int) is None,
        },
{
    if let Some(j) = expect_lit(s, i, "null") {
        proof {
            reveal_strlit("null");
        }
        return Some((None, j));
    }
    if i < s.len() && s[i] == '"' {
        let mut body: Vec<char> = Vec::new();
        match parse_string_body_exec(s, i + 1, &mut body) {
            Some(j) => Some((Some(string_from_chars(body)), j)),
            None => None,
        }
    } else {
        None
    }
}

/// Parse an `extensions` value at position `i`.
fn parse_extensions_exec(s: &Vec<char>, i: usize) -> (r: Option<(Option<String>, usize)>)
    ensures
        match r {
            Some((v, j)) => parse_extensions(s@, i as int) == Some(
                (
                    match v {
                        Some(t) => Some(t@),
                        None => None,
                    },
                    j as int,
                ),
            ) && i < j <= s@.len(),
            None => parse_extensions(s@, i as int) is None,
        },
{
    if let Some(j) = expect_lit(s, i, "null") {
        proof {
            reveal_strlit("null");
        }
        return Some((None, j));
    }
    match expect_lit(s, i, "{\"code\":\"") {
        Some(j) => {
            let mut body: Vec<char> = Vec::new();
            match parse_string_body_exec(s, j, &mut body) {
                Some(k) => {
                    if k < s.len() && s[k] == '}' {
                        Some((Some(string_from_chars(body)), k + 1))
                    } else {
                        None
                    }
                },
                None => None,
            }
        },
        None => None,
    }
}

/// Parse one error object at position `i`.
fn parse_error_obj_exec(s: &Vec<char>, i: usize) -> (r: Option<(DeliveredError, usize)>)
    ensures
        match r {
            Some((e, j)) => parse_error_obj(s@, i as int) == Some((e@, j as int)) && i < j
                && j <= s@.len(),
            None => parse_error_obj(s@, i as int) is None,
        },
{
    match expect_lit(s, i, "{\"message\":") {
        Some(j) => {
            match parse_opt_string_exec(s, j) {
                Some((m, k)) => {
                    match expect_lit(s, k, ",\"extensions\":") {
                        Some(k2) => {
                            match parse_extensions_exec(s, k2) {
                                Some((c, k3)) => {
                                    if k3 < s.len() && s[k3] == '}' {
                                        Some((DeliveredError { message: m, code: c }, k3 + 1))
                                    } else {
                                        None
                                    }
                                },
                                None => None,
                            }
                        },
                        None => None,
                    }
                },
                None => None,
            }
        },
        None => None,
    }
}

/// Parse the comma-separated error objects of an error list from `start`,
/// up to and including the closing bracket.
fn parse_errors_exec(s: &Vec<char>, start: usize, out: &mut Vec<DeliveredError>) -> (r: Option<
    usize,
>)
    ensures
        match r {
            Some(j) => parse_errors(s@, start as int, delivered_errors_view(old(out)@)) == Some(
                (delivered_errors_view(final(out)@), j as int),
            ) && j <= s@.len(),
            None => parse_errors(s@, start as int, delivered_errors_view(old(out)@)) is None,
        },
{
    let mut i: usize = start;
    loop
        invariant
            start <= i,
            parse_errors(s@, start as int, delivered_errors_view(old(out)@)) == parse_errors(
                s@,
                i as int,
                delivered_errors_view(out@),
            ),
        decreases s@.len() - i,
    {
        let ghost o0 = delivered_errors_view(out@);
        match parse_error_obj_exec(s, i) {
            None => {
                return None;
            },
            Some((e, j)) => {
                out.push(e);
                proof {
                    assert(delivered_errors_view(out@) =~= o0.push(e@));
                }
                if j < s.len() && s[j] == ',' {
                    i = j + 1;
                } else if j < s.len() && s[j] == ']' {
                    return Some(j + 1);
                } else {
                    return None;
                }
            },
        }
    }
}

/// Decode a delivered payload into its typed form.  Decoding yields a value
/// exactly when the payload has the interchange shape this module defines;
/// on any other text it yields nothing, and the caller treats the payload
/// as an internal contract violation.
pub fn decode_payload(payload: &str) -> (r: Option<DecodedPayload>)
    ensures
        match r {
            Some(p) => parse_payload(payload@) == Some(p@),
            None => parse_payload(payload@) is None,
        },
{
    let s = str_chars(payload);
    if let Some(j) = expect_lit(&s, 0, "{\"data\":\"") {
        let mut body: Vec<char> = Vec::new();
        match parse_string_body_exec(&s, j, &mut body) {
            Some(k) => {
                if k < s.len() && k + 1 == s.len() && s[k] == '}' {
                    Some(DecodedPayload::Data(string_from_chars(body)))
                } else {
                    None
                }
            },
            None => None,
        }
    } else if let Some(j) = expect_lit(&s, 0, "{\"errors\":[") {
        let mut errs: Vec<DeliveredError> = Vec::new();
        proof {
            assert(delivered_errors_view(Seq::<DeliveredError>::empty()) =~= Seq::<
                SpecGraphQlError,
            >::empty());
        }
        match parse_errors_exec(&s, j, &mut errs) {
            Some(k) => {
                if k < s.len() && k + 1 == s.len() && s[k] == '}' && errs.len() > 0 {
                    Some(DecodedPayload::Errors(errs))
                } else {
                    None
                }
            },
            None => None,
        }
    } else {
        None
    }
}

} // verus!
