//! The interchange form on the wire, and its losslessness.
//!
//! This module gives the canonical encoded form of a delivered payload —
//! the shape a well-formed embedded module hands to the result capability —
//! and proves that decoding recovers exactly what was encoded: the
//! marshaler's string encoding loses nothing, however hostile the encoded
//! text, and a payload survives the trip through the environment intact.

use vstd::prelude::*;

use crate::decode::at_lit;
use crate::decode::hex_value;
use crate::decode::parse_error_obj;
use crate::decode::parse_errors;
use crate::decode::parse_extensions;
use crate::decode::parse_opt_string;
use crate::decode::parse_payload;
use crate::decode::parse_string_body;
use crate::decode::SpecGraphQlError;
use crate::decode::SpecPayload;
use crate::marshal::escape_chars;
use crate::marshal::escaped_char;
use crate::marshal::hex_digit;
use crate::marshal::json_string;

verus! {

/// A hexadecimal digit reads back as its value.
proof fn lemma_hex_digit_value(d: int)
    requires
        0 <= d < 16,
    ensures
        hex_value(hex_digit(d)) == d,
{
}

/// Escaping distributes over concatenation.
proof fn lemma_escape_concat(a: Seq<char>, b: Seq<char>)
    ensures
        escape_chars(a + b) == escape_chars(a) + escape_chars(b),
    decreases b.len(),
{
    if b.len() == 0 {
        assert(a + b =~= a);
        assert(escape_chars(a) + escape_chars(b) =~= escape_chars(a));
    } else {
        lemma_escape_concat(a, b.drop_last());
        assert((a + b).drop_last() =~= a + b.drop_last());
        assert((a + b).last() == b.last());
        assert(escape_chars(a) + escape_chars(b.drop_last()) + escaped_char(b.last()) =~= escape_chars(
            a,
        ) + escape_chars(b));
    }
}

/// Escaping peels one character off the front.
proof fn lemma_escape_first(s: Seq<char>)
    requires
        s.len() > 0,
    ensures
        escape_chars(s) == escaped_char(s[0]) + escape_chars(s.drop_first()),
{
    let one = seq![s[0]];
    assert(s =~= one + s.drop_first());
    lemma_escape_concat(one, s.drop_first());
    assert(one.drop_last() =~= Seq::<char>::empty());
    assert(escape_chars(Seq::<char>::empty()) =~= Seq::<char>::empty());
    assert(escape_chars(one) == escape_chars(one.drop_last()) + escaped_char(one.last()));
    assert(escape_chars(one) =~= escaped_char(s[0]));
}

/// The crux of losslessness: wherever the escaped form of `s`, followed by
/// a closing quote, stands in a larger text, the string parser recovers
/// exactly `s` and stops just past that quote.
proof fn lemma_parse_escaped(big: Seq<char>, i: int, acc: Seq<char>, s: Seq<char>)
    requires
        0 <= i,
        i + escape_chars(s).len() + 1 <= big.len(),
        big.subrange(i, i + escape_chars(s).len() + 1) == escape_chars(s) + seq!['"'],
    ensures
        parse_string_body(big, i, acc) == Some::<(Seq<char>, int)>(
            (acc + s, i + escape_chars(s).len() + 1),
        ),
    decreases s.len(),
{
    let e = escape_chars(s);
    let piece = e + seq!['"'];
    assert forall|k: int| 0 <= k < piece.len() implies big[i + k] == piece[k] by {
        assert(big.subrange(i, i + e.len() + 1)[k] == big[i + k]);
    }
    assert(big[i] == piece[0]) by {
        assert(big[i + 0] == piece[0]);
    }
    if s.len() == 0 {
        assert(big[i] == '"');
        assert(acc + s =~= acc);
    } else {
        let c = s[0];
        let rest = s.drop_first();
        lemma_escape_first(s);
        let ec = escaped_char(c);
        let e2 = escape_chars(rest);
        assert forall|k: int| 0 <= k < ec.len() implies big[i + k] == ec[k] by {
            assert(piece[k] == ec[k]);
        }
        let j = i + ec.len();
        assert(big.subrange(j, j + e2.len() + 1) =~= e2 + seq!['"']) by {
            assert forall|k: int| 0 <= k < e2.len() + 1 implies big.subrange(
                j,
                j + e2.len() + 1,
            )[k] == (e2 + seq!['"'])[k] by {
                assert(big.subrange(j, j + e2.len() + 1)[k] == big[j + k]);
                assert(big[j + k] == piece[ec.len() + k]);
                assert(piece[ec.len() + k] == (e2 + seq!['"'])[k]);
            }
        }
        lemma_parse_escaped(big, j, acc.push(c), rest);
        assert(acc.push(c) + rest =~= acc + s);
        if c == '"' {
            assert(big[i] == '\\' && big[i + 1] == '"');
        } else if c == '\\' {
            assert(big[i] == '\\' && big[i + 1] == '\\');
        } else if c == '\n' {
            assert(big[i] == '\\' && big[i + 1] == 'n');
        } else if c == '\r' {
            assert(big[i] == '\\' && big[i + 1] == 'r');
        } else if c == '\t' {
            assert(big[i] == '\\' && big[i + 1] == 't');
        } else if (c as u32) < 0x20 {
            let v = c as u32;
            assert(big[i] == '\\' && big[i + 1] == 'u' && big[i + 2] == '0' && big[i + 3] == '0'
                && big[i + 4] == hex_digit(v as int / 16) && big[i + 5] == hex_digit(
                v as int % 16,
            ));
            lemma_hex_digit_value(v as int / 16);
            lemma_hex_digit_value(v as int % 16);
            let w = hex_value(big[i + 2]) * 4096 + hex_value(big[i + 3]) * 256 + hex_value(
                big[i + 4],
            ) * 16 + hex_value(big[i + 5]);
            assert(w == v);
            vstd::utf8::char_u32_cast(c, v);
            assert((w as u8) as u32 == v);
            assert(((w as u8) as char) == c);
        } else {
            assert(big[i] == c);
            assert(c != '"' && c != '\\' && (c as u32) >= 0x20);
        }
    }
}

/// Law: the string encoding is lossless.  Any character sequence — quotes,
/// backslashes, control characters included — reads back from its encoded,
/// quoted form as exactly itself.
pub proof fn lemma_string_encoding_lossless(s: Seq<char>)
    ensures
        parse_string_body(json_string(s), 1, Seq::<char>::empty()) == Some::<(Seq<char>, int)>(
            (s, json_string(s).len() as int),
        ),
{
    let t = json_string(s);
    let e = escape_chars(s);
    assert(t.subrange(1, 1 + e.len() as int + 1) =~= e + seq!['"']);
    lemma_parse_escaped(t, 1, Seq::<char>::empty(), s);
    assert(Seq::<char>::empty() + s =~= s);
}

/// The canonical encoded form of an error's message: a string or null.
pub open spec fn opt_string_json(m: Option<Seq<char>>) -> Seq<char> {
    match m {
        None => "null"@,
        Some(s) => json_string(s),
    }
}

/// The canonical encoded form of an error's extensions: null, or an object
/// carrying one code string.
pub open spec fn extensions_json(c: Option<Seq<char>>) -> Seq<char> {
    match c {
        None => "null"@,
        Some(s) => "{\"code\":"@ + json_string(s) + "}"@,
    }
}

/// The canonical encoded form of one error.
pub open spec fn error_json(e: SpecGraphQlError) -> Seq<char> {
    "{\"message\":"@ + opt_string_json(e.message) + ",\"extensions\":"@ + extensions_json(e.code)
        + "}"@
}

/// The canonical encoded forms of a sequence of errors, comma-separated.
pub open spec fn errors_json(l: Seq<SpecGraphQlError>) -> Seq<char>
    decreases l.len(),
{
    if l.len() == 0 {
        Seq::empty()
    } else if l.len() == 1 {
        error_json(l[0])
    } else {
        error_json(l[0]) + ","@ + errors_json(l.drop_first())
    }
}

/// The canonical encoded form of a whole payload: what a well-formed
/// embedded module hands to the result capability.
pub open spec fn payload_json(p: SpecPayload) -> Seq<char> {
    match p {
        SpecPayload::Data(s) => "{\"data\":"@ + json_string(s) + "}"@,
        SpecPayload::Errors(l) => "{\"errors\":["@ + errors_json(l) + "]}"@,
    }
}

/// A literal made of two pieces stands wherever the pieces stand in turn.
proof fn lemma_at_lit_split(big: Seq<char>, i: int, a: Seq<char>, b: Seq<char>)
    requires
        at_lit(big, i, a + b),
    ensures
        at_lit(big, i, a),
        at_lit(big, i + a.len() as int, b),
{
    let ab = a + b;
    assert forall|k: int| 0 <= k < ab.len() implies big[i + k] == ab[k] by {
        assert(big.subrange(i, i + ab.len() as int)[k] == big[i + k]);
    }
    assert(big.subrange(i, i + a.len() as int) =~= a) by {
        assert forall|k: int| 0 <= k < a.len() implies big.subrange(i, i + a.len() as int)[k]
            == a[k] by {
            assert(big.subrange(i, i + a.len() as int)[k] == big[i + k]);
            assert(ab[k] == a[k]);
        }
    }
    let j = i + a.len() as int;
    assert(big.subrange(j, j + b.len() as int) =~= b) by {
        assert forall|k: int| 0 <= k < b.len() implies big.subrange(j, j + b.len() as int)[k]
            == b[k] by {
            assert(big.subrange(j, j + b.len() as int)[k] == big[j + k]);
            assert(big[i + (a.len() + k)] == ab[a.len() + k]);
            assert(ab[a.len() + k] == b[k]);
        }
    }
}

/// Each character of a literal stands at its position.
proof fn lemma_at_lit_index(big: Seq<char>, i: int, lit: Seq<char>, k: int)
    requires
        at_lit(big, i, lit),
        0 <= k < lit.len(),
    ensures
        big[i + k] == lit[k],
{
    assert(big.subrange(i, i + lit.len() as int)[k] == big[i + k]);
}

/// Wherever the encoded form of a message stands, the parser recovers
/// exactly that message.
proof fn lemma_parse_opt_string_at(big: Seq<char>, i: int, m: Option<Seq<char>>)
    requires
        at_lit(big, i, opt_string_json(m)),
    ensures
        parse_opt_string(big, i) == Some::<(Option<Seq<char>>, int)>(
            (m, i + opt_string_json(m).len()),
        ),
{
    reveal_strlit("null");
    match m {
        None => {
            assert(at_lit(big, i, "null"@));
        },
        Some(s) => {
            let js = json_string(s);
            assert(js =~= seq!['"'] + (escape_chars(s) + seq!['"']));
            lemma_at_lit_split(big, i, seq!['"'], escape_chars(s) + seq!['"']);
            lemma_at_lit_index(big, i, seq!['"'], 0);
            assert(big[i] == '"');
            assert(!at_lit(big, i, "null"@)) by {
                if at_lit(big, i, "null"@) {
                    lemma_at_lit_index(big, i, "null"@, 0);
                }
            }
            lemma_parse_escaped(big, i + 1, Seq::<char>::empty(), s);
            assert(Seq::<char>::empty() + s =~= s);
        },
    }
}

/// Wherever the encoded form of an extensions value stands, the parser
/// recovers exactly that value.
proof fn lemma_parse_extensions_at(big: Seq<char>, i: int, c: Option<Seq<char>>)
    requires
        at_lit(big, i, extensions_json(c)),
    ensures
        parse_extensions(big, i) == Some::<(Option<Seq<char>>, int)>(
            (c, i + extensions_json(c).len()),
        ),
{
    reveal_strlit("null");
    reveal_strlit("{\"code\":");
    reveal_strlit("{\"code\":\"");
    reveal_strlit("}");
    match c {
        None => {
            assert(at_lit(big, i, "null"@));
        },
        Some(s) => {
            let enc = extensions_json(c);
            let lit9 = "{\"code\":\""@;
            let tail = (escape_chars(s) + seq!['"']) + "}"@;
            assert(enc =~= lit9 + tail);
            lemma_at_lit_split(big, i, lit9, tail);
            assert(!at_lit(big, i, "null"@)) by {
                if at_lit(big, i, "null"@) {
                    lemma_at_lit_index(big, i, "null"@, 0);
                    lemma_at_lit_index(big, i, lit9, 0);
                }
            }
            let j = i + lit9.len() as int;
            lemma_at_lit_split(big, j, escape_chars(s) + seq!['"'], "}"@);
            lemma_parse_escaped(big, j, Seq::<char>::empty(), s);
            assert(Seq::<char>::empty() + s =~= s);
            let k = j + escape_chars(s).len() + 1;
            lemma_at_lit_index(big, k, "}"@, 0);
            assert(big[k] == '}');
        },
    }
}

/// Wherever the encoded form of one error stands, the parser recovers
/// exactly that error and stops just past it.
proof fn lemma_parse_error_obj_at(big: Seq<char>, i: int, e: SpecGraphQlError)
    requires
        at_lit(big, i, error_json(e)),
    ensures
        parse_error_obj(big, i) == Some::<(SpecGraphQlError, int)>((e, i + error_json(e).len())),
        error_json(e).len() > 0,
{
    reveal_strlit("{\"message\":");
    reveal_strlit(",\"extensions\":");
    reveal_strlit("}");
    let mlit = "{\"message\":"@;
    let xlit = ",\"extensions\":"@;
    let enc = error_json(e);
    let tail1 = opt_string_json(e.message) + (xlit + (extensions_json(e.code) + "}"@));
    assert(enc =~= mlit + tail1);
    lemma_at_lit_split(big, i, mlit, tail1);
    let j = i + mlit.len() as int;
    lemma_at_lit_split(big, j, opt_string_json(e.message), xlit + (extensions_json(e.code) + "}"@));
    lemma_parse_opt_string_at(big, j, e.message);
    let k = j + opt_string_json(e.message).len() as int;
    lemma_at_lit_split(big, k, xlit, extensions_json(e.code) + "}"@);
    let k2 = k + xlit.len() as int;
    lemma_at_lit_split(big, k2, extensions_json(e.code), "}"@);
    lemma_parse_extensions_at(big, k2, e.code);
    let k3 = k2 + extensions_json(e.code).len() as int;
    lemma_at_lit_index(big, k3, "}"@, 0);
    assert(big[k3] == '}');
    assert(e == (SpecGraphQlError { message: e.message, code: e.code }));
}

/// Wherever the encoded, bracket-terminated form of a non-empty error list
/// stands, the parser recovers exactly those errors, in order.
proof fn lemma_parse_errors_at(big: Seq<char>, i: int, acc: Seq<SpecGraphQlError>, l: Seq<
    SpecGraphQlError,
>)
    requires
        l.len() > 0,
        at_lit(big, i, errors_json(l) + seq![']']),
    ensures
        parse_errors(big, i, acc) == Some::<(Seq<SpecGraphQlError>, int)>(
            (acc + l, i + errors_json(l).len() + 1),
        ),
    decreases l.len(),
{
    reveal_strlit(",");
    if l.len() == 1 {
        assert(errors_json(l) + seq![']'] =~= error_json(l[0]) + seq![']']);
        lemma_at_lit_split(big, i, error_json(l[0]), seq![']']);
        lemma_parse_error_obj_at(big, i, l[0]);
        let j = i + error_json(l[0]).len() as int;
        lemma_at_lit_index(big, j, seq![']'], 0);
        assert(big[j] == ']');
        assert(acc.push(l[0]) =~= acc + l);
    } else {
        let rest = l.drop_first();
        assert(errors_json(l) + seq![']'] =~= error_json(l[0]) + (seq![','] + (errors_json(rest)
            + seq![']'])));
        lemma_at_lit_split(
            big,
            i,
            error_json(l[0]),
            seq![','] + (errors_json(rest) + seq![']']),
        );
        lemma_parse_error_obj_at(big, i, l[0]);
        let j = i + error_json(l[0]).len() as int;
        lemma_at_lit_split(big, j, seq![','], errors_json(rest) + seq![']']);
        lemma_at_lit_index(big, j, seq![','], 0);
        assert(big[j] == ',');
        lemma_parse_errors_at(big, j + 1, acc.push(l[0]), rest);
        assert(acc.push(l[0]) + rest =~= acc + l);
    }
}

/// Law: the interchange form is lossless.  Any payload — a success string
/// or a non-empty error list, with arbitrary message, code and data text —
/// reads back from its canonical encoded form as exactly itself: nothing a
/// well-formed embedded module delivers is dropped, reshaped or corrupted
/// on its way to the caller.
#[verifier::rlimit(100)]
pub proof fn lemma_payload_round_trip(p: SpecPayload)
    requires
        p matches SpecPayload::Errors(l) ==> l.len() > 0,
    ensures
        parse_payload(payload_json(p)) == Some(p),
{
    reveal_strlit("{\"data\":");
    reveal_strlit("{\"data\":\"");
    reveal_strlit("{\"errors\":[");
    reveal_strlit("}");
    reveal_strlit("]}");
    match p {
        SpecPayload::Data(s) => {
            let big = payload_json(p);
            let dlit = "{\"data\":\""@;
            let tail = (escape_chars(s) + seq!['"']) + "}"@;
            assert(big =~= dlit + tail);
            assert(at_lit(big, 0, dlit + tail)) by {
                assert(big.subrange(0, big.len() as int) =~= big);
            }
            lemma_at_lit_split(big, 0, dlit, tail);
            let j = dlit.len() as int;
            lemma_at_lit_split(big, j, escape_chars(s) + seq!['"'], "}"@);
            lemma_parse_escaped(big, j, Seq::<char>::empty(), s);
            assert(Seq::<char>::empty() + s =~= s);
            let k = j + escape_chars(s).len() + 1;
            lemma_at_lit_index(big, k, "}"@, 0);
            assert(big[k] == '}');
            assert(k + 1 == big.len());
        },
        SpecPayload::Errors(l) => {
            let big = payload_json(p);
            let elit = "{\"errors\":["@;
            let tail = (errors_json(l) + seq![']']) + "}"@;
            assert(big =~= elit + tail);
            assert(at_lit(big, 0, elit + tail)) by {
                assert(big.subrange(0, big.len() as int) =~= big);
            }
            lemma_at_lit_split(big, 0, elit, tail);
            let j = elit.len() as int;
            lemma_at_lit_split(big, j, errors_json(l) + seq![']'], "}"@);
            lemma_parse_errors_at(big, j, Seq::<SpecGraphQlError>::empty(), l);
            assert(Seq::<SpecGraphQlError>::empty() + l =~= l);
            let k = j + errors_json(l).len() + 1;
            lemma_at_lit_index(big, k, "}"@, 0);
            assert(big[k] == '}');
            assert(k + 1 == big.len());
            assert(at_lit(big, 0, "{\"errors\":["@));
            assert(!at_lit(big, 0, "{\"data\":\""@)) by {
                reveal_strlit("{\"data\":\"");
                if at_lit(big, 0, "{\"data\":\""@) {
                    lemma_at_lit_index(big, 0, "{\"data\":\""@, 2);
                    lemma_at_lit_index(big, 0, "{\"errors\":["@, 2);
                }
            }
            assert(parse_errors(big, "{\"errors\":["@.len() as int, Seq::<SpecGraphQlError>::empty())
                == Some::<(Seq<SpecGraphQlError>, int)>((l, k)));
            assert(parse_payload(big) == Some(SpecPayload::Errors(l)));
        },
    }
}

} // verus!
