//! The data marshaler: turns typed requests into the textual
//! data-interchange form that is injected into the execution environment as
//! a global binding.
//!
//! Request strings (schema text, query text) may contain arbitrary
//! characters, including quotes and control characters.  They are therefore
//! never concatenated raw into executable syntax: every string is encoded
//! through [`json_string`], which escapes quotes, backslashes and control
//! characters, so that content from one subgraph's schema can never corrupt
//! the execution of the bridge itself.

use vstd::prelude::*;
use vstd::string::StrSliceExecFns;

use crate::compose::ServiceDefinition;
use crate::compose::SpecServiceDefinition;
use crate::plan::OperationalContext;
use crate::plan::QueryPlanOptions;
use crate::plan::SpecOperationalContext;

verus! {

/// The lower-case hexadecimal digit for a value below sixteen.
pub open spec fn hex_digit(n: int) -> char {
    if n == 0 {
        '0'
    } else if n == 1 {
        '1'
    } else if n == 2 {
        '2'
    } else if n == 3 {
        '3'
    } else if n == 4 {
        '4'
    } else if n == 5 {
        '5'
    } else if n == 6 {
        '6'
    } else if n == 7 {
        '7'
    } else if n == 8 {
        '8'
    } else if n == 9 {
        '9'
    } else if n == 10 {
        'a'
    } else if n == 11 {
        'b'
    } else if n == 12 {
        'c'
    } else if n == 13 {
        'd'
    } else if n == 14 {
        'e'
    } else {
        'f'
    }
}

/// How one character appears inside an encoded string: quotes and
/// backslashes are escaped, the common control characters get their named
/// escapes, every other control character becomes a four-digit escape, and
/// everything else stands for itself.
pub open spec fn escaped_char(c: char) -> Seq<char> {
    if c == '"' {
        seq!['\\', '"']
    } else if c == '\\' {
        seq!['\\', '\\']
    } else if c == '\n' {
        seq!['\\', 'n']
    } else if c == '\r' {
        seq!['\\', 'r']
    } else if c == '\t' {
        seq!['\\', 't']
    } else if (c as u32) < 0x20 {
        seq!['\\', 'u', '0', '0', hex_digit((c as u32) as int / 16), hex_digit((c as u32) as int % 16)]
    } else {
        seq![c]
    }
}

/// The escaped form of a whole character sequence.
pub open spec fn escape_chars(s: Seq<char>) -> Seq<char>
    decreases s.len(),
{
    if s.len() == 0 {
        Seq::empty()
    } else {
        escape_chars(s.drop_last()) + escaped_char(s.last())
    }
}

/// A string encoded for injection: quoted and escaped.
pub open spec fn json_string(s: Seq<char>) -> Seq<char> {
    seq!['"'] + escape_chars(s) + seq!['"']
}

/// The encoded form of a boolean.
pub open spec fn bool_text(b: bool) -> Seq<char> {
    if b {
        "true"@
    } else {
        "false"@
    }
}

/// The encoded form of one service definition, with the field names in the
/// casing convention the embedded module expects.
pub open spec fn service_text(d: SpecServiceDefinition) -> Seq<char> {
    "{\"name\":"@ + json_string(d.name) + ",\"url\":"@ + json_string(d.url) + ",\"typeDefs\":"@
        + json_string(d.type_defs) + "}"@
}

/// The encoded forms of a sequence of service definitions, separated by
/// commas, in their original order.
pub open spec fn services_text(l: Seq<SpecServiceDefinition>) -> Seq<char>
    decreases l.len(),
{
    if l.len() == 0 {
        Seq::empty()
    } else if l.len() == 1 {
        service_text(l[0])
    } else {
        services_text(l.drop_last()) + ","@ + service_text(l.last())
    }
}

/// The models of the services in a list, in order.
pub open spec fn services_view(l: Seq<ServiceDefinition>) -> Seq<SpecServiceDefinition> {
    l.map_values(|d: ServiceDefinition| d@)
}

/// The global assignment that makes a service list visible to the
/// entry-point script.
pub open spec fn service_list_injection(l: Seq<SpecServiceDefinition>) -> Seq<char> {
    "serviceList = ["@ + services_text(l) + "]"@
}

/// The global assignment that makes a planning context visible to the
/// entry-point script.
pub open spec fn context_injection(c: SpecOperationalContext) -> Seq<char> {
    "context = {\"schema\":"@ + json_string(c.schema) + ",\"query\":"@ + json_string(c.query)
        + ",\"operation\":"@ + json_string(c.operation) + "}"@
}

/// The global assignment that makes the planning options visible to the
/// entry-point script.
pub open spec fn options_injection(auto_fragmentization: bool) -> Seq<char> {
    "options = {\"autoFragmentization\":"@ + bool_text(auto_fragmentization) + "}"@
}

/// Relies on `String`'s `FromIterator<char>` implementation: collecting an
/// iterator of characters yields a string of exactly those characters, in
/// order.
#[verifier::external_body]
pub(crate) fn string_from_chars(v: Vec<char>) -> (r: String)
    ensures
        r@ == v@,
{
    v.into_iter().collect()
}

/// The lower-case hexadecimal digit for a value below sixteen.
fn hex_digit_exec(n: u32) -> (r: char)
    requires
        n < 16,
    ensures
        r == hex_digit(n as int),
{
    if n == 0 {
        '0'
    } else if n == 1 {
        '1'
    } else if n == 2 {
        '2'
    } else if n == 3 {
        '3'
    } else if n == 4 {
        '4'
    } else if n == 5 {
        '5'
    } else if n == 6 {
        '6'
    } else if n == 7 {
        '7'
    } else if n == 8 {
        '8'
    } else if n == 9 {
        '9'
    } else if n == 10 {
        'a'
    } else if n == 11 {
        'b'
    } else if n == 12 {
        'c'
    } else if n == 13 {
        'd'
    } else if n == 14 {
        'e'
    } else {
        'f'
    }
}

/// Append the escaped form of one character.
fn push_escaped(out: &mut Vec<char>, c: char)
    ensures
        final(out)@ == old(out)@ + escaped_char(c),
{
    if c == '"' {
        out.push('\\');
        out.push('"');
    } else if c == '\\' {
        out.push('\\');
        out.push('\\');
    } else if c == '\n' {
        out.push('\\');
        out.push('n');
    } else if c == '\r' {
        out.push('\\');
        out.push('r');
    } else if c == '\t' {
        out.push('\\');
        out.push('t');
    } else if (c as u32) < 0x20 {
        let v: u32 = c as u32;
        out.push('\\');
        out.push('u');
        out.push('0');
        out.push('0');
        out.push(hex_digit_exec(v / 16));
        out.push(hex_digit_exec(v % 16));
    } else {
        out.push(c);
    }
    proof {
        assert(out@ =~= old(out)@ + escaped_char(c));
    }
}

/// Append the characters of a string, unescaped.
fn push_str_chars(out: &mut Vec<char>, s: &str)
    ensures
        final(out)@ == old(out)@ + s@,
{
    let n = s.unicode_len();
    let mut i: usize = 0;
    while i < n
        invariant
            n == s@.len(),
            i <= n,
            out@ == old(out)@ + s@.take(i as int),
        decreases n - i,
    {
        out.push(s.get_char(i));
        proof {
            assert(s@.take(i + 1 as int) =~= s@.take(i as int).push(s@[i as int]));
        }
        i += 1;
    }
    proof {
        assert(s@.take(n as int) =~= s@);
    }
}

/// Append a string in its encoded, quoted form.
fn push_json_string(out: &mut Vec<char>, s: &str)
    ensures
        final(out)@ == old(out)@ + json_string(s@),
{
    out.push('"');
    let n = s.unicode_len();
    let mut i: usize = 0;
    while i < n
        invariant
            n == s@.len(),
            i <= n,
            out@ == old(out)@ + seq!['"'] + escape_chars(s@.take(i as int)),
        decreases n - i,
    {
        let c = s.get_char(i);
        push_escaped(out, c);
        proof {
            assert(s@.take(i + 1 as int).drop_last() =~= s@.take(i as int));
            assert(s@.take(i + 1 as int).last() == s@[i as int]);
        }
        i += 1;
    }
    out.push('"');
    proof {
        assert(s@.take(n as int) =~= s@);
        assert(out@ =~= old(out)@ + json_string(s@));
    }
}

/// Serialize a service list into the global assignment evaluated in the
/// execution environment, preserving the order of the services.
pub fn marshal_service_list(list: &Vec<ServiceDefinition>) -> (r: String)
    ensures
        r@ == service_list_injection(services_view(list@)),
{
    let mut out: Vec<char> = Vec::new();
    push_str_chars(&mut out, "serviceList = [");
    let ghost l = services_view(list@);
    let mut i: usize = 0;
    while i < list.len()
        invariant
            l == services_view(list@),
            l.len() == list@.len(),
            i <= list@.len(),
            out@ == "serviceList = ["@ + services_text(l.take(i as int)),
        decreases list@.len() - i,
    {
        if i > 0 {
            push_str_chars(&mut out, ",");
        }
        let d = &list[i];
        push_str_chars(&mut out, "{\"name\":");
        push_json_string(&mut out, d.name.as_str());
        push_str_chars(&mut out, ",\"url\":");
        push_json_string(&mut out, d.url.as_str());
        push_str_chars(&mut out, ",\"typeDefs\":");
        push_json_string(&mut out, d.type_defs.as_str());
        push_str_chars(&mut out, "}");
        proof {
            assert(l.take(i + 1 as int).drop_last() =~= l.take(i as int));
            assert(l.take(i + 1 as int).last() == l[i as int]);
            assert(l[i as int] == list@[i as int]@);
            assert(out@ =~= "serviceList = ["@ + services_text(l.take(i + 1 as int)));
        }
        i += 1;
    }
    push_str_chars(&mut out, "]");
    proof {
        assert(l.take(l.len() as int) =~= l);
        assert(out@ =~= service_list_injection(l));
    }
    string_from_chars(out)
}

/// Serialize a planning context into the global assignment evaluated in the
/// execution environment.
pub fn marshal_context(context: &OperationalContext) -> (r: String)
    ensures
        r@ == context_injection(context@),
{
    let mut out: Vec<char> = Vec::new();
    push_str_chars(&mut out, "context = {\"schema\":");
    push_json_string(&mut out, context.schema.as_str());
    push_str_chars(&mut out, ",\"query\":");
    push_json_string(&mut out, context.query.as_str());
    push_str_chars(&mut out, ",\"operation\":");
    push_json_string(&mut out, context.operation.as_str());
    push_str_chars(&mut out, "}");
    proof {
        assert(out@ =~= context_injection(context@));
    }
    string_from_chars(out)
}

/// Serialize the planning options into the global assignment evaluated in
/// the execution environment.
pub fn marshal_options(options: &QueryPlanOptions) -> (r: String)
    ensures
        r@ == options_injection(options@),
{
    let mut out: Vec<char> = Vec::new();
    push_str_chars(&mut out, "options = {\"autoFragmentization\":");
    if options.auto_fragmentization {
        push_str_chars(&mut out, "true");
    } else {
        push_str_chars(&mut out, "false");
    }
    push_str_chars(&mut out, "}");
    proof {
        assert(out@ =~= options_injection(options@));
    }
    string_from_chars(out)
}

} // verus!
