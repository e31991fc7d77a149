//! Header fields and their translation into transport-level header lines.
//!
//! A header value may hold arbitrary bytes; only values made of visible
//! ASCII (or horizontal tab) can be written on the wire as a `Name: Value`
//! line. A value that cannot is reported with a message naming the header
//! and its raw bytes.
use vstd::prelude::*;
use vstd::string::StringExecFns;

verus! {

/// One header field: a name and a raw byte value.
#[derive(Clone, Debug)]
pub struct HeaderField {
    pub name: String,
    pub value: Vec<u8>,
}

/// A byte that can stand in a header line on the wire: visible ASCII,
/// space, or horizontal tab.
pub open spec fn byte_is_representable(b: u8) -> bool {
    (32 <= b && b < 127) || b == 9
}

/// A header value all of whose bytes can stand on the wire.
pub open spec fn value_representable(v: Seq<u8>) -> bool {
    forall|i: int| 0 <= i < v.len() ==> byte_is_representable(#[trigger] v[i])
}

/// The characters spelled by a sequence of ASCII bytes.
pub open spec fn bytes_as_chars(v: Seq<u8>) -> Seq<char> {
    v.map_values(|b: u8| b as char)
}

/// The transport-level line for one header field: `Name: Value`.
pub open spec fn header_line_chars(name: Seq<char>, value: Seq<u8>) -> Seq<char> {
    name + seq![':', ' '] + bytes_as_chars(value)
}

/// The decimal spelling of one byte, in ASCII digit bytes.
pub open spec fn dec_bytes(n: u8) -> Seq<u8> {
    if n < 10 {
        seq![(48 + n) as u8]
    } else if n < 100 {
        seq![(48 + n / 10) as u8, (48 + n % 10) as u8]
    } else {
        seq![(48 + n / 100) as u8, (48 + (n / 10) % 10) as u8, (48 + n % 10) as u8]
    }
}

/// The bytes between the brackets of a byte list's rendering:
/// decimal spellings joined by `, `.
pub open spec fn debug_list_inner(v: Seq<u8>) -> Seq<u8>
    decreases v.len(),
{
    if v.len() == 0 {
        Seq::<u8>::empty()
    } else if v.len() == 1 {
        dec_bytes(v[0])
    } else {
        debug_list_inner(v.drop_last()) + seq![44u8, 32u8] + dec_bytes(v.last())
    }
}

/// The rendering of a byte list: `[65, 66, 67]`.
pub open spec fn debug_list_bytes(v: Seq<u8>) -> Seq<u8> {
    seq![91u8] + debug_list_inner(v) + seq![93u8]
}

/// The message reported for a header value that cannot stand on the wire,
/// naming the offending header and its raw bytes.
pub open spec fn invalid_value_msg_chars(name: Seq<char>, value: Seq<u8>) -> Seq<char> {
    "invalid "@ + name + " header value "@ + bytes_as_chars(debug_list_bytes(value))
}

/// Relies on `String::from_utf8`: bytes below 128 are one-byte UTF-8
/// encodings of the characters with the same code points, so they decode
/// to exactly those characters.
#[verifier::external_body]
pub(crate) fn ascii_string(bytes: &Vec<u8>) -> (r: String)
    requires
        forall|i: int| 0 <= i < bytes@.len() ==> bytes@[i] < 128,
    ensures
        r@ == bytes_as_chars(bytes@),
{
    match String::from_utf8(bytes.clone()) {
        Ok(s) => s,
        Err(_) => String::new(),
    }
}

/// Whether every byte of the value can stand on the wire.
pub fn value_is_representable(v: &Vec<u8>) -> (b: bool)
    ensures
        b == value_representable(v@),
{
    let mut i: usize = 0;
    while i < v.len()
        invariant
            i <= v@.len(),
            forall|j: int| 0 <= j < i ==> byte_is_representable(#[trigger] v@[j]),
        decreases v@.len() - i,
    {
        let b = v[i];
        if !((32 <= b && b < 127) || b == 9) {
            return false;
        }
        i += 1;
    }
    true
}

/// The decimal digits of one byte.
pub fn dec_of(n: u8) -> (r: Vec<u8>)
    ensures
        r@ == dec_bytes(n),
{
    let mut r: Vec<u8> = Vec::new();
    if n >= 100 {
        r.push(48 + n / 100);
    }
    if n >= 10 {
        r.push(48 + (n / 10) % 10);
    }
    r.push(48 + n % 10);
    proof {
        assert(r@ =~= dec_bytes(n));
    }
    r
}

/// Renders a byte list as `[65, 66, 67]`.
pub fn render_byte_list(v: &Vec<u8>) -> (r: Vec<u8>)
    ensures
        r@ == debug_list_bytes(v@),
{
    let mut out: Vec<u8> = Vec::new();
    out.push(91);
    let mut i: usize = 0;
    while i < v.len()
        invariant
            i <= v@.len(),
            out@ == seq![91u8] + debug_list_inner(v@.take(i as int)),
        decreases v@.len() - i,
    {
        if i > 0 {
            out.push(44);
            out.push(32);
        }
        let mut digits = dec_of(v[i]);
        out.append(&mut digits);
        proof {
            let vv = v@.take(i as int + 1);
            assert(vv.drop_last() =~= v@.take(i as int));
            assert(vv.last() == v@[i as int]);
            if i == 0 {
                assert(debug_list_inner(vv) == dec_bytes(v@[0]));
            }
            assert(out@ =~= seq![91u8] + debug_list_inner(v@.take(i as int + 1)));
        }
        i += 1;
    }
    out.push(93);
    proof {
        assert(v@.take(v@.len() as int) =~= v@);
        assert(out@ =~= debug_list_bytes(v@));
    }
    out
}

/// Every byte of a decimal spelling is an ASCII digit.
pub proof fn lemma_dec_bytes_ascii(n: u8)
    ensures
        forall|i: int| 0 <= i < dec_bytes(n).len() ==> 48 <= #[trigger] dec_bytes(n)[i] <= 57,
{
    assert(n / 100 <= 2) by (nonlinear_arith);
    assert(n / 10 <= 25) by (nonlinear_arith);
    assert((n / 10) % 10 <= 9) by (nonlinear_arith);
    assert(n % 10 <= 9) by (nonlinear_arith);
}

/// Every byte between the brackets of a rendered byte list is ASCII.
pub proof fn lemma_debug_inner_ascii(v: Seq<u8>)
    ensures
        forall|i: int| 0 <= i < debug_list_inner(v).len() ==> #[trigger] debug_list_inner(
            v,
        )[i] < 128,
    decreases v.len(),
{
    if v.len() == 0 {
    } else if v.len() == 1 {
        lemma_dec_bytes_ascii(v[0]);
    } else {
        lemma_debug_inner_ascii(v.drop_last());
        lemma_dec_bytes_ascii(v.last());
        let pre = debug_list_inner(v.drop_last());
        let sep = seq![44u8, 32u8];
        let tail = dec_bytes(v.last());
        assert forall|i: int| 0 <= i < debug_list_inner(v).len() implies #[trigger] debug_list_inner(
            v,
        )[i] < 128 by {
            assert(debug_list_inner(v) == pre + sep + tail);
            if i < pre.len() {
                assert(debug_list_inner(v)[i] == pre[i]);
            } else if i < pre.len() + 2 {
                assert(debug_list_inner(v)[i] == sep[i - pre.len()]);
            } else {
                assert(debug_list_inner(v)[i] == tail[i - pre.len() - 2]);
            }
        }
    }
}

/// Every byte of a rendered byte list is ASCII.
pub proof fn lemma_debug_list_ascii(v: Seq<u8>)
    ensures
        forall|i: int| 0 <= i < debug_list_bytes(v).len() ==> #[trigger] debug_list_bytes(
            v,
        )[i] < 128,
{
    lemma_debug_inner_ascii(v);
    let inner = debug_list_inner(v);
    assert forall|i: int| 0 <= i < debug_list_bytes(v).len() implies #[trigger] debug_list_bytes(
        v,
    )[i] < 128 by {
        assert(debug_list_bytes(v) == seq![91u8] + inner + seq![93u8]);
        if 1 <= i < 1 + inner.len() {
            assert(debug_list_bytes(v)[i] == inner[i - 1]);
        }
    }
}

/// Builds the transport-level line for one header field.
pub fn make_header_line(name: &String, value: &Vec<u8>) -> (r: String)
    requires
        value_representable(value@),
    ensures
        r@ == header_line_chars(name@, value@),
{
    let mut line = name.clone();
    line.append(": ");
    let value_text = ascii_string(value);
    line.append(value_text.as_str());
    proof {
        reveal_strlit(": ");
        assert(": "@ =~= seq![':', ' ']);
        assert(line@ =~= header_line_chars(name@, value@));
    }
    line
}

/// Builds the message for a header value that cannot stand on the wire.
pub fn make_invalid_value_msg(name: &String, value: &Vec<u8>) -> (r: String)
    ensures
        r@ == invalid_value_msg_chars(name@, value@),
{
    let mut msg = String::from_str("invalid ");
    msg.append(name.as_str());
    msg.append(" header value ");
    let rendered = render_byte_list(value);
    proof {
        lemma_debug_list_ascii(value@);
    }
    let rendered_text = ascii_string(&rendered);
    msg.append(rendered_text.as_str());
    proof {
        assert(msg@ =~= invalid_value_msg_chars(name@, value@));
    }
    msg
}

} // verus!
