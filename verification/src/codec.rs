//! The canonical encoding: compact JSON, field order as declared, numbers in
//! decimal, identifiers as lowercase hex strings, maps keyed by hex in key
//! order. Digests and signatures are taken over these bytes.
use vstd::prelude::*;
use vstd::string::StringSliceAdditionalSpecFns;

use crate::bytemap::ByteMap;
use crate::bytes::{
    decimal, hex_digit, hex_digit_exec, hex_lower, is_digit, lemma_decimal_digits, lemma_decimal_injective,
    lemma_hex_injective, lemma_hex_len, write_decimal, write_hex,
};
use crate::error::HorizonResult;

verus! {

/// A value with a canonical byte encoding.
pub trait Canonical: View + Sized {
    /// The encoding of a value, given by its view.
    spec fn json(v: Self::V) -> Seq<u8>;

    /// Appends the encoding of `self`.
    fn write_json(&self, out: &mut Vec<u8>)
        ensures
            final(out)@ == old(out)@ + Self::json(self@),
    ;
}

/// The bytes of a literal piece of the encoding.
pub open spec fn lit(s: &str) -> Seq<u8> {
    s.spec_bytes()
}

pub fn write_lit(s: &str, out: &mut Vec<u8>)
    ensures
        final(out)@ == old(out)@ + lit(s),
{
    let b = s.as_bytes();
    out.extend_from_slice(b);
    assert(out@ =~= old(out)@ + lit(s));
}

/// How one byte of a string appears inside a JSON string literal: `"` and
/// `\` and the control bytes are escaped, every other byte stands as it is.
pub open spec fn json_escape_byte(b: u8) -> Seq<u8> {
    if b == 0x22 {
        seq![0x5cu8, 0x22u8]
    } else if b == 0x5c {
        seq![0x5cu8, 0x5cu8]
    } else if b == 0x08 {
        seq![0x5cu8, 0x62u8]
    } else if b == 0x09 {
        seq![0x5cu8, 0x74u8]
    } else if b == 0x0a {
        seq![0x5cu8, 0x6eu8]
    } else if b == 0x0c {
        seq![0x5cu8, 0x66u8]
    } else if b == 0x0d {
        seq![0x5cu8, 0x72u8]
    } else if b < 0x20 {
        seq![0x5cu8, 0x75u8, 0x30u8, 0x30u8, hex_digit(b / 16), hex_digit(b % 16)]
    } else {
        seq![b]
    }
}

pub open spec fn json_escape(bytes: Seq<u8>) -> Seq<u8>
    decreases bytes.len(),
{
    if bytes.len() == 0 {
        Seq::empty()
    } else {
        json_escape(bytes.drop_last()) + json_escape_byte(bytes.last())
    }
}

/// A JSON string literal holding the UTF-8 bytes `bytes`.
pub open spec fn json_string(bytes: Seq<u8>) -> Seq<u8> {
    seq![0x22u8] + json_escape(bytes) + seq![0x22u8]
}

fn write_escaped_byte(b: u8, out: &mut Vec<u8>)
    ensures
        final(out)@ == old(out)@ + json_escape_byte(b),
{
    if b == 0x22 {
        out.push(0x5c);
        out.push(0x22);
    } else if b == 0x5c {
        out.push(0x5c);
        out.push(0x5c);
    } else if b == 0x08 {
        out.push(0x5c);
        out.push(0x62);
    } else if b == 0x09 {
        out.push(0x5c);
        out.push(0x74);
    } else if b == 0x0a {
        out.push(0x5c);
        out.push(0x6e);
    } else if b == 0x0c {
        out.push(0x5c);
        out.push(0x66);
    } else if b == 0x0d {
        out.push(0x5c);
        out.push(0x72);
    } else if b < 0x20 {
        out.push(0x5c);
        out.push(0x75);
        out.push(0x30);
        out.push(0x30);
        out.push(hex_digit_exec(b / 16));
        out.push(hex_digit_exec(b % 16));
    } else {
        out.push(b);
    }
    assert(out@ =~= old(out)@ + json_escape_byte(b));
}

/// Appends `bytes` as a JSON string literal.
pub fn write_json_string(bytes: &[u8], out: &mut Vec<u8>)
    ensures
        final(out)@ == old(out)@ + json_string(bytes@),
{
    out.push(0x22);
    let ghost start = out@;
    let mut i: usize = 0;
    while i < bytes.len()
        invariant
            i <= bytes@.len(),
            out@ == start + json_escape(bytes@.subrange(0, i as int)),
        decreases bytes@.len() - i,
    {
        let ghost before = out@;
        write_escaped_byte(bytes[i], out);
        assert(bytes@.subrange(0, i + 1).drop_last() =~= bytes@.subrange(0, i as int));
        assert(out@ =~= start + json_escape(bytes@.subrange(0, i + 1)));
        i = i + 1;
    }
    assert(bytes@.subrange(0, i as int) =~= bytes@);
    out.push(0x22);
    assert(out@ =~= old(out)@ + json_string(bytes@));
}

/// A 32-byte identifier: a JSON string of its lowercase hex.
pub open spec fn json_hex(bytes: Seq<u8>) -> Seq<u8> {
    seq![0x22u8] + hex_lower(bytes) + seq![0x22u8]
}

pub fn write_json_hex(bytes: &[u8], out: &mut Vec<u8>)
    ensures
        final(out)@ == old(out)@ + json_hex(bytes@),
{
    out.push(0x22);
    write_hex(bytes, out);
    out.push(0x22);
    assert(out@ =~= old(out)@ + json_hex(bytes@));
}

impl Canonical for u16 {
    open spec fn json(v: u16) -> Seq<u8> {
        decimal(v as nat)
    }

    fn write_json(&self, out: &mut Vec<u8>) {
        write_decimal(*self as u128, out);
    }
}

impl Canonical for u32 {
    open spec fn json(v: u32) -> Seq<u8> {
        decimal(v as nat)
    }

    fn write_json(&self, out: &mut Vec<u8>) {
        write_decimal(*self as u128, out);
    }
}

impl Canonical for u64 {
    open spec fn json(v: u64) -> Seq<u8> {
        decimal(v as nat)
    }

    fn write_json(&self, out: &mut Vec<u8>) {
        write_decimal(*self as u128, out);
    }
}

impl Canonical for u128 {
    open spec fn json(v: u128) -> Seq<u8> {
        decimal(v as nat)
    }

    fn write_json(&self, out: &mut Vec<u8>) {
        write_decimal(*self, out);
    }
}

impl Canonical for usize {
    open spec fn json(v: usize) -> Seq<u8> {
        decimal(v as nat)
    }

    fn write_json(&self, out: &mut Vec<u8>) {
        write_decimal(*self as u128, out);
    }
}

impl Canonical for bool {
    open spec fn json(v: bool) -> Seq<u8> {
        if v {
            lit("true")
        } else {
            lit("false")
        }
    }

    fn write_json(&self, out: &mut Vec<u8>) {
        if *self {
            write_lit("true", out);
        } else {
            write_lit("false", out);
        }
    }
}

impl<'a> Canonical for &'a str {
    open spec fn json(v: Seq<char>) -> Seq<u8> {
        json_string(vstd::utf8::encode_utf8(v))
    }

    fn write_json(&self, out: &mut Vec<u8>) {
        write_json_string(self.as_bytes(), out);
    }
}

impl<'a, T: Canonical> Canonical for &'a T {
    open spec fn json(v: T::V) -> Seq<u8> {
        T::json(v)
    }

    fn write_json(&self, out: &mut Vec<u8>) {
        (**self).write_json(out);
    }
}

/// The elements of a byte array as JSON numbers separated by commas.
pub open spec fn json_byte_list(bytes: Seq<u8>) -> Seq<u8>
    decreases bytes.len(),
{
    if bytes.len() == 0 {
        Seq::empty()
    } else if bytes.len() == 1 {
        decimal(bytes[0] as nat)
    } else {
        json_byte_list(bytes.drop_last()) + lit(",") + decimal(bytes.last() as nat)
    }
}

/// A byte array: a JSON array of numbers.
pub open spec fn json_byte_array(bytes: Seq<u8>) -> Seq<u8> {
    lit("[") + json_byte_list(bytes) + lit("]")
}

pub fn write_json_byte_array(bytes: &[u8], out: &mut Vec<u8>)
    ensures
        final(out)@ == old(out)@ + json_byte_array(bytes@),
{
    write_lit("[", out);
    let ghost start = out@;
    let mut i: usize = 0;
    while i < bytes.len()
        invariant
            i <= bytes@.len(),
            out@ == start + json_byte_list(bytes@.subrange(0, i as int)),
        decreases bytes@.len() - i,
    {
        let ghost before = out@;
        assert(bytes@.subrange(0, i + 1).drop_last() =~= bytes@.subrange(0, i as int));
        if i > 0 {
            write_lit(",", out);
        }
        write_decimal(bytes[i] as u128, out);
        assert(out@ =~= start + json_byte_list(bytes@.subrange(0, i + 1)));
        i = i + 1;
    }
    assert(bytes@.subrange(0, i as int) =~= bytes@);
    write_lit("]", out);
    assert(out@ =~= old(out)@ + json_byte_array(bytes@));
}

impl Canonical for [u8; 32] {
    open spec fn json(v: Seq<u8>) -> Seq<u8> {
        json_byte_array(v)
    }

    fn write_json(&self, out: &mut Vec<u8>) {
        write_json_byte_array(self, out);
    }
}

impl<A: Canonical, B: Canonical> Canonical for (A, B) {
    open spec fn json(v: (A::V, B::V)) -> Seq<u8> {
        lit("[") + A::json(v.0) + lit(",") + B::json(v.1) + lit("]")
    }

    fn write_json(&self, out: &mut Vec<u8>) {
        write_lit("[", out);
        self.0.write_json(out);
        write_lit(",", out);
        self.1.write_json(out);
        write_lit("]", out);
        assert(out@ =~= old(out)@ + Self::json(self@));
    }
}

impl<A: Canonical, B: Canonical, C: Canonical> Canonical for (A, B, C) {
    open spec fn json(v: (A::V, B::V, C::V)) -> Seq<u8> {
        lit("[") + A::json(v.0) + lit(",") + B::json(v.1) + lit(",") + C::json(v.2) + lit("]")
    }

    fn write_json(&self, out: &mut Vec<u8>) {
        write_lit("[", out);
        self.0.write_json(out);
        write_lit(",", out);
        self.1.write_json(out);
        write_lit(",", out);
        self.2.write_json(out);
        write_lit("]", out);
        assert(out@ =~= old(out)@ + Self::json(self@));
    }
}

impl<A: Canonical, B: Canonical, C: Canonical, D: Canonical> Canonical for (A, B, C, D) {
    open spec fn json(v: (A::V, B::V, C::V, D::V)) -> Seq<u8> {
        lit("[") + A::json(v.0) + lit(",") + B::json(v.1) + lit(",") + C::json(v.2) + lit(",")
            + D::json(v.3) + lit("]")
    }

    fn write_json(&self, out: &mut Vec<u8>) {
        write_lit("[", out);
        self.0.write_json(out);
        write_lit(",", out);
        self.1.write_json(out);
        write_lit(",", out);
        self.2.write_json(out);
        write_lit(",", out);
        self.3.write_json(out);
        write_lit("]", out);
        assert(out@ =~= old(out)@ + Self::json(self@));
    }
}

impl<A: Canonical, B: Canonical, C: Canonical, D: Canonical, E: Canonical> Canonical for (
    A,
    B,
    C,
    D,
    E,
) {
    open spec fn json(v: (A::V, B::V, C::V, D::V, E::V)) -> Seq<u8> {
        lit("[") + A::json(v.0) + lit(",") + B::json(v.1) + lit(",") + C::json(v.2) + lit(",")
            + D::json(v.3) + lit(",") + E::json(v.4) + lit("]")
    }

    fn write_json(&self, out: &mut Vec<u8>) {
        write_lit("[", out);
        self.0.write_json(out);
        write_lit(",", out);
        self.1.write_json(out);
        write_lit(",", out);
        self.2.write_json(out);
        write_lit(",", out);
        self.3.write_json(out);
        write_lit(",", out);
        self.4.write_json(out);
        write_lit("]", out);
        assert(out@ =~= old(out)@ + Self::json(self@));
    }
}

impl<
    A: Canonical,
    B: Canonical,
    C: Canonical,
    D: Canonical,
    E: Canonical,
    F: Canonical,
> Canonical for (A, B, C, D, E, F) {
    open spec fn json(v: (A::V, B::V, C::V, D::V, E::V, F::V)) -> Seq<u8> {
        lit("[") + A::json(v.0) + lit(",") + B::json(v.1) + lit(",") + C::json(v.2) + lit(",")
            + D::json(v.3) + lit(",") + E::json(v.4) + lit(",") + F::json(v.5) + lit("]")
    }

    fn write_json(&self, out: &mut Vec<u8>) {
        write_lit("[", out);
        self.0.write_json(out);
        write_lit(",", out);
        self.1.write_json(out);
        write_lit(",", out);
        self.2.write_json(out);
        write_lit(",", out);
        self.3.write_json(out);
        write_lit(",", out);
        self.4.write_json(out);
        write_lit(",", out);
        self.5.write_json(out);
        write_lit("]", out);
        assert(out@ =~= old(out)@ + Self::json(self@));
    }
}

impl<
    A: Canonical,
    B: Canonical,
    C: Canonical,
    D: Canonical,
    E: Canonical,
    F: Canonical,
    G: Canonical,
    H: Canonical,
> Canonical for (A, B, C, D, E, F, G, H) {
    open spec fn json(v: (A::V, B::V, C::V, D::V, E::V, F::V, G::V, H::V)) -> Seq<u8> {
        lit("[") + A::json(v.0) + lit(",") + B::json(v.1) + lit(",") + C::json(v.2) + lit(",")
            + D::json(v.3) + lit(",") + E::json(v.4) + lit(",") + F::json(v.5) + lit(",")
            + G::json(v.6) + lit(",") + H::json(v.7) + lit("]")
    }

    fn write_json(&self, out: &mut Vec<u8>) {
        write_lit("[", out);
        self.0.write_json(out);
        write_lit(",", out);
        self.1.write_json(out);
        write_lit(",", out);
        self.2.write_json(out);
        write_lit(",", out);
        self.3.write_json(out);
        write_lit(",", out);
        self.4.write_json(out);
        write_lit(",", out);
        self.5.write_json(out);
        write_lit(",", out);
        self.6.write_json(out);
        write_lit(",", out);
        self.7.write_json(out);
        write_lit("]", out);
        assert(out@ =~= old(out)@ + Self::json(self@));
    }
}

/// The entries of a map as `"key":value` pairs separated by commas.
pub open spec fn json_map_entries<V: Canonical>(s: Seq<([u8; 32], V::V)>) -> Seq<u8>
    decreases s.len(),
{
    if s.len() == 0 {
        Seq::empty()
    } else if s.len() == 1 {
        json_hex(s[0].0@) + lit(":") + V::json(s[0].1)
    } else {
        json_map_entries::<V>(s.drop_last()) + lit(",") + json_hex(s.last().0@) + lit(":") + V::json(
            s.last().1,
        )
    }
}

/// A map: a JSON object keyed by the hex of each key, in key order.
pub open spec fn json_map<V: Canonical>(s: Seq<([u8; 32], V::V)>) -> Seq<u8> {
    lit("{") + json_map_entries::<V>(s) + lit("}")
}

impl<V: Canonical> Canonical for ByteMap<V> {
    open spec fn json(v: Seq<([u8; 32], V::V)>) -> Seq<u8> {
        json_map::<V>(v)
    }

    fn write_json(&self, out: &mut Vec<u8>) {
        write_lit("{", out);
        let ghost start = out@;
        let n = self.len();
        let mut i: usize = 0;
        while i < n
            invariant
                i <= n,
                n == self@.len(),
                out@ == start + json_map_entries::<V>(self@.subrange(0, i as int)),
            decreases n - i,
        {
            let (k, v) = self.entry_at(i);
            assert(self@.subrange(0, i + 1).drop_last() =~= self@.subrange(0, i as int));
            if i > 0 {
                write_lit(",", out);
            }
            write_json_hex(k, out);
            write_lit(":", out);
            v.write_json(out);
            assert(out@ =~= start + json_map_entries::<V>(self@.subrange(0, i + 1)));
            i = i + 1;
        }
        assert(self@.subrange(0, i as int) =~= self@);
        write_lit("}", out);
        assert(out@ =~= old(out)@ + Self::json(self@));
    }
}

/// The keys of a set as hex strings separated by commas.
pub open spec fn json_key_list(s: Seq<([u8; 32], ())>) -> Seq<u8>
    decreases s.len(),
{
    if s.len() == 0 {
        Seq::empty()
    } else if s.len() == 1 {
        json_hex(s[0].0@)
    } else {
        json_key_list(s.drop_last()) + lit(",") + json_hex(s.last().0@)
    }
}

/// A set of keys: a JSON array of hex strings, in key order.
pub open spec fn json_key_set(s: Seq<([u8; 32], ())>) -> Seq<u8> {
    lit("[") + json_key_list(s) + lit("]")
}

/// Appends the keys of `set` as a JSON array.
pub fn write_json_key_set(set: &ByteMap<()>, out: &mut Vec<u8>)
    ensures
        final(out)@ == old(out)@ + json_key_set(set@),
{
    write_lit("[", out);
    let ghost start = out@;
    let n = set.len();
    let mut i: usize = 0;
    while i < n
        invariant
            i <= n,
            n == set@.len(),
            out@ == start + json_key_list(set@.subrange(0, i as int)),
        decreases n - i,
    {
        let (k, _) = set.entry_at(i);
        assert(set@.subrange(0, i + 1).drop_last() =~= set@.subrange(0, i as int));
        if i > 0 {
            write_lit(",", out);
        }
        write_json_hex(k, out);
        assert(out@ =~= start + json_key_list(set@.subrange(0, i + 1)));
        i = i + 1;
    }
    assert(set@.subrange(0, i as int) =~= set@);
    write_lit("]", out);
    assert(out@ =~= old(out)@ + json_key_set(set@));
}

/// The canonical bytes of `value`; the encoding cannot fail.
pub fn canonical_bytes<T: Canonical>(value: &T) -> (r: HorizonResult<Vec<u8>>)
    ensures
        r is Ok,
        r matches Ok(bytes) ==> bytes@ == T::json(value@),
{
    let mut out: Vec<u8> = Vec::new();
    value.write_json(&mut out);
    assert(out@ =~= T::json(value@));
    Ok(out)
}

/// Two splits of one sequence with equally long first parts are one split.
pub proof fn lemma_split_fixed(a: Seq<u8>, x: Seq<u8>, b: Seq<u8>, y: Seq<u8>)
    requires
        a.len() == b.len(),
        a + x == b + y,
    ensures
        a == b,
        x == y,
{
    assert(a =~= (a + x).subrange(0, a.len() as int));
    assert(b =~= (b + y).subrange(0, b.len() as int));
    assert(x =~= (a + x).subrange(a.len() as int, (a + x).len() as int));
    assert(y =~= (b + y).subrange(b.len() as int, (b + y).len() as int));
}

/// A decimal is read back from the front of an encoding: where what follows
/// it starts with a byte that is not a digit, the number and what follows
/// are determined.
pub proof fn lemma_split_decimal(m: nat, x: Seq<u8>, n: nat, y: Seq<u8>)
    requires
        x.len() > 0,
        y.len() > 0,
        !is_digit(x[0]),
        !is_digit(y[0]),
        decimal(m) + x == decimal(n) + y,
    ensures
        m == n,
        x == y,
{
    lemma_decimal_digits(m);
    lemma_decimal_digits(n);
    let dm = decimal(m);
    let dn = decimal(n);
    if dm.len() < dn.len() {
        assert((dm + x)[dm.len() as int] == x[0]);
        assert((dn + y)[dm.len() as int] == dn[dm.len() as int]);
    } else if dn.len() < dm.len() {
        assert((dn + y)[dn.len() as int] == y[0]);
        assert((dm + x)[dn.len() as int] == dm[dn.len() as int]);
    }
    lemma_split_fixed(dm, x, dn, y);
    lemma_decimal_injective(m, n);
}

/// A 32-byte identifier is read back from the front of an encoding.
pub proof fn lemma_split_hex(a: [u8; 32], x: Seq<u8>, b: [u8; 32], y: Seq<u8>)
    requires
        json_hex(a@) + x == json_hex(b@) + y,
    ensures
        a == b,
        x == y,
{
    lemma_hex_len(a@);
    lemma_hex_len(b@);
    lemma_split_fixed(json_hex(a@), x, json_hex(b@), y);
    let ha = json_hex(a@);
    assert(hex_lower(a@) =~= ha.subrange(1, 65));
    assert(hex_lower(b@) =~= json_hex(b@).subrange(1, 65));
    lemma_hex_injective(a@, b@);
    assert(a =~= b);
}

} // verus!
