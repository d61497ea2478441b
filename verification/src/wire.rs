//! Wire-format primitives of the envelope codec.
//!
//! Every envelope is a concatenation of a few primitive fields: little-endian
//! `u64` scalars, single tag bytes, length-prefixed byte strings, UTF-8 text
//! carried as a length-prefixed byte string, optional scalars, and counted
//! lists. Each primitive has a specification-level encoder and decoder; the
//! decoders consume a prefix of the byte stream and hand back the rest, so
//! that round trips compose field by field.

use vstd::bytes::*;
use vstd::prelude::*;
use vstd::slice::{slice_index_get, slice_subrange, slice_to_vec};
use vstd::string::StrSliceExecFns;
use vstd::utf8::{decode_utf8, encode_utf8, encode_utf8_decode_utf8, encode_utf8_valid_utf8,
    valid_utf8};

verus! {

/// A length that the wire format can carry in its `u64` length prefixes.
pub open spec fn fits_u64(n: nat) -> bool {
    n <= u64::MAX
}

/// Text whose UTF-8 form the wire format can carry.
pub open spec fn wf_str(s: Seq<char>) -> bool {
    fits_u64(encode_utf8(s).len())
}

// ---------------------------------------------------------------------------
// Specification-level encoders.
// ---------------------------------------------------------------------------

pub open spec fn enc_u64(x: u64) -> Seq<u8> {
    spec_u64_to_le_bytes(x)
}

pub open spec fn enc_tag(t: u8) -> Seq<u8> {
    seq![t]
}

pub open spec fn enc_bytes(b: Seq<u8>) -> Seq<u8> {
    enc_u64(b.len() as u64) + b
}

pub open spec fn enc_str(s: Seq<char>) -> Seq<u8> {
    enc_bytes(encode_utf8(s))
}

pub open spec fn enc_opt_u64(x: Option<u64>) -> Seq<u8> {
    match x {
        None => enc_tag(0),
        Some(v) => enc_tag(1) + enc_u64(v),
    }
}

/// Body of a counted list: the encodings of the items, in order.
pub open spec fn enc_items<T>(items: Seq<T>, f: spec_fn(T) -> Seq<u8>) -> Seq<u8>
    decreases items.len(),
{
    if items.len() == 0 {
        Seq::empty()
    } else {
        f(items[0]) + enc_items(items.drop_first(), f)
    }
}

/// A counted list: item count, then each item.
pub open spec fn enc_list<T>(items: Seq<T>, f: spec_fn(T) -> Seq<u8>) -> Seq<u8> {
    enc_u64(items.len() as u64) + enc_items(items, f)
}

// ---------------------------------------------------------------------------
// Specification-level decoders. Each consumes a prefix of `s` and returns the
// decoded value together with the remaining bytes, or `None` on malformed
// input.
// ---------------------------------------------------------------------------

pub open spec fn dec_u64(s: Seq<u8>) -> Option<(u64, Seq<u8>)> {
    if s.len() >= 8 {
        Some((spec_u64_from_le_bytes(s.take(8)), s.skip(8)))
    } else {
        None
    }
}

pub open spec fn dec_tag(s: Seq<u8>) -> Option<(u8, Seq<u8>)> {
    if s.len() >= 1 {
        Some((s[0], s.skip(1)))
    } else {
        None
    }
}

pub open spec fn dec_bytes(s: Seq<u8>) -> Option<(Seq<u8>, Seq<u8>)> {
    match dec_u64(s) {
        None => None,
        Some((n, s1)) => if s1.len() >= n {
            Some((s1.take(n as int), s1.skip(n as int)))
        } else {
            None
        },
    }
}

pub open spec fn dec_str(s: Seq<u8>) -> Option<(Seq<char>, Seq<u8>)> {
    match dec_bytes(s) {
        None => None,
        Some((b, s1)) => if valid_utf8(b) {
            Some((decode_utf8(b), s1))
        } else {
            None
        },
    }
}

pub open spec fn dec_opt_u64(s: Seq<u8>) -> Option<(Option<u64>, Seq<u8>)> {
    match dec_tag(s) {
        None => None,
        Some((t, s1)) => if t == 0 {
            Some((None, s1))
        } else if t == 1 {
            match dec_u64(s1) {
                None => None,
                Some((v, s2)) => Some((Some(v), s2)),
            }
        } else {
            None
        },
    }
}

pub open spec fn dec_items<T>(
    s: Seq<u8>,
    n: nat,
    f: spec_fn(Seq<u8>) -> Option<(T, Seq<u8>)>,
) -> Option<(Seq<T>, Seq<u8>)>
    decreases n,
{
    if n == 0 {
        Some((Seq::empty(), s))
    } else {
        match f(s) {
            None => None,
            Some((x, s1)) => match dec_items(s1, (n - 1) as nat, f) {
                None => None,
                Some((xs, s2)) => Some((seq![x] + xs, s2)),
            },
        }
    }
}

pub open spec fn dec_list<T>(
    s: Seq<u8>,
    f: spec_fn(Seq<u8>) -> Option<(T, Seq<u8>)>,
) -> Option<(Seq<T>, Seq<u8>)> {
    match dec_u64(s) {
        None => None,
        Some((n, s1)) => dec_items(s1, n as nat, f),
    }
}

// ---------------------------------------------------------------------------
// Round-trip lemmas: decoding an encoded field from the front of a stream
// yields the field and leaves the rest untouched.
// ---------------------------------------------------------------------------

pub proof fn lemma_u64_round(x: u64, rest: Seq<u8>)
    ensures
        dec_u64(enc_u64(x) + rest) == Some((x, rest)),
{
    lemma_auto_spec_u64_to_from_le_bytes();
    let s = enc_u64(x) + rest;
    assert(s.take(8) =~= enc_u64(x));
    assert(s.skip(8) =~= rest);
}

pub proof fn lemma_tag_round(t: u8, rest: Seq<u8>)
    ensures
        dec_tag(enc_tag(t) + rest) == Some((t, rest)),
{
    let s = enc_tag(t) + rest;
    assert(s[0] == t);
    assert(s.skip(1) =~= rest);
}

pub proof fn lemma_bytes_round(b: Seq<u8>, rest: Seq<u8>)
    requires
        fits_u64(b.len()),
    ensures
        dec_bytes(enc_bytes(b) + rest) == Some((b, rest)),
{
    let n = b.len() as u64;
    assert(enc_bytes(b) + rest =~= enc_u64(n) + (b + rest));
    lemma_u64_round(n, b + rest);
    assert((b + rest).take(n as int) =~= b);
    assert((b + rest).skip(n as int) =~= rest);
}

pub proof fn lemma_str_round(s: Seq<char>, rest: Seq<u8>)
    requires
        fits_u64(encode_utf8(s).len()),
    ensures
        dec_str(enc_str(s) + rest) == Some((s, rest)),
{
    lemma_bytes_round(encode_utf8(s), rest);
    encode_utf8_valid_utf8(s);
    encode_utf8_decode_utf8(s);
}

pub proof fn lemma_opt_u64_round(x: Option<u64>, rest: Seq<u8>)
    ensures
        dec_opt_u64(enc_opt_u64(x) + rest) == Some((x, rest)),
{
    match x {
        None => {
            lemma_tag_round(0, rest);
        },
        Some(v) => {
            assert(enc_opt_u64(x) + rest =~= enc_tag(1) + (enc_u64(v) + rest));
            lemma_tag_round(1, enc_u64(v) + rest);
            lemma_u64_round(v, rest);
        },
    }
}

pub proof fn lemma_items_round<T>(
    items: Seq<T>,
    rest: Seq<u8>,
    f_enc: spec_fn(T) -> Seq<u8>,
    f_dec: spec_fn(Seq<u8>) -> Option<(T, Seq<u8>)>,
)
    requires
        forall|x: T, r: Seq<u8>| items.contains(x) ==> #[trigger] f_dec(f_enc(x) + r) == Some(
            (x, r),
        ),
    ensures
        dec_items(enc_items(items, f_enc) + rest, items.len(), f_dec) == Some((items, rest)),
    decreases items.len(),
{
    if items.len() == 0 {
        assert(enc_items(items, f_enc) + rest =~= rest);
        assert(Seq::<T>::empty() =~= items);
    } else {
        let hd = items[0];
        let tl = items.drop_first();
        assert(items.contains(hd));
        assert(enc_items(items, f_enc) + rest =~= f_enc(hd) + (enc_items(tl, f_enc) + rest));
        assert(f_dec(f_enc(hd) + (enc_items(tl, f_enc) + rest)) == Some(
            (hd, enc_items(tl, f_enc) + rest),
        ));
        assert forall|x: T, r: Seq<u8>| tl.contains(x) implies #[trigger] f_dec(f_enc(x) + r)
            == Some((x, r)) by {
            assert(items.contains(x)) by {
                let i = choose|i: int| 0 <= i < tl.len() && tl[i] == x;
                assert(items[i + 1] == x);
            }
        }
        lemma_items_round(tl, rest, f_enc, f_dec);
        assert(seq![hd] + tl =~= items);
    }
}

pub proof fn lemma_list_round<T>(
    items: Seq<T>,
    rest: Seq<u8>,
    f_enc: spec_fn(T) -> Seq<u8>,
    f_dec: spec_fn(Seq<u8>) -> Option<(T, Seq<u8>)>,
)
    requires
        fits_u64(items.len()),
        forall|x: T, r: Seq<u8>| items.contains(x) ==> #[trigger] f_dec(f_enc(x) + r) == Some(
            (x, r),
        ),
    ensures
        dec_list(enc_list(items, f_enc) + rest, f_dec) == Some((items, rest)),
{
    let n = items.len() as u64;
    assert(enc_list(items, f_enc) + rest =~= enc_u64(n) + (enc_items(items, f_enc) + rest));
    lemma_u64_round(n, enc_items(items, f_enc) + rest);
    lemma_items_round(items, rest, f_enc, f_dec);
}

/// Encoding one more item onto a list body appends that item's encoding.
pub proof fn lemma_enc_items_push<T>(items: Seq<T>, x: T, f: spec_fn(T) -> Seq<u8>)
    ensures
        enc_items(items.push(x), f) == enc_items(items, f) + f(x),
    decreases items.len(),
{
    if items.len() == 0 {
        assert(items.push(x).drop_first() =~= Seq::<T>::empty());
        assert(items.push(x)[0] == x);
        assert(enc_items(items.push(x), f) == f(x) + enc_items(Seq::<T>::empty(), f));
        assert(enc_items(Seq::<T>::empty(), f) == Seq::<u8>::empty());
        assert(f(x) + Seq::<u8>::empty() =~= f(x));
        assert(enc_items(items, f) + f(x) =~= f(x));
    } else {
        assert(items.push(x).drop_first() =~= items.drop_first().push(x));
        lemma_enc_items_push(items.drop_first(), x, f);
        assert(enc_items(items.push(x), f) =~= enc_items(items, f) + f(x));
    }
}

// ---------------------------------------------------------------------------
// Executable encoders. Each appends one field to the output buffer.
// ---------------------------------------------------------------------------

pub fn w_u64(buf: &mut Vec<u8>, x: u64)
    ensures
        final(buf)@ == old(buf)@ + enc_u64(x),
{
    let mut b = u64_to_le_bytes(x);
    buf.append(&mut b);
}

pub fn w_tag(buf: &mut Vec<u8>, t: u8)
    ensures
        final(buf)@ == old(buf)@ + enc_tag(t),
{
    buf.push(t);
    assert(buf@ =~= old(buf)@ + enc_tag(t));
}

pub fn w_bytes(buf: &mut Vec<u8>, b: &[u8])
    ensures
        final(buf)@ == old(buf)@ + enc_bytes(b@),
        fits_u64(b@.len()),
{
    w_u64(buf, b.len() as u64);
    buf.extend_from_slice(b);
    assert(buf@ =~= old(buf)@ + enc_bytes(b@));
}

pub fn w_str(buf: &mut Vec<u8>, s: &str)
    ensures
        final(buf)@ == old(buf)@ + enc_str(s@),
        fits_u64(encode_utf8(s@).len()),
{
    let b = s.as_bytes();
    let n = b.len();
    proof {
        assert(encode_utf8(s@).len() == n);
    }
    w_bytes(buf, b);
}

pub fn w_opt_u64(buf: &mut Vec<u8>, x: &Option<u64>)
    ensures
        final(buf)@ == old(buf)@ + enc_opt_u64(*x),
{
    match x {
        None => {
            w_tag(buf, 0);
        },
        Some(v) => {
            w_tag(buf, 1);
            w_u64(buf, *v);
            assert(buf@ =~= old(buf)@ + enc_opt_u64(*x));
        },
    }
}

// ---------------------------------------------------------------------------
// Executable decoders. Each consumes a prefix of the input slice and returns
// the decoded value together with the remaining slice, mirroring the
// specification decoders exactly.
// ---------------------------------------------------------------------------

pub fn r_u64<'a>(s: &'a [u8]) -> (r: Option<(u64, &'a [u8])>)
    ensures
        match dec_u64(s@) {
            None => r is None,
            Some((x, rest)) => r matches Some(p) && p.0 == x && p.1@ == rest,
        },
{
    if s.len() >= 8 {
        let x = u64_from_le_bytes(slice_subrange(s, 0, 8));
        let rest = slice_subrange(s, 8, s.len());
        proof {
            assert(s@.subrange(0, 8) =~= s@.take(8));
            assert(s@.subrange(8, s@.len() as int) =~= s@.skip(8));
        }
        Some((x, rest))
    } else {
        None
    }
}

pub fn r_tag<'a>(s: &'a [u8]) -> (r: Option<(u8, &'a [u8])>)
    ensures
        match dec_tag(s@) {
            None => r is None,
            Some((t, rest)) => r matches Some(p) && p.0 == t && p.1@ == rest,
        },
{
    if s.len() >= 1 {
        let t = *slice_index_get(s, 0);
        let rest = slice_subrange(s, 1, s.len());
        proof {
            assert(s@.subrange(1, s@.len() as int) =~= s@.skip(1));
        }
        Some((t, rest))
    } else {
        None
    }
}

pub fn r_bytes<'a>(s: &'a [u8]) -> (r: Option<(Vec<u8>, &'a [u8])>)
    ensures
        match dec_bytes(s@) {
            None => r is None,
            Some((b, rest)) => r matches Some(p) && p.0@ == b && p.1@ == rest,
        },
{
    match r_u64(s) {
        None => None,
        Some((n, s1)) => {
            if n <= s1.len() as u64 {
                let n_us: usize = n as usize;
                let body = slice_subrange(s1, 0, n_us);
                let rest = slice_subrange(s1, n_us, s1.len());
                let out = slice_to_vec(body);
                proof {
                    assert(s1@.subrange(0, n as int) =~= s1@.take(n as int));
                    assert(s1@.subrange(n as int, s1@.len() as int) =~= s1@.skip(n as int));
                }
                Some((out, rest))
            } else {
                None
            }
        },
    }
}

pub fn r_str<'a>(s: &'a [u8]) -> (r: Option<(String, &'a [u8])>)
    ensures
        match dec_str(s@) {
            None => r is None,
            Some((t, rest)) => r matches Some(p) && p.0@ == t && p.1@ == rest,
        },
{
    match r_bytes(s) {
        None => None,
        Some((b, s1)) => match utf8_to_string(b) {
            None => None,
            Some(t) => Some((t, s1)),
        },
    }
}

pub fn r_opt_u64<'a>(s: &'a [u8]) -> (r: Option<(Option<u64>, &'a [u8])>)
    ensures
        match dec_opt_u64(s@) {
            None => r is None,
            Some((x, rest)) => r matches Some(p) && p.0 == x && p.1@ == rest,
        },
{
    match r_tag(s) {
        None => None,
        Some((t, s1)) => {
            if t == 0 {
                Some((None, s1))
            } else if t == 1 {
                match r_u64(s1) {
                    None => None,
                    Some((v, s2)) => Some((Some(v), s2)),
                }
            } else {
                None
            }
        },
    }
}

// ---------------------------------------------------------------------------
// Lists of strings.
// ---------------------------------------------------------------------------

/// The string-field encoder as a first-class function, so that every use
/// names the same function value.
pub open spec fn enc_str_f() -> spec_fn(Seq<char>) -> Seq<u8> {
    |s: Seq<char>| enc_str(s)
}

pub open spec fn dec_str_f() -> spec_fn(Seq<u8>) -> Option<(Seq<char>, Seq<u8>)> {
    |s: Seq<u8>| dec_str(s)
}

pub open spec fn str_list_v(items: Seq<String>) -> Seq<Seq<char>> {
    items.map_values(|s: String| s@)
}

pub open spec fn wf_str_list(ss: Seq<Seq<char>>) -> bool {
    &&& fits_u64(ss.len())
    &&& forall|i: int| 0 <= i < ss.len() ==> fits_u64(encode_utf8(#[trigger] ss[i]).len())
}

pub fn w_str_list(buf: &mut Vec<u8>, items: &Vec<String>)
    ensures
        final(buf)@ == old(buf)@ + enc_list(str_list_v(items@), enc_str_f()),
        wf_str_list(str_list_v(items@)),
{
    let ghost ss = str_list_v(items@);
    w_u64(buf, items.len() as u64);
    let mut i: usize = 0;
    assert(ss.take(0) =~= Seq::<Seq<char>>::empty());
    while i < items.len()
        invariant
            i <= items.len(),
            ss == str_list_v(items@),
            ss.len() == items@.len(),
            buf@ == old(buf)@ + enc_u64(items@.len() as u64) + enc_items(ss.take(i as int),
                enc_str_f(),
            ),
            forall|j: int| 0 <= j < i ==> fits_u64(encode_utf8(#[trigger] ss[j]).len()),
        decreases items.len() - i,
    {
        let it = &items[i];
        w_str(buf, it.as_str());
        proof {
            assert(ss[i as int] == items@[i as int]@);
            assert(enc_str_f()(ss[i as int]) == enc_str(it@));
            lemma_enc_items_push(ss.take(i as int), ss[i as int], enc_str_f());
            assert(ss.take(i + 1) =~= ss.take(i as int).push(ss[i as int]));
            assert(buf@ =~= old(buf)@ + enc_u64(items@.len() as u64) + enc_items(
                ss.take(i + 1),
                enc_str_f(),
            ));
        }
        i = i + 1;
    }
    assert(ss.take(items@.len() as int) =~= ss);
    assert(buf@ =~= old(buf)@ + enc_list(ss, enc_str_f()));
}

pub fn r_str_list<'a>(s: &'a [u8]) -> (r: Option<(Vec<String>, &'a [u8])>)
    ensures
        match dec_list(s@, dec_str_f()) {
            None => r is None,
            Some((xs, rest)) => r matches Some(p) && str_list_v(p.0@) == xs && p.1@ == rest,
        },
{
    match r_u64(s) {
        None => None,
        Some((n, s1)) => {
            let ghost whole = dec_items(s1@, n as nat, dec_str_f());
            let mut out: Vec<String> = Vec::new();
            let mut cur: &[u8] = s1;
            let mut k: u64 = 0;
            assert(str_list_v(out@) =~= Seq::<Seq<char>>::empty());
            loop
                invariant
                    k <= n,
                    str_list_v(out@).len() == k as nat,
                    whole == dec_items(s1@, n as nat, dec_str_f()),
                    dec_list(s@, dec_str_f()) == whole,
                    match dec_items(cur@, (n - k) as nat, dec_str_f()) {
                        None => whole is None,
                        Some((xs, rest)) => whole matches Some(w) && w.0 == str_list_v(out@) + xs
                            && w.1 == rest,
                    },
                decreases n - k,
            {
                if k == n {
                    proof {
                        assert(dec_items(cur@, 0, dec_str_f()) == Some(
                            (Seq::<Seq<char>>::empty(), cur@),
                        ));
                        assert(str_list_v(out@) + Seq::<Seq<char>>::empty() =~= str_list_v(out@));
                    }
                    return Some((out, cur));
                }
                let ghost m = (n - k) as nat;
                match r_str(cur) {
                    None => {
                        assert(dec_items(cur@, m, dec_str_f()) is None);
                        return None;
                    },
                    Some((x, rest)) => {
                        proof {
                            assert(dec_str_f()(cur@) == dec_str(cur@));
                        }
                        let ghost xv = x@;
                        let ghost prev = str_list_v(out@);
                        out.push(x);
                        proof {
                            assert(str_list_v(out@) =~= prev.push(xv));
                            assert(dec_items(cur@, m, dec_str_f()) == (match dec_items(
                                rest@,
                                (m - 1) as nat,
                                dec_str_f(),
                            ) {
                                None => None::<(Seq<Seq<char>>, Seq<u8>)>,
                                Some((xs, r2)) => Some((seq![xv] + xs, r2)),
                            }));
                            let tail = dec_items(rest@, (m - 1) as nat, dec_str_f());
                            if tail is Some {
                                let (xs2, r2) = tail->0;
                                assert(prev + (seq![xv] + xs2) =~= prev.push(xv) + xs2);
                            }
                        }
                        cur = rest;
                        k = k + 1;
                    },
                }
            }
        },
    }
}

/// Relies on `String::from_utf8` of std: it returns `Ok` exactly on valid
/// UTF-8 input and then yields the string those bytes spell.
#[verifier::external_body]
fn utf8_to_string(v: Vec<u8>) -> (r: Option<String>)
    ensures
        r is Some <==> valid_utf8(v@),
        r is Some ==> r->0@ == decode_utf8(v@),
{
    match String::from_utf8(v) {
        Ok(s) => Some(s),
        Err(_) => None,
    }
}

} // verus!
