//! Wire encoding for requests: decimal rendering of integers,
//! percent-encoding of UTF-8 bytes, and `k=v&k=v` query strings.
//!
//! GET parameters travel as a URL query string and POST parameters as a
//! form-encoded body; both use the same pair encoding, so a single encoder
//! serves every verb.

use vstd::prelude::*;
use vstd::utf8::encode_utf8;

verus! {

/// The characters of an ASCII byte sequence, one char per byte.
pub open spec fn ascii_chars(s: Seq<u8>) -> Seq<char> {
    s.map_values(|b: u8| b as char)
}

/// Relies on `String::from_utf8`: bytes that are valid UTF-8 become the
/// string holding exactly those bytes, and an ASCII byte decodes to the
/// code point of equal value.
#[verifier::external_body]
pub fn ascii_to_string(v: Vec<u8>) -> (r: String)
    requires
        forall|i: int| 0 <= i < v@.len() ==> v@[i] < 128,
    ensures
        r@ == ascii_chars(v@),
{
    String::from_utf8(v).unwrap_or_default()
}

/// The ASCII byte of a decimal digit.
pub open spec fn dec_digit_byte(d: nat) -> u8 {
    (48 + d) as u8
}

/// Decimal rendering of a natural number, as ASCII bytes, no leading zeros.
pub open spec fn dec_bytes(n: nat) -> Seq<u8>
    decreases n,
{
    if n < 10 {
        seq![dec_digit_byte(n)]
    } else {
        dec_bytes(n / 10).push(dec_digit_byte(n % 10))
    }
}

/// Decimal rendering of an unsigned number, as characters.
pub open spec fn dec_str_u64(n: nat) -> Seq<char> {
    ascii_chars(dec_bytes(n))
}

/// Decimal rendering of a signed number: a leading `-` for negatives.
pub open spec fn dec_str_i64(n: int) -> Seq<char> {
    if n < 0 {
        seq!['-'] + dec_str_u64((-n) as nat)
    } else {
        dec_str_u64(n as nat)
    }
}

pub proof fn lemma_dec_bytes_ascii(n: nat)
    ensures
        forall|i: int| 0 <= i < dec_bytes(n).len() ==> 48 <= #[trigger] dec_bytes(n)[i] < 58,
    decreases n,
{
    if n < 10 {
        assert(dec_bytes(n)[0] == dec_digit_byte(n));
    } else {
        lemma_dec_bytes_ascii(n / 10);
        assert forall|i: int| 0 <= i < dec_bytes(n).len() implies 48 <= #[trigger] dec_bytes(n)[i]
            < 58 by {
            if i < dec_bytes(n / 10).len() {
                assert(dec_bytes(n)[i] == dec_bytes(n / 10)[i]);
            } else {
                assert(dec_bytes(n)[i] == dec_digit_byte(n % 10));
            }
        }
    }
}

fn push_dec_u64(n: u64, out: &mut Vec<u8>)
    ensures
        final(out)@ == old(out)@ + dec_bytes(n as nat),
    decreases n,
{
    if n < 10 {
        out.push(48 + n as u8);
        proof {
            assert(out@ =~= old(out)@ + dec_bytes(n as nat));
        }
    } else {
        push_dec_u64(n / 10, out);
        out.push(48 + (n % 10) as u8);
        proof {
            assert(out@ =~= old(out)@ + dec_bytes(n as nat));
        }
    }
}

/// The decimal string of an unsigned number.
pub fn u64_string(n: u64) -> (r: String)
    ensures
        r@ == dec_str_u64(n as nat),
{
    let mut v: Vec<u8> = Vec::new();
    push_dec_u64(n, &mut v);
    proof {
        lemma_dec_bytes_ascii(n as nat);
    }
    ascii_to_string(v)
}

/// The decimal string of a signed number.
pub fn i64_string(n: i64) -> (r: String)
    ensures
        r@ == dec_str_i64(n as int),
{
    let mut v: Vec<u8> = Vec::new();
    if n < 0 {
        v.push(45);
        let m: u64 = if n == i64::MIN {
            9223372036854775808u64
        } else {
            (-n) as u64
        };
        push_dec_u64(m, &mut v);
        proof {
            lemma_dec_bytes_ascii(m as nat);
            assert(v@ =~= seq![45u8] + dec_bytes(m as nat));
            assert(ascii_chars(v@) =~= seq!['-'] + dec_str_u64(m as nat));
        }
        ascii_to_string(v)
    } else {
        push_dec_u64(n as u64, &mut v);
        proof {
            lemma_dec_bytes_ascii(n as nat);
            assert(v@ =~= dec_bytes(n as nat));
        }
        ascii_to_string(v)
    }
}

/// Bytes sent verbatim in percent-encoded output: ASCII letters, digits,
/// `-`, `.`, `_` and `~`.
pub open spec fn is_unreserved_byte(b: u8) -> bool {
    (48 <= b <= 57) || (65 <= b <= 90) || (97 <= b <= 122) || b == 45 || b == 46 || b == 95
        || b == 126
}

/// The ASCII byte of a lowercase hexadecimal digit.
pub open spec fn hex_digit_byte(d: nat) -> u8 {
    if d < 10 {
        (48 + d) as u8
    } else {
        (87 + d) as u8
    }
}

/// `%XX` escape of one byte.
pub open spec fn pct_escape(b: u8) -> Seq<u8> {
    seq![37u8, hex_digit_byte((b / 16) as nat), hex_digit_byte((b % 16) as nat)]
}

/// Percent-encoding of one byte.
pub open spec fn enc_byte(b: u8) -> Seq<u8> {
    if is_unreserved_byte(b) {
        seq![b]
    } else {
        pct_escape(b)
    }
}

/// Percent-encoding of a byte sequence.
pub open spec fn enc_bytes(s: Seq<u8>) -> Seq<u8>
    decreases s.len(),
{
    if s.len() == 0 {
        Seq::empty()
    } else {
        enc_byte(s[0]) + enc_bytes(s.drop_first())
    }
}

/// Percent-encoding of a string: its UTF-8 bytes, escaped byte by byte.
pub open spec fn enc_str(s: Seq<char>) -> Seq<u8> {
    enc_bytes(encode_utf8(s))
}

pub proof fn lemma_enc_bytes_snoc(s: Seq<u8>, b: u8)
    ensures
        enc_bytes(s.push(b)) == enc_bytes(s) + enc_byte(b),
    decreases s.len(),
{
    if s.len() == 0 {
        assert(s.push(b).drop_first() =~= s);
        assert(enc_bytes(s.push(b)) =~= enc_bytes(s) + enc_byte(b));
    } else {
        assert(s.push(b).drop_first() =~= s.drop_first().push(b));
        lemma_enc_bytes_snoc(s.drop_first(), b);
        assert(enc_bytes(s.push(b)) =~= enc_bytes(s) + enc_byte(b));
    }
}

pub proof fn lemma_enc_bytes_ascii(s: Seq<u8>)
    ensures
        forall|i: int| 0 <= i < enc_bytes(s).len() ==> #[trigger] enc_bytes(s)[i] < 128,
    decreases s.len(),
{
    if s.len() > 0 {
        lemma_enc_bytes_ascii(s.drop_first());
        assert forall|i: int| 0 <= i < enc_bytes(s).len() implies #[trigger] enc_bytes(s)[i]
            < 128 by {
            let h = enc_byte(s[0]);
            if i < h.len() {
                assert(enc_bytes(s)[i] == h[i]);
                if !is_unreserved_byte(s[0]) {
                    assert(h[0] == 37u8 && h[1] == hex_digit_byte((s[0] / 16) as nat) && h[2]
                        == hex_digit_byte((s[0] % 16) as nat));
                }
            } else {
                assert(enc_bytes(s)[i] == enc_bytes(s.drop_first())[i - h.len()]);
            }
        }
    }
}

fn push_enc_byte(b: u8, out: &mut Vec<u8>)
    ensures
        final(out)@ == old(out)@ + enc_byte(b),
{
    if (48 <= b && b <= 57) || (65 <= b && b <= 90) || (97 <= b && b <= 122) || b == 45 || b == 46
        || b == 95 || b == 126 {
        out.push(b);
    } else {
        out.push(37);
        let hi = b / 16;
        let lo = b % 16;
        out.push(if hi < 10 { 48 + hi } else { 87 + hi });
        out.push(if lo < 10 { 48 + lo } else { 87 + lo });
    }
    proof {
        assert(out@ =~= old(out)@ + enc_byte(b));
    }
}

fn push_enc_str(s: &str, out: &mut Vec<u8>)
    ensures
        final(out)@ == old(out)@ + enc_str(s@),
{
    let bytes = s.as_bytes();
    let n = bytes.len();
    let mut i: usize = 0;
    while i < n
        invariant
            i <= n,
            n == bytes@.len(),
            bytes@ == encode_utf8(s@),
            out@ == old(out)@ + enc_bytes(bytes@.take(i as int)),
        decreases n - i,
    {
        let b = bytes[i];
        push_enc_byte(b, out);
        proof {
            assert(bytes@.take(i + 1 as int) =~= bytes@.take(i as int).push(bytes@[i as int]));
            lemma_enc_bytes_snoc(bytes@.take(i as int), bytes@[i as int]);
        }
        i += 1;
    }
    proof {
        assert(bytes@.take(n as int) =~= bytes@);
    }
}

/// One encoded `key=value` pair.
pub open spec fn enc_pair(k: Seq<char>, v: Seq<char>) -> Seq<u8> {
    enc_str(k) + seq![61u8] + enc_str(v)
}

/// Encoded pairs joined with `&`.
pub open spec fn query_bytes(pairs: Seq<(Seq<char>, Seq<char>)>) -> Seq<u8>
    decreases pairs.len(),
{
    if pairs.len() == 0 {
        Seq::empty()
    } else if pairs.len() == 1 {
        enc_pair(pairs[0].0, pairs[0].1)
    } else {
        enc_pair(pairs[0].0, pairs[0].1) + seq![38u8] + query_bytes(pairs.drop_first())
    }
}

/// The views of a vector of string pairs.
pub open spec fn pair_views(pairs: Seq<(String, String)>) -> Seq<(Seq<char>, Seq<char>)> {
    pairs.map_values(|p: (String, String)| (p.0@, p.1@))
}

/// The query string of a pair sequence, as characters.
pub open spec fn query_chars(pairs: Seq<(Seq<char>, Seq<char>)>) -> Seq<char> {
    ascii_chars(query_bytes(pairs))
}

pub proof fn lemma_query_bytes_ascii(pairs: Seq<(Seq<char>, Seq<char>)>)
    ensures
        forall|i: int| 0 <= i < query_bytes(pairs).len() ==> #[trigger] query_bytes(pairs)[i]
            < 128,
    decreases pairs.len(),
{
    if pairs.len() > 0 {
        lemma_enc_bytes_ascii(encode_utf8(pairs[0].0));
        lemma_enc_bytes_ascii(encode_utf8(pairs[0].1));
        if pairs.len() > 1 {
            lemma_query_bytes_ascii(pairs.drop_first());
        }
        assert forall|i: int| 0 <= i < query_bytes(pairs).len() implies #[trigger] query_bytes(
            pairs,
        )[i] < 128 by {
            let h = enc_pair(pairs[0].0, pairs[0].1);
            let k = enc_str(pairs[0].0);
            if i < h.len() {
                assert(query_bytes(pairs)[i] == h[i]);
                if i < k.len() {
                    assert(h[i] == k[i]);
                } else if i == k.len() {
                    assert(h[i] == 61u8);
                } else {
                    assert(h[i] == enc_str(pairs[0].1)[i - k.len() - 1]);
                }
            } else if pairs.len() > 1 {
                if i == h.len() {
                    assert(query_bytes(pairs)[i] == 38u8);
                } else {
                    assert(query_bytes(pairs)[i] == query_bytes(pairs.drop_first())[i - h.len()
                        - 1]);
                }
            }
        }
    }
}

/// Encodes parameter pairs as a query string (also the form body of a POST):
/// pairs joined with `&`, key and value percent-encoded and joined with `=`.
pub fn encode_pairs(pairs: &Vec<(String, String)>) -> (r: String)
    ensures
        r@ == query_chars(pair_views(pairs@)),
{
    let mut out: Vec<u8> = Vec::new();
    let n = pairs.len();
    let mut i: usize = 0;
    while i < n
        invariant
            i <= n,
            n == pairs@.len(),
            out@ == query_bytes(pair_views(pairs@).take(i as int)),
        decreases n - i,
    {
        if i > 0 {
            out.push(38);
        }
        push_enc_str(pairs[i].0.as_str(), &mut out);
        out.push(61);
        push_enc_str(pairs[i].1.as_str(), &mut out);
        proof {
            lemma_query_snoc(pair_views(pairs@), i as int);
            assert(pair_views(pairs@)[i as int] == (pairs@[i as int].0@, pairs@[i as int].1@));
            assert(out@ =~= query_bytes(pair_views(pairs@).take(i + 1 as int)));
        }
        i += 1;
    }
    proof {
        assert(pair_views(pairs@).take(n as int) =~= pair_views(pairs@));
        lemma_query_bytes_ascii(pair_views(pairs@));
    }
    ascii_to_string(out)
}

/// The wire form of a boolean.
pub open spec fn bool_chars(b: bool) -> Seq<char> {
    if b {
        "true"@
    } else {
        "false"@
    }
}

pub fn bool_string(b: bool) -> (r: String)
    ensures
        r@ == bool_chars(b),
{
    if b {
        "true".to_owned()
    } else {
        "false".to_owned()
    }
}

/// A single `key=value` entry of a pair list.
pub open spec fn one_pair(k: Seq<char>, v: Seq<char>) -> Seq<(Seq<char>, Seq<char>)> {
    seq![(k, v)]
}

/// The views of an optional string.
pub open spec fn opt_view(v: Option<String>) -> Option<Seq<char>> {
    match v {
        Some(s) => Some(s@),
        None => None,
    }
}

/// An optional field's contribution: nothing when unset.
pub open spec fn opt_str_pairs(k: Seq<char>, v: Option<Seq<char>>) -> Seq<(Seq<char>, Seq<char>)> {
    match v {
        Some(s) => one_pair(k, s),
        None => Seq::empty(),
    }
}

/// An optional signed integer field's contribution: nothing when unset.
pub open spec fn opt_i64_pairs(k: Seq<char>, v: Option<i64>) -> Seq<(Seq<char>, Seq<char>)> {
    match v {
        Some(n) => one_pair(k, dec_str_i64(n as int)),
        None => Seq::empty(),
    }
}

/// An optional unsigned integer field's contribution: nothing when unset.
pub open spec fn opt_u64_pairs(k: Seq<char>, v: Option<u64>) -> Seq<(Seq<char>, Seq<char>)> {
    match v {
        Some(n) => one_pair(k, dec_str_u64(n as nat)),
        None => Seq::empty(),
    }
}

/// An optional boolean field's contribution: nothing when unset.
pub open spec fn opt_bool_pairs(k: Seq<char>, v: Option<bool>) -> Seq<(Seq<char>, Seq<char>)> {
    match v {
        Some(b) => one_pair(k, bool_chars(b)),
        None => Seq::empty(),
    }
}

/// A sequence field flattened with bracketed indices:
/// `k[0]=first&k[1]=second&...`.
pub open spec fn indexed_pairs(k: Seq<char>, vs: Seq<Seq<char>>) -> Seq<(Seq<char>, Seq<char>)> {
    Seq::new(vs.len(), |i: int| (k + "["@ + dec_str_u64(i as nat) + "]"@, vs[i]))
}

/// A map field flattened with bracketed keys: `k[key]=value` per entry.
pub open spec fn bracket_pairs(k: Seq<char>, entries: Seq<(Seq<char>, Seq<char>)>) -> Seq<
    (Seq<char>, Seq<char>),
> {
    Seq::new(entries.len(), |i: int| (k + "["@ + entries[i].0 + "]"@, entries[i].1))
}

/// An optional field left unset is omitted from the wire form entirely; a
/// set field contributes exactly one pair under its own key.
pub proof fn lemma_unset_field_omitted(k: Seq<char>)
    ensures
        opt_str_pairs(k, None).len() == 0,
        opt_i64_pairs(k, None).len() == 0,
        opt_u64_pairs(k, None).len() == 0,
        opt_bool_pairs(k, None).len() == 0,
        forall|v: Seq<char>| (#[trigger] opt_str_pairs(k, Some(v))) == one_pair(k, v),
        forall|n: i64| (#[trigger] opt_i64_pairs(k, Some(n))) == one_pair(k, dec_str_i64(n as int)),
        forall|n: u64| (#[trigger] opt_u64_pairs(k, Some(n))) == one_pair(k, dec_str_u64(n as nat)),
        forall|b: bool| (#[trigger] opt_bool_pairs(k, Some(b))) == one_pair(k, bool_chars(b)),
{
}

/// An empty sequence field is omitted from the wire form entirely; a
/// non-empty one becomes one bracket-indexed pair per element, in order.
pub proof fn lemma_indexed_pairs(k: Seq<char>, vs: Seq<Seq<char>>)
    ensures
        vs.len() == 0 ==> indexed_pairs(k, vs) == Seq::<(Seq<char>, Seq<char>)>::empty(),
        indexed_pairs(k, vs).len() == vs.len(),
        forall|i: int|
            0 <= i < vs.len() ==> (#[trigger] indexed_pairs(k, vs)[i]) == (
                k + "["@ + dec_str_u64(i as nat) + "]"@,
                vs[i],
            ),
{
    if vs.len() == 0 {
        assert(indexed_pairs(k, vs) =~= Seq::<(Seq<char>, Seq<char>)>::empty());
    }
}

pub fn push_pair(out: &mut Vec<(String, String)>, k: String, v: String)
    ensures
        pair_views(final(out)@) == pair_views(old(out)@) + one_pair(k@, v@),
{
    let ghost kk = k@;
    let ghost vv = v@;
    out.push((k, v));
    proof {
        assert(pair_views(out@) =~= pair_views(old(out)@) + one_pair(kk, vv));
    }
}

pub fn push_opt_str(out: &mut Vec<(String, String)>, k: &str, v: &Option<String>)
    ensures
        pair_views(final(out)@) == pair_views(old(out)@) + opt_str_pairs(k@, opt_view(*v)),
{
    match v {
        Some(s) => push_pair(out, k.to_owned(), s.clone()),
        None => proof {
            assert(pair_views(out@) =~= pair_views(out@) + opt_str_pairs(k@, opt_view(*v)));
        },
    }
}

pub fn push_opt_i64(out: &mut Vec<(String, String)>, k: &str, v: &Option<i64>)
    ensures
        pair_views(final(out)@) == pair_views(old(out)@) + opt_i64_pairs(k@, *v),
{
    match v {
        Some(n) => push_pair(out, k.to_owned(), i64_string(*n)),
        None => proof {
            assert(pair_views(out@) =~= pair_views(out@) + opt_i64_pairs(k@, *v));
        },
    }
}

pub fn push_opt_u64(out: &mut Vec<(String, String)>, k: &str, v: &Option<u64>)
    ensures
        pair_views(final(out)@) == pair_views(old(out)@) + opt_u64_pairs(k@, *v),
{
    match v {
        Some(n) => push_pair(out, k.to_owned(), u64_string(*n)),
        None => proof {
            assert(pair_views(out@) =~= pair_views(out@) + opt_u64_pairs(k@, *v));
        },
    }
}

pub fn push_opt_bool(out: &mut Vec<(String, String)>, k: &str, v: &Option<bool>)
    ensures
        pair_views(final(out)@) == pair_views(old(out)@) + opt_bool_pairs(k@, *v),
{
    match v {
        Some(b) => push_pair(out, k.to_owned(), bool_string(*b)),
        None => proof {
            assert(pair_views(out@) =~= pair_views(out@) + opt_bool_pairs(k@, *v));
        },
    }
}

pub fn push_indexed(out: &mut Vec<(String, String)>, k: &str, vs: &Vec<String>)
    ensures
        pair_views(final(out)@) == pair_views(old(out)@) + indexed_pairs(
            k@,
            vs@.map_values(|s: String| s@),
        ),
{
    let ghost views = vs@.map_values(|s: String| s@);
    let n = vs.len();
    let mut i: usize = 0;
    proof {
        assert(pair_views(out@) =~= pair_views(out@) + indexed_pairs(k@, views).take(0));
    }
    while i < n
        invariant
            i <= n,
            n == vs@.len(),
            views == vs@.map_values(|s: String| s@),
            pair_views(out@) == pair_views(old(out)@) + indexed_pairs(k@, views).take(i as int),
        decreases n - i,
    {
        let mut key = k.to_owned();
        key.append("[");
        let num = u64_string(i as u64);
        key.append(num.as_str());
        key.append("]");
        let ghost kv = key@;
        push_pair(out, key, vs[i].clone());
        proof {
            assert(indexed_pairs(k@, views)[i as int] == (kv, views[i as int]));
            assert(indexed_pairs(k@, views).take(i + 1) =~= indexed_pairs(k@, views).take(
                i as int,
            ).push(indexed_pairs(k@, views)[i as int]));
            assert(pair_views(out@) =~= pair_views(old(out)@) + indexed_pairs(k@, views).take(i
                + 1));
        }
        i += 1;
    }
    proof {
        assert(indexed_pairs(k@, views).take(n as int) =~= indexed_pairs(k@, views));
    }
}

pub fn push_bracketed(out: &mut Vec<(String, String)>, k: &str, entries: &Vec<(String, String)>)
    ensures
        pair_views(final(out)@) == pair_views(old(out)@) + bracket_pairs(
            k@,
            pair_views(entries@),
        ),
{
    let ghost views = pair_views(entries@);
    let n = entries.len();
    let mut i: usize = 0;
    proof {
        assert(pair_views(out@) =~= pair_views(out@) + bracket_pairs(k@, views).take(0));
    }
    while i < n
        invariant
            i <= n,
            n == entries@.len(),
            views == pair_views(entries@),
            pair_views(out@) == pair_views(old(out)@) + bracket_pairs(k@, views).take(i as int),
        decreases n - i,
    {
        let mut key = k.to_owned();
        key.append("[");
        key.append(entries[i].0.as_str());
        key.append("]");
        let ghost kv = key@;
        push_pair(out, key, entries[i].1.clone());
        proof {
            assert(views[i as int] == (entries@[i as int].0@, entries@[i as int].1@));
            assert(bracket_pairs(k@, views)[i as int] == (kv, views[i as int].1));
            assert(bracket_pairs(k@, views).take(i + 1) =~= bracket_pairs(k@, views).take(
                i as int,
            ).push(bracket_pairs(k@, views)[i as int]));
            assert(pair_views(out@) =~= pair_views(old(out)@) + bracket_pairs(k@, views).take(i
                + 1));
        }
        i += 1;
    }
    proof {
        assert(bracket_pairs(k@, views).take(n as int) =~= bracket_pairs(k@, views));
    }
}

/// Appending one pair extends the encoded query by `&` (when the query was
/// non-empty), the encoded key, `=`, and the encoded value.
pub proof fn lemma_query_snoc(pairs: Seq<(Seq<char>, Seq<char>)>, i: int)
    requires
        0 <= i < pairs.len(),
    ensures
        query_bytes(pairs.take(i + 1)) == if i == 0 {
            enc_pair(pairs[0].0, pairs[0].1)
        } else {
            query_bytes(pairs.take(i)) + seq![38u8] + enc_pair(pairs[i].0, pairs[i].1)
        },
    decreases i,
{
    if i == 0 {
        assert(pairs.take(1).len() == 1);
        assert(pairs.take(1)[0] == pairs[0]);
    } else {
        lemma_query_snoc(pairs.drop_first(), i - 1);
        assert(pairs.take(i + 1).drop_first() =~= pairs.drop_first().take(i));
        assert(pairs.take(i).drop_first() =~= pairs.drop_first().take(i - 1));
        assert(pairs.take(i + 1)[0] == pairs[0]);
        assert(pairs.take(i)[0] == pairs[0]);
        assert(pairs.drop_first().take(i)[i - 1] == pairs[i]);
        if i == 1 {
            assert(query_bytes(pairs.take(2)) =~= query_bytes(pairs.take(1)) + seq![38u8]
                + enc_pair(pairs[1].0, pairs[1].1));
        } else {
            assert(query_bytes(pairs.take(i + 1)) =~= query_bytes(pairs.take(i)) + seq![38u8]
                + enc_pair(pairs[i].0, pairs[i].1));
        }
    }
}

} // verus!
