//! Webhook signature verification.
//!
//! A webhook delivery carries a signature header of the form
//! `t=<timestamp>,v1=<hex signature>,...`. Verification recomputes an HMAC
//! (SHA-256, through the outside crates, behind one trusted wrapper) over
//! `<timestamp>.<payload>` with the shared signing secret, compares it
//! against every `v1` entry of the header, and checks that the signed
//! timestamp lies within the tolerance window. It fails closed: any parse
//! problem, signature mismatch or stale timestamp is rejected.

use crate::encoding::{ascii_chars, ascii_to_string, dec_str_i64};
use crate::error::WebhookError;
use crate::params::{spec_lookup, Timestamp};
use crate::strutil::str_eq;
use hmac::Mac;
use vstd::prelude::*;
use vstd::string::StrSliceExecFns;
use vstd::utf8::encode_utf8;

verus! {

/// The number of seconds a signed timestamp may lag behind `now` by
/// default.
pub const DEFAULT_TOLERANCE: i64 = 300;

/// The HMAC-SHA-256 tag of a message under a key: a function of the two
/// alone, named rather than spelled out.
pub uninterp spec fn hmac_sha256(key: Seq<u8>, msg: Seq<u8>) -> Seq<u8>;

/// Relies on `hmac::Hmac<sha2::Sha256>`: the tag depends on key and message
/// alone and is 32 bytes long; `new_from_slice` accepts a key of any length
/// for an HMAC, so the fallback arm is never taken.
#[verifier::external_body]
fn hmac_sha256_tag(key: &[u8], msg: &[u8]) -> (r: Vec<u8>)
    ensures
        r@ == hmac_sha256(key@, msg@),
        r@.len() == 32,
{
    let mut mac = match hmac::Hmac::<sha2::Sha256>::new_from_slice(key) {
        Ok(m) => m,
        Err(_) => {
            return Vec::new();
        },
    };
    mac.update(msg);
    mac.finalize().into_bytes().to_vec()
}

/// The ASCII byte of the lowercase hexadecimal digit `b` (`b < 16`).
pub open spec fn hex_byte(b: u8) -> u8 {
    if b < 10 {
        (48 + b) as u8
    } else {
        (87 + b) as u8
    }
}

/// Lowercase hexadecimal rendering of a byte sequence, two digits a byte.
pub open spec fn hex_of(bytes: Seq<u8>) -> Seq<char> {
    Seq::new(
        2 * bytes.len(),
        |i: int|
            if i % 2 == 0 {
                hex_byte(bytes[i / 2] / 16) as char
            } else {
                hex_byte(bytes[i / 2] % 16) as char
            },
    )
}

fn hex_string(bytes: &Vec<u8>) -> (r: String)
    ensures
        r@ == hex_of(bytes@),
{
    let mut out: Vec<u8> = Vec::new();
    let n = bytes.len();
    let mut i: usize = 0;
    while i < n
        invariant
            i <= n,
            n == bytes@.len(),
            out@.len() == 2 * i,
            forall|j: int|
                0 <= j < 2 * i ==> (#[trigger] out@[j]) == (if j % 2 == 0 {
                    hex_byte(bytes@[j / 2] / 16)
                } else {
                    hex_byte(bytes@[j / 2] % 16)
                }),
        decreases n - i,
    {
        let b = bytes[i];
        let hi = b / 16;
        let lo = b % 16;
        out.push(if hi < 10 { 48 + hi } else { 87 + hi });
        out.push(if lo < 10 { 48 + lo } else { 87 + lo });
        i += 1;
    }
    proof {
        assert(forall|j: int| 0 <= j < out@.len() ==> (#[trigger] out@[j]) < 128);
    }
    let r = ascii_to_string(out);
    proof {
        assert(r@ =~= hex_of(bytes@));
    }
    r
}

/// The first position of `c` in `s`, or `s.len()` when absent.
pub open spec fn first_idx(s: Seq<char>, c: char) -> int
    decreases s.len(),
{
    if s.len() == 0 {
        0
    } else if s[0] == c {
        0
    } else {
        1 + first_idx(s.drop_first(), c)
    }
}

pub proof fn lemma_first_idx(s: Seq<char>, c: char)
    ensures
        0 <= first_idx(s, c) <= s.len(),
        first_idx(s, c) < s.len() ==> s[first_idx(s, c)] == c,
        forall|j: int| 0 <= j < first_idx(s, c) ==> s[j] != c,
    decreases s.len(),
{
    if s.len() > 0 && s[0] != c {
        lemma_first_idx(s.drop_first(), c);
        assert forall|j: int| 0 <= j < first_idx(s, c) implies s[j] != c by {
            if j > 0 {
                assert(s.drop_first()[j - 1] == s[j]);
            }
        }
        if first_idx(s, c) < s.len() {
            assert(s.drop_first()[first_idx(s.drop_first(), c)] == s[first_idx(s, c)]);
        }
    }
}

/// Scans for the first occurrence of `c`.
fn find_char(s: &str, c: char) -> (r: usize)
    ensures
        r == first_idx(s@, c),
{
    let n = s.unicode_len();
    let mut i: usize = 0;
    while i < n
        invariant
            i <= n,
            n == s@.len(),
            forall|j: int| 0 <= j < i ==> s@[j] != c,
        decreases n - i,
    {
        if s.get_char(i) == c {
            proof {
                lemma_first_idx(s@, c);
                if first_idx(s@, c) < i {
                    assert(s@[first_idx(s@, c)] == c);
                }
            }
            return i;
        }
        i += 1;
    }
    proof {
        lemma_first_idx(s@, c);
        if first_idx(s@, c) < n {
            assert(s@[first_idx(s@, c)] == c);
        }
    }
    n
}

/// The parse of a signature header: comma-separated segments, each split at
/// its first `=` into a scheme and a value; a segment without `=` makes the
/// whole header unreadable.
pub open spec fn parse_header(s: Seq<char>) -> Option<Seq<(Seq<char>, Seq<char>)>>
    decreases s.len(),
    via parse_header_decreases
{
    let i = first_idx(s, ',');
    let seg = s.take(i);
    let j = first_idx(seg, '=');
    if j == seg.len() {
        None
    } else {
        let pair = (seg.take(j), seg.skip(j + 1));
        if i == s.len() {
            Some(seq![pair])
        } else {
            match parse_header(s.skip(i + 1)) {
                None => None,
                Some(rest) => Some(seq![pair] + rest),
            }
        }
    }
}

#[via_fn]
proof fn parse_header_decreases(s: Seq<char>) {
    lemma_first_idx(s, ',');
}

/// Parses a signature header into scheme/value pairs.
fn parse_pairs(s: &str) -> (r: Option<Vec<(String, String)>>)
    ensures
        r is Some <==> parse_header(s@) is Some,
        r matches Some(v) ==> Some(crate::encoding::pair_views(v@)) == parse_header(s@),
    decreases s@.len(),
{
    let n = s.unicode_len();
    let i = find_char(s, ',');
    proof {
        lemma_first_idx(s@, ',');
    }
    let seg = s.substring_char(0, i);
    proof {
        assert(seg@ =~= s@.take(i as int));
        lemma_first_idx(seg@, '=');
    }
    let m = seg.unicode_len();
    let j = find_char(seg, '=');
    if j == m {
        return None;
    }
    let scheme = seg.substring_char(0, j).to_owned();
    let value = seg.substring_char(j + 1, m).to_owned();
    proof {
        assert(scheme@ =~= seg@.take(j as int));
        assert(value@ =~= seg@.skip(j + 1));
    }
    if i == n {
        let mut v: Vec<(String, String)> = Vec::new();
        v.push((scheme, value));
        proof {
            assert(crate::encoding::pair_views(v@) =~= seq![
                (seg@.take(j as int), seg@.skip(j + 1)),
            ]);
        }
        Some(v)
    } else {
        let rest = s.substring_char(i + 1, n);
        proof {
            assert(rest@ =~= s@.skip(i + 1));
        }
        match parse_pairs(rest) {
            None => None,
            Some(mut restv) => {
                let ghost prev = restv@;
                restv.insert(0, (scheme, value));
                proof {
                    assert(crate::encoding::pair_views(restv@) =~= seq![
                        (seg@.take(j as int), seg@.skip(j + 1)),
                    ] + crate::encoding::pair_views(prev));
                }
                Some(restv)
            },
        }
    }
}

/// True when every character is a decimal digit.
pub open spec fn all_digits(s: Seq<char>) -> bool {
    forall|i: int| 0 <= i < s.len() ==> '0' <= #[trigger] s[i] <= '9'
}

/// The number a digit sequence denotes.
pub open spec fn dec_val(s: Seq<char>) -> nat
    decreases s.len(),
{
    if s.len() == 0 {
        0
    } else {
        (dec_val(s.drop_last()) * 10 + (s.last() as int - 48)) as nat
    }
}

pub proof fn lemma_dec_val_prefix(s: Seq<char>, i: int)
    requires
        0 <= i <= s.len(),
        all_digits(s),
    ensures
        dec_val(s.take(i)) <= dec_val(s),
    decreases s.len() - i,
{
    if i < s.len() {
        lemma_dec_val_prefix(s, i + 1);
        assert(s.take(i + 1).drop_last() =~= s.take(i));
        assert(dec_val(s.take(i + 1)) == dec_val(s.take(i)) * 10 + (s.take(i + 1).last() as nat
            - 48));
        assert('0' <= s[i] <= '9');
    } else {
        assert(s.take(i) =~= s);
    }
}

/// Reads a decimal timestamp. Succeeds exactly on a non-empty digit string
/// whose value fits a signed 64-bit integer.
fn parse_timestamp(s: &str) -> (r: Option<i64>)
    ensures
        r is Some <==> (s@.len() > 0 && all_digits(s@) && dec_val(s@) <= i64::MAX),
        r matches Some(t) ==> t == dec_val(s@),
{
    let n = s.unicode_len();
    if n == 0 {
        return None;
    }
    let mut acc: i64 = 0;
    let mut i: usize = 0;
    while i < n
        invariant
            i <= n,
            n == s@.len(),
            forall|j: int| 0 <= j < i ==> '0' <= #[trigger] s@[j] <= '9',
            acc == dec_val(s@.take(i as int)),
        decreases n - i,
    {
        let c = s.get_char(i);
        if !('0' <= c && c <= '9') {
            return None;
        }
        let d = (c as u32) - 48;
        if acc > (i64::MAX - d as i64) / 10 {
            proof {
                assert(s@.take(i + 1).drop_last() =~= s@.take(i as int));
                assert(dec_val(s@.take(i + 1)) == dec_val(s@.take(i as int)) * 10 + (s@[i as int]
                    as nat - 48));
                if all_digits(s@) {
                    lemma_dec_val_prefix(s@, i + 1);
                }
            }
            return None;
        }
        acc = acc * 10 + d as i64;
        proof {
            assert(s@.take(i + 1).drop_last() =~= s@.take(i as int));
            assert(dec_val(s@.take(i + 1)) == dec_val(s@.take(i as int)) * 10 + (s@[i as int]
                as nat - 48));
        }
        i += 1;
    }
    proof {
        assert(s@.take(n as int) =~= s@);
    }
    Some(acc)
}

/// The values of every `v1` pair, in order.
pub open spec fn v1_values(pairs: Seq<(Seq<char>, Seq<char>)>) -> Seq<Seq<char>>
    decreases pairs.len(),
{
    if pairs.len() == 0 {
        Seq::empty()
    } else {
        (if pairs[0].0 == "v1"@ {
            seq![pairs[0].1]
        } else {
            Seq::empty()
        }) + v1_values(pairs.drop_first())
    }
}

pub proof fn lemma_v1_values_snoc(pairs: Seq<(Seq<char>, Seq<char>)>, i: int)
    requires
        0 <= i < pairs.len(),
    ensures
        v1_values(pairs.take(i + 1)) == v1_values(pairs.take(i)) + (if pairs[i].0 == "v1"@ {
            seq![pairs[i].1]
        } else {
            Seq::<Seq<char>>::empty()
        }),
    decreases i,
{
    if i == 0 {
        assert(pairs.take(1)[0] == pairs[0]);
        assert(pairs.take(1).drop_first() =~= pairs.take(0));
        assert(v1_values(pairs.take(0)) =~= Seq::<Seq<char>>::empty());
        assert(v1_values(pairs.take(1)) =~= v1_values(pairs.take(0)) + (if pairs[0].0 == "v1"@ {
            seq![pairs[0].1]
        } else {
            Seq::<Seq<char>>::empty()
        }));
    } else {
        lemma_v1_values_snoc(pairs.drop_first(), i - 1);
        assert(pairs.take(i + 1)[0] == pairs[0]);
        assert(pairs.take(i)[0] == pairs[0]);
        assert(pairs.take(i + 1).drop_first() =~= pairs.drop_first().take(i));
        assert(pairs.take(i).drop_first() =~= pairs.drop_first().take(i - 1));
        assert(pairs.drop_first()[i - 1] == pairs[i]);
        assert(v1_values(pairs.take(i + 1)) =~= v1_values(pairs.take(i)) + (if pairs[i].0
            == "v1"@ {
            seq![pairs[i].1]
        } else {
            Seq::<Seq<char>>::empty()
        }));
    }
}

/// The characters signed for a delivery: the timestamp's decimal form, a
/// dot, and the payload.
pub open spec fn signed_payload_chars(t: int, payload: Seq<char>) -> Seq<char> {
    dec_str_i64(t) + "."@ + payload
}

/// The hexadecimal signature expected for a payload at a timestamp under a
/// secret.
pub open spec fn expected_sig(secret: Seq<char>, t: int, payload: Seq<char>) -> Seq<char> {
    hex_of(hmac_sha256(encode_utf8(secret), encode_utf8(signed_payload_chars(t, payload))))
}

/// The verdict on a delivery: unreadable headers fail closed; then a
/// signature must match; then the timestamp must lie within tolerance.
pub open spec fn spec_verify(
    payload: Seq<char>,
    sig_header: Seq<char>,
    secret: Seq<char>,
    now: int,
    tolerance: int,
) -> Result<(), WebhookError> {
    match parse_header(sig_header) {
        None => Err(WebhookError::BadHeader),
        Some(pairs) => match spec_lookup(pairs, "t"@) {
            None => Err(WebhookError::BadHeader),
            Some(ts) => if !(ts.len() > 0 && all_digits(ts) && dec_val(ts) <= i64::MAX) {
                Err(WebhookError::BadHeader)
            } else {
                let t = dec_val(ts) as int;
                if exists|i: int|
                    0 <= i < v1_values(pairs).len() && #[trigger] v1_values(pairs)[i]
                        == expected_sig(secret, t, payload) {
                    if now - t <= tolerance {
                        Ok(())
                    } else {
                        Err(WebhookError::BadTimestamp)
                    }
                } else {
                    Err(WebhookError::BadSignature)
                }
            },
        },
    }
}

/// A payload whose header carries the signature recomputed from the secret,
/// and whose signed timestamp lies within the tolerance window, verifies
/// successfully.
pub proof fn lemma_valid_signature_verifies(
    payload: Seq<char>,
    sig_header: Seq<char>,
    secret: Seq<char>,
    now: int,
    tolerance: int,
    pairs: Seq<(Seq<char>, Seq<char>)>,
    ts: Seq<char>,
)
    requires
        parse_header(sig_header) == Some(pairs),
        spec_lookup(pairs, "t"@) == Some(ts),
        ts.len() > 0,
        all_digits(ts),
        dec_val(ts) <= i64::MAX,
        exists|i: int|
            0 <= i < v1_values(pairs).len() && #[trigger] v1_values(pairs)[i] == expected_sig(
                secret,
                dec_val(ts) as int,
                payload,
            ),
        now - dec_val(ts) <= tolerance,
    ensures
        spec_verify(payload, sig_header, secret, now, tolerance) == Ok::<(), WebhookError>(()),
{
}

/// A signed timestamp older than the tolerance window is rejected, whatever
/// signatures the header carries.
pub proof fn lemma_stale_timestamp_rejected(
    payload: Seq<char>,
    sig_header: Seq<char>,
    secret: Seq<char>,
    now: int,
    tolerance: int,
    pairs: Seq<(Seq<char>, Seq<char>)>,
    ts: Seq<char>,
)
    requires
        parse_header(sig_header) == Some(pairs),
        spec_lookup(pairs, "t"@) == Some(ts),
        ts.len() > 0,
        all_digits(ts),
        dec_val(ts) <= i64::MAX,
        now - dec_val(ts) > tolerance,
    ensures
        spec_verify(payload, sig_header, secret, now, tolerance) != Ok::<(), WebhookError>(()),
{
}

/// The first value stored under scheme `k` in parsed header pairs.
fn lookup_scheme(pairs: &Vec<(String, String)>, k: &str) -> (r: Option<String>)
    ensures
        match r {
            Some(v) => spec_lookup(crate::encoding::pair_views(pairs@), k@) == Some(v@),
            None => spec_lookup(crate::encoding::pair_views(pairs@), k@) is None,
        },
{
    let ghost views = crate::encoding::pair_views(pairs@);
    let n = pairs.len();
    let mut i: usize = 0;
    proof {
        assert(views.skip(0) =~= views);
    }
    while i < n
        invariant
            i <= n,
            n == pairs@.len(),
            views == crate::encoding::pair_views(pairs@),
            spec_lookup(views, k@) == spec_lookup(views.skip(i as int), k@),
        decreases n - i,
    {
        proof {
            assert(views.skip(i as int)[0] == views[i as int]);
            assert(views.skip(i as int).drop_first() =~= views.skip(i + 1));
        }
        if str_eq(pairs[i].0.as_str(), k) {
            return Some(pairs[i].1.clone());
        }
        i += 1;
    }
    proof {
        assert(views.skip(n as int) =~= Seq::<(Seq<char>, Seq<char>)>::empty());
    }
    None
}

/// Verifies a webhook delivery against its signature header.
///
/// The header is parsed into scheme/value pairs; the `t` value is the
/// signed timestamp, the `v1` values are candidate signatures. The
/// signature of `<t>.<payload>` under the secret is recomputed and must
/// equal one of the candidates, and `now - t` must not exceed the
/// tolerance. Every failure is reported as the specific webhook error.
pub fn verify_signature(
    payload: &str,
    sig_header: &str,
    secret: &str,
    now: Timestamp,
    tolerance: i64,
) -> (r: Result<(), WebhookError>)
    ensures
        r == spec_verify(payload@, sig_header@, secret@, now as int, tolerance as int),
{
    let pairs = match parse_pairs(sig_header) {
        Some(p) => p,
        None => {
            return Err(WebhookError::BadHeader);
        },
    };
    let ghost views = crate::encoding::pair_views(pairs@);
    let ts = match lookup_scheme(&pairs, "t") {
        Some(v) => v,
        None => {
            return Err(WebhookError::BadHeader);
        },
    };
    let t = match parse_timestamp(ts.as_str()) {
        Some(t) => t,
        None => {
            return Err(WebhookError::BadHeader);
        },
    };
    let mut signed = crate::encoding::i64_string(t);
    signed.append(".");
    signed.append(payload);
    let tag = hmac_sha256_tag(secret.as_bytes(), signed.as_str().as_bytes());
    let expect = hex_string(&tag);
    proof {
        assert(signed@ =~= signed_payload_chars(t as int, payload@));
        assert(expect@ == expected_sig(secret@, t as int, payload@));
    }
    let n = pairs.len();
    let mut i: usize = 0;
    let mut found = false;
    proof {
        assert(views.take(0) =~= Seq::<(Seq<char>, Seq<char>)>::empty());
    }
    while i < n
        invariant
            i <= n,
            n == pairs@.len(),
            views == crate::encoding::pair_views(pairs@),
            expect@ == expected_sig(secret@, t as int, payload@),
            found <==> (exists|k: int|
                0 <= k < v1_values(views.take(i as int)).len() && #[trigger] v1_values(
                    views.take(i as int),
                )[k] == expect@),
        decreases n - i,
    {
        proof {
            lemma_v1_values_snoc(views, i as int);
        }
        if !found && str_eq(pairs[i].0.as_str(), "v1") && str_eq(pairs[i].1.as_str(), expect.as_str()) {
            found = true;
            proof {
                let m = v1_values(views.take(i + 1)).len();
                assert(v1_values(views.take(i + 1))[m - 1] == views[i as int].1);
            }
        } else {
            proof {
                if found {
                    let k = choose|k: int|
                        0 <= k < v1_values(views.take(i as int)).len() && #[trigger] v1_values(
                            views.take(i as int),
                        )[k] == expect@;
                    assert(v1_values(views.take(i + 1))[k] == expect@);
                } else if exists|k: int|
                    0 <= k < v1_values(views.take(i + 1)).len() && #[trigger] v1_values(
                        views.take(i + 1),
                    )[k] == expect@ {
                    let k = choose|k: int|
                        0 <= k < v1_values(views.take(i + 1)).len() && #[trigger] v1_values(
                            views.take(i + 1),
                        )[k] == expect@;
                    if k < v1_values(views.take(i as int)).len() {
                        assert(v1_values(views.take(i as int))[k] == expect@);
                    } else {
                        assert(views[i as int].0 == "v1"@ && views[i as int].1 == expect@);
                    }
                }
            }
        }
        i += 1;
    }
    proof {
        assert(views.take(n as int) =~= views);
    }
    if !found {
        return Err(WebhookError::BadSignature);
    }
    if (now as i128) - (t as i128) <= tolerance as i128 {
        Ok(())
    } else {
        Err(WebhookError::BadTimestamp)
    }
}

} // verus!
