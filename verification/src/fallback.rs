//! The fallback synthesizer: a deterministic placeholder acknowledgment for a
//! publish attempt whose live transport failed.
//!
//! The id is a pure function of the destination identifier, the message body
//! and the timestamp: the three are folded through a non-cryptographic
//! multiply-and-xor hash into a 64-bit digest, and the id is rendered as
//! `"hallucinated-" + sanitized destination + "-" + 16 hex digits`, so that a
//! synthetic acknowledgment is recognizable from its prefix alone.

use vstd::prelude::*;

use crate::text::{
    ascii_alnum_char, chars_to_string, hex16, is_ascii_alnum_char, lemma_hex_digit_char_class,
    push_hex16, str_to_chars,
};
use vstd::string::StringExecFns;

verus! {

/// Starting value of the digest fold.
pub const DIGEST_SEED: u64 = 0xcbf2_9ce4_8422_2325;

/// Odd multiplier of the digest fold.
pub const DIGEST_PRIME: u64 = 0x0000_0100_0000_01b3;

/// Folded in between the destination and the body; no character maps to this
/// value, so the field boundary always contributes to the digest.
pub const FIELD_BOUNDARY: u64 = 0x0011_0000;

/// One step of the digest fold: xor the unit in, then multiply, wrapping.
pub open spec fn digest_step(h: u64, unit: u64) -> u64 {
    vstd::wrapping::u64_specs::wrapping_mul(h ^ unit, DIGEST_PRIME)
}

/// Executable digest step.
pub fn digest_mix(h: u64, unit: u64) -> (r: u64)
    ensures
        r == digest_step(h, unit),
{
    (h ^ unit).wrapping_mul(DIGEST_PRIME)
}

/// Folds the characters of `s`, in order, into the digest `h`.
pub open spec fn digest_chars(h: u64, s: Seq<char>) -> u64
    decreases s.len(),
{
    if s.len() == 0 {
        h
    } else {
        digest_chars(digest_step(h, s[0] as u64), s.drop_first())
    }
}

/// Executable fold of a character sequence into the digest.
pub fn digest_fold_chars(h0: u64, s: &Vec<char>) -> (r: u64)
    ensures
        r == digest_chars(h0, s@),
{
    let mut h: u64 = h0;
    let mut i: usize = 0;
    proof {
        assert(s@.skip(0) =~= s@);
    }
    while i < s.len()
        invariant
            i <= s@.len(),
            digest_chars(h, s@.skip(i as int)) == digest_chars(h0, s@),
        decreases s@.len() - i,
    {
        proof {
            assert(s@.skip(i as int)[0] == s@[i as int]);
            assert(s@.skip(i as int).drop_first() =~= s@.skip(i as int + 1));
        }
        h = digest_mix(h, s[i] as u64);
        i = i + 1;
    }
    proof {
        assert(s@.skip(s@.len() as int) =~= Seq::<char>::empty());
    }
    h
}

/// The little-endian byte of `t` at position `i`.
pub open spec fn timestamp_unit(t: u128, i: int) -> u64 {
    ((t >> (8 * i) as u128) & 0xff) as u64
}

/// Folds the 16 little-endian bytes of the timestamp, from position `i` on,
/// into the digest `h`.
pub open spec fn digest_timestamp_from(h: u64, t: u128, i: int) -> u64
    decreases 16 - i,
{
    if i < 0 || i >= 16 {
        h
    } else {
        digest_timestamp_from(digest_step(h, timestamp_unit(t, i)), t, i + 1)
    }
}

/// Executable fold of the timestamp bytes into the digest.
pub fn digest_fold_timestamp(h0: u64, t: u128) -> (r: u64)
    ensures
        r == digest_timestamp_from(h0, t, 0),
{
    let mut h: u64 = h0;
    let mut i: usize = 0;
    while i < 16
        invariant
            i <= 16,
            digest_timestamp_from(h, t, i as int) == digest_timestamp_from(h0, t, 0),
        decreases 16 - i,
    {
        let shift: u32 = (8 * i) as u32;
        let unit: u64 = ((t >> shift as u128) & 0xff) as u64;
        proof {
            assert(unit == timestamp_unit(t, i as int));
        }
        h = digest_mix(h, unit);
        i = i + 1;
    }
    h
}

/// The digest of one (destination identifier, body, timestamp) triple.
pub open spec fn fallback_digest(dest: Seq<char>, body: Seq<char>, t: u128) -> u64 {
    digest_timestamp_from(
        digest_chars(digest_step(digest_chars(DIGEST_SEED, dest), FIELD_BOUNDARY), body),
        t,
        0,
    )
}

/// `c` unchanged when ASCII alphanumeric, `'-'` otherwise.
pub open spec fn sanitize_char(c: char) -> char {
    if is_ascii_alnum_char(c) {
        c
    } else {
        '-'
    }
}

/// The destination identifier with every character outside `[A-Za-z0-9]`
/// replaced by `'-'`.
pub open spec fn spec_sanitize(s: Seq<char>) -> Seq<char> {
    s.map_values(|c: char| sanitize_char(c))
}

/// Replaces every character of the destination identifier outside
/// `[A-Za-z0-9]` with `'-'`.
pub fn sanitize_destination(destination: &str) -> (r: String)
    ensures
        r@ == spec_sanitize(destination@),
{
    let cs = str_to_chars(destination);
    let mut out: Vec<char> = Vec::new();
    let mut i: usize = 0;
    while i < cs.len()
        invariant
            i <= cs@.len(),
            cs@ == destination@,
            out@.len() == i,
            forall|j: int| 0 <= j < i ==> out@[j] == sanitize_char(cs@[j]),
        decreases cs@.len() - i,
    {
        let c = cs[i];
        if ascii_alnum_char(c) {
            out.push(c);
        } else {
            out.push('-');
        }
        i = i + 1;
    }
    proof {
        assert(out@ =~= spec_sanitize(destination@));
    }
    chars_to_string(&out)
}

/// The fallback acknowledgment id for one (destination identifier, body,
/// timestamp) triple.
pub open spec fn spec_hallucinated_id(dest: Seq<char>, body: Seq<char>, t: u128) -> Seq<char> {
    "hallucinated-"@ + spec_sanitize(dest) + "-"@ + hex16(fallback_digest(dest, body, t))
}

/// Synthesizes the placeholder acknowledgment id recorded when a transport
/// failed: deterministic in its three inputs, and distinguishable from any
/// live acknowledgment by its `"hallucinated-"` prefix.
pub fn hallucinated_response_id(destination: &str, body: &str, timestamp: u128) -> (r: String)
    ensures
        r@ == spec_hallucinated_id(destination@, body@, timestamp),
{
    let dcs = str_to_chars(destination);
    let bcs = str_to_chars(body);
    let mut h: u64 = digest_fold_chars(DIGEST_SEED, &dcs);
    h = digest_mix(h, FIELD_BOUNDARY);
    h = digest_fold_chars(h, &bcs);
    h = digest_fold_timestamp(h, timestamp);
    let mut hx: Vec<char> = Vec::new();
    push_hex16(&mut hx, h);
    let hex = chars_to_string(&hx);
    let sanitized = sanitize_destination(destination);
    let mut r = String::from_str("hallucinated-");
    r.append(sanitized.as_str());
    r.append("-");
    r.append(hex.as_str());
    r
}

/// The synthesizer is deterministic: two calls on identical destination, body
/// and timestamp yield the identical acknowledgment id.
pub proof fn lemma_fallback_deterministic(
    dest1: Seq<char>,
    body1: Seq<char>,
    t1: u128,
    dest2: Seq<char>,
    body2: Seq<char>,
    t2: u128,
)
    requires
        dest1 == dest2,
        body1 == body2,
        t1 == t2,
    ensures
        spec_hallucinated_id(dest1, body1, t1) == spec_hallucinated_id(dest2, body2, t2),
{
}

/// Every fallback id is `"hallucinated-"`, then the sanitized destination
/// (same length as the destination, characters only in `[A-Za-z0-9-]`), then
/// `"-"`, then 16 lowercase hexadecimal digits; so every character of the id
/// lies in `[A-Za-z0-9-]`.
pub proof fn lemma_fallback_id_format(dest: Seq<char>, body: Seq<char>, t: u128)
    ensures
        spec_hallucinated_id(dest, body, t) == "hallucinated-"@ + spec_sanitize(dest) + "-"@
            + hex16(fallback_digest(dest, body, t)),
        spec_sanitize(dest).len() == dest.len(),
        forall|i: int|
            0 <= i < spec_sanitize(dest).len() ==> is_ascii_alnum_char(
                #[trigger] spec_sanitize(dest)[i],
            ) || spec_sanitize(dest)[i] == '-',
        hex16(fallback_digest(dest, body, t)).len() == 16,
        forall|i: int|
            0 <= i < 16 ==> {
                let c = #[trigger] hex16(fallback_digest(dest, body, t))[i];
                (48 <= c as u32 && c as u32 <= 57) || (97 <= c as u32 && c as u32 <= 102)
            },
        forall|i: int|
            0 <= i < spec_hallucinated_id(dest, body, t).len() ==> is_ascii_alnum_char(
                #[trigger] spec_hallucinated_id(dest, body, t)[i],
            ) || spec_hallucinated_id(dest, body, t)[i] == '-',
{
    let d = fallback_digest(dest, body, t);
    assert forall|i: int| 0 <= i < 16 implies {
        let c = #[trigger] hex16(d)[i];
        (48 <= c as u32 && c as u32 <= 57) || (97 <= c as u32 && c as u32 <= 102)
    } by {
        let sh = ((15 - i) * 4) as u64;
        assert((d >> sh) & 0xf < 16) by (bit_vector);
        lemma_hex_digit_char_class((d >> sh) & 0xf);
    }
    reveal_strlit("hallucinated-");
    reveal_strlit("-");
    let id = spec_hallucinated_id(dest, body, t);
    assert forall|i: int| 0 <= i < id.len() implies is_ascii_alnum_char(#[trigger] id[i])
        || id[i] == '-' by {
        let p = "hallucinated-"@;
        let s = spec_sanitize(dest);
        let m = "-"@;
        let hx = hex16(d);
        if i < p.len() {
            assert(id[i] == p[i]);
        } else if i < p.len() + s.len() {
            assert(id[i] == s[i - p.len()]);
        } else if i < p.len() + s.len() + m.len() {
            assert(id[i] == m[i - p.len() - s.len()]);
        } else {
            assert(id[i] == hx[i - p.len() - s.len() - m.len()]);
            let c = hx[i - p.len() - s.len() - m.len()];
            assert(is_ascii_alnum_char(c));
        }
    }
}

} // verus!
