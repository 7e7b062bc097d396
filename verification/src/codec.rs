//! Wire codec for the three datagram channels.
//!
//! Every message is UTF-8 text over a tiny decimal grammar: the position
//! and attack channels carry `"<x> <y>"`, the info channel carries
//! `"<hp> <tag>"` with tag `m` (the sender's own hit points) or `o` (the
//! sender's estimate of its opponent's).  Encoding is canonical; decoding
//! accepts exactly the grammar below and reports anything else as
//! malformed, so a broken datagram is discarded instead of ending the
//! tick.

use vstd::prelude::*;

verus! {

/// ASCII space.
pub const SPACE: u8 = 32;

/// ASCII minus sign.
pub const MINUS: u8 = 45;

/// ASCII `m`.
pub const TAG_MINE: u8 = 109;

/// ASCII `o`.
pub const TAG_OPPONENT: u8 = 111;

pub open spec fn is_digit(b: u8) -> bool {
    48 <= b && b <= 57
}

pub open spec fn all_digits(s: Seq<u8>) -> bool {
    forall|i: int| 0 <= i < s.len() ==> is_digit(#[trigger] s[i])
}

/// Value of a digit string, most significant digit first.
pub open spec fn dec_val(s: Seq<u8>) -> int
    decreases s.len(),
{
    if s.len() == 0 {
        0
    } else {
        dec_val(s.drop_last()) * 10 + (s.last() - 48)
    }
}

/// Canonical digits of a non-negative number: no leading zero except for
/// zero itself.
pub open spec fn u_dec(n: nat) -> Seq<u8>
    decreases n,
{
    if n < 10 {
        seq![(48 + n) as u8]
    } else {
        u_dec(n / 10).push((48 + n % 10) as u8)
    }
}

/// Canonical decimal text of an integer: an optional minus sign, then the
/// canonical digits of the magnitude.
pub open spec fn int_dec(n: int) -> Seq<u8> {
    if n < 0 {
        seq![MINUS] + u_dec((-n) as nat)
    } else {
        u_dec(n as nat)
    }
}

/// A non-empty digit string.
pub open spec fn valid_digits(s: Seq<u8>) -> bool {
    s.len() >= 1 && all_digits(s)
}

/// Integer text: digits, possibly after one leading minus sign.  Leading
/// zeros are accepted on input.
pub open spec fn valid_int_text(s: Seq<u8>) -> bool {
    if s.len() >= 1 && s[0] == MINUS {
        valid_digits(s.skip(1))
    } else {
        valid_digits(s)
    }
}

/// The value integer text denotes.
pub open spec fn int_text_val(s: Seq<u8>) -> int {
    if s.len() >= 1 && s[0] == MINUS {
        -dec_val(s.skip(1))
    } else {
        dec_val(s)
    }
}

pub proof fn lemma_u_dec_wf(n: nat)
    ensures
        u_dec(n).len() >= 1,
        all_digits(u_dec(n)),
    decreases n,
{
    if n >= 10 {
        lemma_u_dec_wf(n / 10);
        let prev = u_dec(n / 10);
        let whole = u_dec(n);
        assert(whole == prev.push((48 + n % 10) as u8));
        assert forall|i: int| 0 <= i < whole.len() implies is_digit(#[trigger] whole[i]) by {
            if i < prev.len() {
                assert(whole[i] == prev[i]);
            }
        }
    }
}

/// Encoding then evaluating gives the number back.
pub proof fn lemma_u_dec_val(n: nat)
    ensures
        dec_val(u_dec(n)) == n,
    decreases n,
{
    let s0 = u_dec(n);
    if n < 10 {
        assert(s0 == seq![(48 + n) as u8]);
        assert(s0.drop_last() =~= Seq::<u8>::empty());
        assert(dec_val(s0) == dec_val(s0.drop_last()) * 10 + (s0.last() - 48));
        assert(dec_val(s0.drop_last()) == 0);
        assert(s0.last() == (48 + n) as u8);
    } else {
        lemma_u_dec_val(n / 10);
        assert(s0 == u_dec(n / 10).push((48 + n % 10) as u8));
        assert(s0.drop_last() =~= u_dec(n / 10));
        assert(s0.last() == (48 + n % 10) as u8);
        assert(dec_val(s0) == dec_val(s0.drop_last()) * 10 + (s0.last() - 48));
        assert(dec_val(s0) == (n / 10) * 10 + n % 10);
    }
}

/// Digit strings denote non-negative values.
pub proof fn lemma_dec_val_nonneg(s: Seq<u8>)
    requires
        all_digits(s),
    ensures
        dec_val(s) >= 0,
    decreases s.len(),
{
    if s.len() > 0 {
        assert(all_digits(s.drop_last()));
        lemma_dec_val_nonneg(s.drop_last());
    }
}

/// Appending one digit multiplies the prefix value by ten and adds it.
pub proof fn lemma_dec_val_take_succ(s: Seq<u8>, i: int)
    requires
        0 <= i < s.len(),
    ensures
        dec_val(s.take(i + 1)) == dec_val(s.take(i)) * 10 + (s[i] - 48),
{
    assert(s.take(i + 1).drop_last() =~= s.take(i));
    assert(s.take(i + 1).last() == s[i]);
}

/// Longer prefixes of a digit string never denote less.
pub proof fn lemma_dec_val_take_mono(s: Seq<u8>, i: int, j: int)
    requires
        all_digits(s),
        0 <= i <= j <= s.len(),
    ensures
        dec_val(s.take(i)) <= dec_val(s.take(j)),
    decreases j - i,
{
    if i < j {
        assert(all_digits(s.take(j - 1)));
        lemma_dec_val_nonneg(s.take(j - 1));
        lemma_dec_val_take_succ(s, j - 1);
        lemma_dec_val_take_mono(s, i, j - 1);
    }
}

/// Canonical integer text never contains a space.
pub proof fn lemma_int_dec_no_space(n: int)
    ensures
        forall|i: int| 0 <= i < int_dec(n).len() ==> #[trigger] int_dec(n)[i] != SPACE,
{
    if n < 0 {
        lemma_u_dec_wf((-n) as nat);
    } else {
        lemma_u_dec_wf(n as nat);
    }
}

/// Canonical integer text is valid integer text and denotes the integer it
/// was made from.
pub proof fn lemma_int_dec_round_trip(n: int)
    ensures
        valid_int_text(int_dec(n)),
        int_text_val(int_dec(n)) == n,
{
    if n < 0 {
        let m = (-n) as nat;
        lemma_u_dec_wf(m);
        lemma_u_dec_val(m);
        assert(int_dec(n).skip(1) =~= u_dec(m));
        assert(int_dec(n)[0] == MINUS);
    } else {
        lemma_u_dec_wf(n as nat);
        lemma_u_dec_val(n as nat);
        assert(int_dec(n)[0] != MINUS) by {
            lemma_u_dec_wf(n as nat);
            assert(is_digit(u_dec(n as nat)[0]));
        }
    }
}

/// Append the canonical digits of `n` to `out`.
fn push_u_dec(n: u64, out: &mut Vec<u8>)
    ensures
        final(out)@ == old(out)@ + u_dec(n as nat),
    decreases n,
{
    if n < 10 {
        out.push(48 + n as u8);
        proof {
            assert(final(out)@ =~= old(out)@ + u_dec(n as nat));
        }
    } else {
        let d = (n % 10) as u8;
        push_u_dec(n / 10, out);
        out.push(48 + d);
        proof {
            assert(final(out)@ =~= old(out)@ + u_dec(n as nat));
        }
    }
}

/// Canonical decimal encoding of a signed integer.
pub fn encode_i64(n: i64) -> (r: Vec<u8>)
    ensures
        r@ == int_dec(n as int),
{
    let mut out: Vec<u8> = Vec::new();
    if n < 0 {
        let mag = (-(n as i128)) as u64;
        out.push(MINUS);
        push_u_dec(mag, &mut out);
        proof {
            assert(out@ =~= int_dec(n as int));
        }
    } else {
        push_u_dec(n as u64, &mut out);
        proof {
            assert(out@ =~= int_dec(n as int));
        }
    }
    out
}

/// Parse the digit string `s[from..to]` as an unsigned number.  Fails
/// exactly when the range is empty, holds a non-digit, or denotes a value
/// above `u64::MAX`.
pub fn parse_u64_range(s: &Vec<u8>, from: usize, to: usize) -> (r: Option<u64>)
    requires
        from <= to <= s@.len(),
    ensures
        ({
            let seg = s@.subrange(from as int, to as int);
            &&& r is Some <==> (valid_digits(seg) && dec_val(seg) <= u64::MAX)
            &&& r is Some ==> r->Some_0 == dec_val(seg)
        }),
{
    let ghost seg = s@.subrange(from as int, to as int);
    if from == to {
        return None;
    }
    let mut acc: u64 = 0;
    let mut i: usize = from;
    while i < to
        invariant
            from <= i <= to <= s@.len(),
            seg == s@.subrange(from as int, to as int),
            all_digits(seg.take(i - from)),
            acc == dec_val(seg.take(i - from)),
        decreases to - i,
    {
        let b = s[i];
        if b < 48 || b > 57 {
            proof {
                assert(seg[i - from] == b);
                assert(!is_digit(b));
            }
            return None;
        }
        let d = (b - 48) as u64;
        let wide: u128 = acc as u128 * 10 + d as u128;
        proof {
            lemma_dec_val_take_succ(seg, i - from);
            assert(seg[i - from] == b);
        }
        if wide > u64::MAX as u128 {
            proof {
                assert(all_digits(seg.take(i - from + 1)));
                assert(dec_val(seg.take(i - from + 1)) > u64::MAX);
                if all_digits(seg) {
                    lemma_dec_val_take_mono(seg, i - from + 1, seg.len() as int);
                    assert(seg.take(seg.len() as int) =~= seg);
                }
            }
            return None;
        }
        acc = wide as u64;
        proof {
            assert(all_digits(seg.take(i - from + 1)));
        }
        i = i + 1;
    }
    proof {
        assert(seg.take(to - from) =~= seg);
    }
    Some(acc)
}

/// Parse the integer text `s[from..to]`.  Fails exactly when the range is
/// not integer text or its value does not fit an `i64`.
pub fn parse_i64_range(s: &Vec<u8>, from: usize, to: usize) -> (r: Option<i64>)
    requires
        from <= to <= s@.len(),
    ensures
        ({
            let seg = s@.subrange(from as int, to as int);
            &&& r is Some <==> (valid_int_text(seg) && i64::MIN <= int_text_val(seg) <= i64::MAX)
            &&& r is Some ==> r->Some_0 == int_text_val(seg)
        }),
{
    let ghost seg = s@.subrange(from as int, to as int);
    if from < to && s[from] == MINUS {
        proof {
            assert(seg[0] == MINUS);
            assert(seg.skip(1) =~= s@.subrange(from + 1, to as int));
        }
        let mag = parse_u64_range(s, from + 1, to);
        match mag {
            None => {
                proof {
                    if valid_int_text(seg) {
                        lemma_dec_val_nonneg(seg.skip(1));
                    }
                }
                None
            },
            Some(m) => {
                proof {
                    lemma_dec_val_nonneg(seg.skip(1));
                }
                if m <= i64::MAX as u64 {
                    Some(-(m as i64))
                } else if m == i64::MAX as u64 + 1 {
                    Some(i64::MIN)
                } else {
                    None
                }
            },
        }
    } else {
        let mag = parse_u64_range(s, from, to);
        proof {
            if seg.len() >= 1 && seg[0] == MINUS {
                assert(s@[from as int] == seg[0]);
            }
        }
        match mag {
            None => {
                proof {
                    if valid_int_text(seg) {
                        lemma_dec_val_nonneg(seg);
                    }
                }
                None
            },
            Some(m) => {
                if m <= i64::MAX as u64 {
                    Some(m as i64)
                } else {
                    None
                }
            },
        }
    }
}


/// Which side's hit points an info datagram reports, relative to its
/// sender.
#[derive(Clone, Copy, Debug, PartialEq, Eq, Structural)]
pub enum InfoTag {
    Mine,
    Opponent,
}

pub open spec fn tag_byte(t: InfoTag) -> u8 {
    match t {
        InfoTag::Mine => TAG_MINE,
        InfoTag::Opponent => TAG_OPPONENT,
    }
}

/// The info datagram: the hit points, one space, one tag letter.
pub open spec fn info_text(hp: int, tag: InfoTag) -> Seq<u8> {
    int_dec(hp) + seq![SPACE, tag_byte(tag)]
}

pub open spec fn valid_info(s: Seq<u8>) -> bool {
    &&& s.len() >= 3
    &&& s[s.len() - 2] == SPACE
    &&& (s.last() == TAG_MINE || s.last() == TAG_OPPONENT)
    &&& valid_int_text(s.take(s.len() - 2))
}

pub open spec fn info_hp(s: Seq<u8>) -> int {
    int_text_val(s.take(s.len() - 2))
}

pub open spec fn info_tag(s: Seq<u8>) -> InfoTag {
    if s.last() == TAG_MINE {
        InfoTag::Mine
    } else {
        InfoTag::Opponent
    }
}

pub fn encode_info(hp: i64, tag: InfoTag) -> (r: Vec<u8>)
    ensures
        r@ == info_text(hp as int, tag),
{
    let mut out = encode_i64(hp);
    out.push(SPACE);
    let b = match tag {
        InfoTag::Mine => TAG_MINE,
        InfoTag::Opponent => TAG_OPPONENT,
    };
    out.push(b);
    proof {
        assert(out@ =~= info_text(hp as int, tag));
    }
    out
}

/// Decode an info datagram.  Fails exactly when the bytes are not
/// `"<hp> <m|o>"` with the hit points representable as an `i64`; the
/// caller discards such a datagram and keeps its state.
pub fn decode_info(s: &Vec<u8>) -> (r: Option<(i64, InfoTag)>)
    ensures
        r is Some <==> (valid_info(s@) && i64::MIN <= info_hp(s@) <= i64::MAX),
        r is Some ==> r->Some_0.0 == info_hp(s@) && r->Some_0.1 == info_tag(s@),
{
    let n = s.len();
    if n < 3 {
        return None;
    }
    if s[n - 2] != SPACE {
        return None;
    }
    let t = s[n - 1];
    if t != TAG_MINE && t != TAG_OPPONENT {
        return None;
    }
    proof {
        assert(s@.subrange(0, n - 2) =~= s@.take(n - 2));
    }
    match parse_i64_range(s, 0, n - 2) {
        None => None,
        Some(hp) => {
            if t == TAG_MINE {
                Some((hp, InfoTag::Mine))
            } else {
                Some((hp, InfoTag::Opponent))
            }
        },
    }
}

/// Encoding any representable hit-point value and decoding the datagram
/// gives back exactly the value and the tag that were sent.
pub proof fn lemma_info_round_trip(hp: int, tag: InfoTag)
    requires
        i64::MIN <= hp <= i64::MAX,
    ensures
        valid_info(info_text(hp, tag)),
        info_hp(info_text(hp, tag)) == hp,
        info_tag(info_text(hp, tag)) == tag,
{
    let s = info_text(hp, tag);
    lemma_int_dec_round_trip(hp);
    assert(s.take(s.len() - 2) =~= int_dec(hp));
    assert(s[s.len() - 2] == SPACE);
    assert(s.last() == tag_byte(tag));
}

/// The position (and attack) datagram: two integers separated by one
/// space.
pub open spec fn pos_text(x: int, y: int) -> Seq<u8> {
    int_dec(x) + seq![SPACE] + int_dec(y)
}

/// Index of the first space in `s[i..]`, or the length when there is
/// none.
pub open spec fn first_space(s: Seq<u8>, i: int) -> int
    decreases s.len() - i,
{
    if i < 0 || i >= s.len() {
        s.len() as int
    } else if s[i] == SPACE {
        i
    } else {
        first_space(s, i + 1)
    }
}

pub open spec fn valid_pos(s: Seq<u8>) -> bool {
    let k = first_space(s, 0);
    &&& k < s.len()
    &&& valid_int_text(s.take(k))
    &&& valid_int_text(s.skip(k + 1))
}

pub open spec fn pos_x(s: Seq<u8>) -> int {
    int_text_val(s.take(first_space(s, 0)))
}

pub open spec fn pos_y(s: Seq<u8>) -> int {
    int_text_val(s.skip(first_space(s, 0) + 1))
}

pub fn encode_position(x: i64, y: i64) -> (r: Vec<u8>)
    ensures
        r@ == pos_text(x as int, y as int),
{
    let mut out = encode_i64(x);
    out.push(SPACE);
    let mut tail = encode_i64(y);
    let m = tail.len();
    let mut i: usize = 0;
    while i < m
        invariant
            m == tail@.len(),
            i <= m,
            out@ == int_dec(x as int) + seq![SPACE] + tail@.take(i as int),
            tail@ == int_dec(y as int),
        decreases m - i,
    {
        let b = tail[i];
        out.push(b);
        proof {
            assert(out@ =~= int_dec(x as int) + seq![SPACE] + tail@.take(i + 1));
        }
        i = i + 1;
    }
    proof {
        assert(tail@.take(m as int) =~= tail@);
        assert(out@ =~= pos_text(x as int, y as int));
    }
    out
}

/// Decode a position datagram.  Fails exactly when the bytes are not two
/// integer fields separated by one space, each representable as an `i64`.
pub fn decode_position(s: &Vec<u8>) -> (r: Option<(i64, i64)>)
    ensures
        r is Some <==> (valid_pos(s@) && i64::MIN <= pos_x(s@) <= i64::MAX && i64::MIN <= pos_y(
            s@,
        ) <= i64::MAX),
        r is Some ==> r->Some_0.0 == pos_x(s@) && r->Some_0.1 == pos_y(s@),
{
    let n = s.len();
    let mut i: usize = 0;
    while i < n && s[i] != SPACE
        invariant
            i <= n,
            n == s@.len(),
            first_space(s@, 0) == first_space(s@, i as int),
        decreases n - i,
    {
        i = i + 1;
    }
    if i == n {
        return None;
    }
    let k = i;
    proof {
        assert(first_space(s@, 0) == k as int);
        assert(s@.subrange(0, k as int) =~= s@.take(k as int));
        assert(s@.subrange(k + 1, n as int) =~= s@.skip(k + 1));
    }
    let x = match parse_i64_range(s, 0, k) {
        None => {
            return None;
        },
        Some(v) => v,
    };
    let y = match parse_i64_range(s, k + 1, n) {
        None => {
            return None;
        },
        Some(v) => v,
    };
    Some((x, y))
}

proof fn lemma_first_space_at_from(s: Seq<u8>, k: int, i: int)
    requires
        0 <= i <= k < s.len(),
        s[k] == SPACE,
        forall|j: int| 0 <= j < k ==> s[j] != SPACE,
    ensures
        first_space(s, i) == k,
    decreases k - i,
{
    if i < k {
        lemma_first_space_at_from(s, k, i + 1);
    }
}

/// Encoding any representable pair and decoding the datagram gives back
/// exactly the pair that was sent.
pub proof fn lemma_pos_round_trip(x: int, y: int)
    requires
        i64::MIN <= x <= i64::MAX,
        i64::MIN <= y <= i64::MAX,
    ensures
        valid_pos(pos_text(x, y)),
        pos_x(pos_text(x, y)) == x,
        pos_y(pos_text(x, y)) == y,
{
    let s = pos_text(x, y);
    let k = int_dec(x).len() as int;
    lemma_int_dec_no_space(x);
    lemma_int_dec_no_space(y);
    lemma_int_dec_round_trip(x);
    lemma_int_dec_round_trip(y);
    assert(s[k] == SPACE);
    assert(forall|j: int| 0 <= j < k ==> s[j] == int_dec(x)[j]);
    lemma_first_space_at_from(s, k, 0);
    assert(s.take(k) =~= int_dec(x));
    assert(s.skip(k + 1) =~= int_dec(y));
}

} // verus!
