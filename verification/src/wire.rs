//! The decoder for the tracker API's wire format.
//!
//! The tracker answers with JSON documents in its canonical encoding: object
//! members in a fixed order, no padding whitespace, strings without escape
//! sequences, and integers in the JSON number grammar that fit in 64 bits.
//! The grammar of each document is written down here as spec functions over
//! the character sequence of the body, and the executable decoders are
//! proved to return exactly what the grammar says. A body outside the
//! grammar decodes to nothing, which the service layer reports as a decode
//! failure.
//!
//! Accepting only the canonical encoding is deliberate: it is what the
//! tracker's serializer emits, and it keeps the accepted language exactly
//! as stated here. The one visible restriction is that a string needing an
//! escape sequence (a quote or backslash in a peer-supplied field) is
//! rejected rather than decoded, and the answer then counts as a decode
//! failure.

use vstd::prelude::*;
use crate::tracker::{
    Peer, PeerId, PeerIdView, PeerView, TorrentInfo, TorrentInfoView, TrackerKey, TrackerKeyView,
    opt_int_view, opt_peer_id_view, opt_str_view, peers_view,
};

verus! {

/// The literal `lit` occurs in `s` at position `i`.
pub open spec fn lit_at(s: Seq<char>, i: int, lit: Seq<char>) -> bool {
    &&& 0 <= i
    &&& i + lit.len() <= s.len()
    &&& s.subrange(i, i + lit.len()) == lit
}

/// The position just past the literal `lit` read at position `i`.
pub open spec fn lit_end(s: Seq<char>, i: int, lit: Seq<char>) -> Option<int> {
    if lit_at(s, i, lit) {
        Some(i + lit.len())
    } else {
        None
    }
}

/// Reads the literal `lit` at position `i`, returning the position just
/// past it.
fn expect_lit(s: &str, n: usize, i: usize, lit: &str) -> (r: Option<usize>)
    requires
        n == s@.len(),
        i <= n,
    ensures
        r matches Some(j) ==> lit_end(s@, i as int, lit@) == Some(j as int) && i <= j <= n,
        r is None ==> lit_end(s@, i as int, lit@) is None,
{
    let m = lit.unicode_len();
    if m > n - i {
        assert(!lit_at(s@, i as int, lit@));
        return None;
    }
    let mut k: usize = 0;
    while k < m
        invariant
            n == s@.len(),
            m == lit@.len(),
            i + m <= n,
            k <= m,
            forall|q: int| 0 <= q < k ==> s@[i + q] == lit@[q],
        decreases m - k,
    {
        if s.get_char(i + k) != lit.get_char(k) {
            assert(!lit_at(s@, i as int, lit@)) by {
                if lit_at(s@, i as int, lit@) {
                    assert(s@.subrange(i as int, i + lit@.len())[k as int] == lit@[k as int]);
                }
            }
            return None;
        }
        k = k + 1;
    }
    assert(s@.subrange(i as int, i + lit@.len()) =~= lit@);
    Some(i + m)
}

/// `s` is exactly the literal `lit`.
pub(crate) fn str_matches(s: &str, lit: &str) -> (r: bool)
    ensures
        r == (s@ == lit@),
{
    let n = s.unicode_len();
    match expect_lit(s, n, 0, lit) {
        Some(j) => {
            if j == n {
                proof {
                    assert(s@.subrange(0, lit@.len() as int) =~= s@);
                }
                true
            } else {
                false
            }
        },
        None => {
            proof {
                if s@ == lit@ {
                    assert(s@.subrange(0, lit@.len() as int) =~= lit@);
                }
            }
            false
        },
    }
}

/// The position of the quote that closes a string whose contents start at
/// `i`. String contents run up to the first `"`; an escape character or a
/// missing closing quote is outside the grammar.
pub open spec fn string_end(s: Seq<char>, i: int) -> Option<int>
    decreases s.len() - i,
{
    if i < 0 || i >= s.len() {
        None
    } else if s[i] == '"' {
        Some(i)
    } else if s[i] == '\\' {
        None
    } else {
        string_end(s, i + 1)
    }
}

/// A string value read at position `i`: an opening quote, the contents, and
/// the closing quote. Yields the contents and the position just past the
/// closing quote.
pub open spec fn parse_string(s: Seq<char>, i: int) -> Option<(Seq<char>, int)> {
    if 0 <= i < s.len() && s[i] == '"' {
        match string_end(s, i + 1) {
            Some(j) => Some((s.subrange(i + 1, j), j + 1)),
            None => None,
        }
    } else {
        None
    }
}

/// Finds the quote that closes the string contents starting at `i`.
fn scan_string_end(s: &str, n: usize, i: usize) -> (r: Option<usize>)
    requires
        n == s@.len(),
        i <= n,
    ensures
        r matches Some(j) ==> string_end(s@, i as int) == Some(j as int) && i <= j < n,
        r is None ==> string_end(s@, i as int) is None,
    decreases n - i,
{
    if i >= n {
        None
    } else {
        let c = s.get_char(i);
        if c == '"' {
            Some(i)
        } else if c == '\\' {
            None
        } else {
            scan_string_end(s, n, i + 1)
        }
    }
}

/// Reads a string value at position `i`.
fn read_string(s: &str, n: usize, i: usize) -> (r: Option<(String, usize)>)
    requires
        n == s@.len(),
        i <= n,
    ensures
        r matches Some(p) ==> parse_string(s@, i as int) == Some((p.0@, p.1 as int)) && i < p.1
            <= n,
        r is None ==> parse_string(s@, i as int) is None,
{
    if i >= n {
        return None;
    }
    if s.get_char(i) != '"' {
        return None;
    }
    match scan_string_end(s, n, i + 1) {
        Some(j) => {
            let contents = s.substring_char(i + 1, j);
            Some((String::from_str(contents), j + 1))
        },
        None => None,
    }
}

/// `c` is a decimal digit.
pub open spec fn is_digit(c: char) -> bool {
    48 <= c as int <= 57
}

/// The numeric value of the digit `c`.
pub open spec fn digit_val(c: char) -> int {
    c as int - 48
}

/// Reads a run of digits at position `i` into the accumulator `acc`,
/// stopping at the first non-digit. A value that would exceed the 64-bit
/// signed range is outside the grammar.
pub open spec fn parse_digits(s: Seq<char>, i: int, acc: int) -> Option<(int, int)>
    decreases s.len() - i,
{
    if 0 <= i < s.len() && is_digit(s[i]) {
        let v = acc * 10 + digit_val(s[i]);
        if v > i64::MAX as int {
            None
        } else {
            parse_digits(s, i + 1, v)
        }
    } else {
        Some((acc, i))
    }
}

/// The digits at position `i` start with a superfluous zero, which the
/// JSON number grammar rejects.
pub open spec fn leading_zero_at(s: Seq<char>, i: int) -> bool {
    s[i] == '0' && i + 1 < s.len() && is_digit(s[i + 1])
}

/// A signed decimal integer at position `i`, in the JSON number grammar:
/// an optional minus sign and at least one digit, without leading zeros,
/// with a magnitude of at most `i64::MAX`.
pub open spec fn parse_i64(s: Seq<char>, i: int) -> Option<(int, int)> {
    if 0 <= i < s.len() && s[i] == '-' {
        if i + 1 < s.len() && is_digit(s[i + 1]) && !leading_zero_at(s, i + 1) {
            match parse_digits(s, i + 1, 0) {
                Some(p) => Some((-p.0, p.1)),
                None => None,
            }
        } else {
            None
        }
    } else if 0 <= i < s.len() && is_digit(s[i]) && !leading_zero_at(s, i) {
        parse_digits(s, i, 0)
    } else {
        None
    }
}

/// Reading digits never moves the position backwards.
proof fn lemma_parse_digits_lb(s: Seq<char>, i: int, acc: int)
    ensures
        parse_digits(s, i, acc) matches Some(p) ==> p.1 >= i,
    decreases s.len() - i,
{
    if 0 <= i < s.len() && is_digit(s[i]) {
        let v = acc * 10 + digit_val(s[i]);
        if v <= i64::MAX as int {
            lemma_parse_digits_lb(s, i + 1, v);
        }
    }
}

/// The character at position `i` is a decimal digit.
fn is_digit_exec(s: &str, n: usize, i: usize) -> (r: bool)
    requires
        n == s@.len(),
        i < n,
    ensures
        r == is_digit(s@[i as int]),
{
    let cv = s.get_char(i) as u32;
    48 <= cv && cv <= 57
}

/// Reads a run of digits, mirroring `parse_digits`.
fn read_digits(s: &str, n: usize, i: usize, acc: i64) -> (r: Option<(i64, usize)>)
    requires
        n == s@.len(),
        i <= n,
        acc >= 0,
    ensures
        r matches Some(p) ==> parse_digits(s@, i as int, acc as int) == Some((
            p.0 as int,
            p.1 as int,
        )) && i <= p.1 <= n && p.0 >= 0,
        r is None ==> parse_digits(s@, i as int, acc as int) is None,
    decreases n - i,
{
    if i < n {
        let c = s.get_char(i);
        let cv = c as u32;
        if 48 <= cv && cv <= 57 {
            let d = (cv - 48) as i64;
            match acc.checked_mul(10) {
                Some(m) => match m.checked_add(d) {
                    Some(v) => read_digits(s, n, i + 1, v),
                    None => None,
                },
                None => {
                    assert(acc * 10 + digit_val(s@[i as int]) > i64::MAX as int);
                    None
                },
            }
        } else {
            Some((acc, i))
        }
    } else {
        Some((acc, i))
    }
}

/// Reads a signed decimal integer, mirroring `parse_i64`.
fn read_i64(s: &str, n: usize, i: usize) -> (r: Option<(i64, usize)>)
    requires
        n == s@.len(),
        i <= n,
    ensures
        r matches Some(p) ==> parse_i64(s@, i as int) == Some((p.0 as int, p.1 as int)) && i < p.1
            <= n,
        r is None ==> parse_i64(s@, i as int) is None,
{
    if i >= n {
        return None;
    }
    let c = s.get_char(i);
    if c == '-' {
        if i + 1 < n {
            let c2 = s.get_char(i + 1);
            let cv = c2 as u32;
            if 48 <= cv && cv <= 57 {
                if c2 == '0' && i + 2 < n && is_digit_exec(s, n, i + 2) {
                    return None;
                }
                proof {
                    lemma_parse_digits_lb(s@, i as int + 1, 0);
                }
                match read_digits(s, n, i + 1, 0) {
                    Some(p) => Some((-p.0, p.1)),
                    None => None,
                }
            } else {
                None
            }
        } else {
            None
        }
    } else {
        let cv = c as u32;
        if 48 <= cv && cv <= 57 {
            if c == '0' && i + 1 < n && is_digit_exec(s, n, i + 1) {
                return None;
            }
            proof {
                lemma_parse_digits_lb(s@, i as int + 1, digit_val(s@[i as int]));
            }
            read_digits(s, n, i, 0)
        } else {
            None
        }
    }
}

/// An integer or the literal `null` at position `i`.
pub open spec fn parse_opt_i64(s: Seq<char>, i: int) -> Option<(Option<int>, int)> {
    match lit_end(s, i, "null"@) {
        Some(j) => Some((None, j)),
        None => match parse_i64(s, i) {
            Some(p) => Some((Some(p.0), p.1)),
            None => None,
        },
    }
}

/// A string or the literal `null` at position `i`.
pub open spec fn parse_opt_string(s: Seq<char>, i: int) -> Option<(Option<Seq<char>>, int)> {
    match lit_end(s, i, "null"@) {
        Some(j) => Some((None, j)),
        None => match parse_string(s, i) {
            Some(p) => Some((Some(p.0), p.1)),
            None => None,
        },
    }
}

/// An object member at position `i`: the member's label (its name together
/// with the separating punctuation) followed by an integer value.
pub open spec fn member_i64(s: Seq<char>, i: int, label: Seq<char>) -> Option<(int, int)> {
    match lit_end(s, i, label) {
        Some(j) => parse_i64(s, j),
        None => None,
    }
}

/// An object member with a string value.
pub open spec fn member_string(s: Seq<char>, i: int, label: Seq<char>) -> Option<(Seq<char>, int)> {
    match lit_end(s, i, label) {
        Some(j) => parse_string(s, j),
        None => None,
    }
}

/// An object member with an integer-or-null value.
pub open spec fn member_opt_i64(s: Seq<char>, i: int, label: Seq<char>) -> Option<
    (Option<int>, int),
> {
    match lit_end(s, i, label) {
        Some(j) => parse_opt_i64(s, j),
        None => None,
    }
}

/// An object member with a string-or-null value.
pub open spec fn member_opt_string(s: Seq<char>, i: int, label: Seq<char>) -> Option<
    (Option<Seq<char>>, int),
> {
    match lit_end(s, i, label) {
        Some(j) => parse_opt_string(s, j),
        None => None,
    }
}

/// Reads an integer-or-null value, mirroring `parse_opt_i64`.
fn read_opt_i64(s: &str, n: usize, i: usize) -> (r: Option<(Option<i64>, usize)>)
    requires
        n == s@.len(),
        i <= n,
    ensures
        r matches Some(p) ==> parse_opt_i64(s@, i as int) == Some((opt_int_view(p.0), p.1 as int))
            && i <= p.1 <= n,
        r is None ==> parse_opt_i64(s@, i as int) is None,
{
    match expect_lit(s, n, i, "null") {
        Some(j) => Some((None, j)),
        None => match read_i64(s, n, i) {
            Some(p) => Some((Some(p.0), p.1)),
            None => None,
        },
    }
}

/// Reads a string-or-null value, mirroring `parse_opt_string`.
fn read_opt_string(s: &str, n: usize, i: usize) -> (r: Option<(Option<String>, usize)>)
    requires
        n == s@.len(),
        i <= n,
    ensures
        r matches Some(p) ==> parse_opt_string(s@, i as int) == Some(
            (opt_str_view(p.0), p.1 as int),
        ) && i <= p.1 <= n,
        r is None ==> parse_opt_string(s@, i as int) is None,
{
    match expect_lit(s, n, i, "null") {
        Some(j) => Some((None, j)),
        None => match read_string(s, n, i) {
            Some(p) => Some((Some(p.0), p.1)),
            None => None,
        },
    }
}

/// Reads an object member with an integer value, mirroring `member_i64`.
fn read_member_i64(s: &str, n: usize, i: usize, label: &str) -> (r: Option<(i64, usize)>)
    requires
        n == s@.len(),
        i <= n,
    ensures
        r matches Some(p) ==> member_i64(s@, i as int, label@) == Some((p.0 as int, p.1 as int))
            && i <= p.1 <= n,
        r is None ==> member_i64(s@, i as int, label@) is None,
{
    match expect_lit(s, n, i, label) {
        Some(j) => read_i64(s, n, j),
        None => None,
    }
}

/// Reads an object member with a string value, mirroring `member_string`.
fn read_member_string(s: &str, n: usize, i: usize, label: &str) -> (r: Option<(String, usize)>)
    requires
        n == s@.len(),
        i <= n,
    ensures
        r matches Some(p) ==> member_string(s@, i as int, label@) == Some((p.0@, p.1 as int)) && i
            <= p.1 <= n,
        r is None ==> member_string(s@, i as int, label@) is None,
{
    match expect_lit(s, n, i, label) {
        Some(j) => read_string(s, n, j),
        None => None,
    }
}

/// Reads an object member with an integer-or-null value, mirroring
/// `member_opt_i64`.
fn read_member_opt_i64(s: &str, n: usize, i: usize, label: &str) -> (r: Option<
    (Option<i64>, usize),
>)
    requires
        n == s@.len(),
        i <= n,
    ensures
        r matches Some(p) ==> member_opt_i64(s@, i as int, label@) == Some(
            (opt_int_view(p.0), p.1 as int),
        ) && i <= p.1 <= n,
        r is None ==> member_opt_i64(s@, i as int, label@) is None,
{
    match expect_lit(s, n, i, label) {
        Some(j) => read_opt_i64(s, n, j),
        None => None,
    }
}

/// Reads an object member with a string-or-null value, mirroring
/// `member_opt_string`.
fn read_member_opt_string(s: &str, n: usize, i: usize, label: &str) -> (r: Option<
    (Option<String>, usize),
>)
    requires
        n == s@.len(),
        i <= n,
    ensures
        r matches Some(p) ==> member_opt_string(s@, i as int, label@) == Some(
            (opt_str_view(p.0), p.1 as int),
        ) && i <= p.1 <= n,
        r is None ==> member_opt_string(s@, i as int, label@) is None,
{
    match expect_lit(s, n, i, label) {
        Some(j) => read_opt_string(s, n, j),
        None => None,
    }
}

/// A peer identity at position `i`: either `null` or an object with the
/// `id` and `client` members.
pub open spec fn parse_peer_id(s: Seq<char>, i: int) -> Option<(Option<PeerIdView>, int)> {
    match lit_end(s, i, "null"@) {
        Some(j) => Some((None, j)),
        None => match member_opt_string(s, i, "{\"id\":"@) {
            Some(q1) => match member_opt_string(s, q1.1, ",\"client\":"@) {
                Some(q2) => match lit_end(s, q2.1, "}"@) {
                    Some(end) => Some((Some(PeerIdView { id: q1.0, client: q2.0 }), end)),
                    None => None,
                },
                None => None,
            },
            None => None,
        },
    }
}

/// Reads a peer identity, mirroring `parse_peer_id`.
fn read_peer_id(s: &str, n: usize, i: usize) -> (r: Option<(Option<PeerId>, usize)>)
    requires
        n == s@.len(),
        i <= n,
    ensures
        r matches Some(p) ==> parse_peer_id(s@, i as int) == Some(
            (opt_peer_id_view(p.0), p.1 as int),
        ) && i <= p.1 <= n,
        r is None ==> parse_peer_id(s@, i as int) is None,
{
    match expect_lit(s, n, i, "null") {
        Some(j) => Some((None, j)),
        None => match read_member_opt_string(s, n, i, "{\"id\":") {
            Some(q1) => match read_member_opt_string(s, n, q1.1, ",\"client\":") {
                Some(q2) => match expect_lit(s, n, q2.1, "}") {
                    Some(end) => Some((Some(PeerId { id: q1.0, client: q2.0 }), end)),
                    None => None,
                },
                None => None,
            },
            None => None,
        },
    }
}

/// One peer object at position `i`, with its members in the tracker's
/// canonical order.
pub open spec fn parse_peer(s: Seq<char>, i: int) -> Option<(PeerView, int)> {
    match lit_end(s, i, "{\"peer_id\":"@) {
        None => None,
        Some(i1) => match parse_peer_id(s, i1) {
            None => None,
            Some(q1) => match member_opt_string(s, q1.1, ",\"peer_addr\":"@) {
                None => None,
                Some(q2) => match member_opt_i64(s, q2.1, ",\"updated\":"@) {
                    None => None,
                    Some(q3) => match member_opt_i64(s, q3.1, ",\"uploaded\":"@) {
                        None => None,
                        Some(q4) => match member_opt_i64(s, q4.1, ",\"downloaded\":"@) {
                            None => None,
                            Some(q5) => match member_opt_i64(s, q5.1, ",\"left\":"@) {
                                None => None,
                                Some(q6) => match member_opt_string(s, q6.1, ",\"event\":"@) {
                                    None => None,
                                    Some(q7) => match lit_end(s, q7.1, "}"@) {
                                        None => None,
                                        Some(end) => Some(
                                            (
                                                PeerView {
                                                    peer_id: q1.0,
                                                    peer_addr: q2.0,
                                                    updated: q3.0,
                                                    uploaded: q4.0,
                                                    downloaded: q5.0,
                                                    left: q6.0,
                                                    event: q7.0,
                                                },
                                                end,
                                            ),
                                        ),
                                    },
                                },
                            },
                        },
                    },
                },
            },
        },
    }
}

/// Reads one peer object, mirroring `parse_peer`.
fn read_peer(s: &str, n: usize, i: usize) -> (r: Option<(Peer, usize)>)
    requires
        n == s@.len(),
        i <= n,
    ensures
        r matches Some(p) ==> parse_peer(s@, i as int) == Some((p.0@, p.1 as int)) && i < p.1 <= n,
        r is None ==> parse_peer(s@, i as int) is None,
{
    proof {
        reveal_strlit("{\"peer_id\":");
    }
    match expect_lit(s, n, i, "{\"peer_id\":") {
        None => None,
        Some(i1) => match read_peer_id(s, n, i1) {
            None => None,
            Some(q1) => match read_member_opt_string(s, n, q1.1, ",\"peer_addr\":") {
                None => None,
                Some(q2) => match read_member_opt_i64(s, n, q2.1, ",\"updated\":") {
                    None => None,
                    Some(q3) => match read_member_opt_i64(s, n, q3.1, ",\"uploaded\":") {
                        None => None,
                        Some(q4) => match read_member_opt_i64(s, n, q4.1, ",\"downloaded\":") {
                            None => None,
                            Some(q5) => match read_member_opt_i64(s, n, q5.1, ",\"left\":") {
                                None => None,
                                Some(q6) => match read_member_opt_string(s, n, q6.1, ",\"event\":")
                                 {
                                    None => None,
                                    Some(q7) => match expect_lit(s, n, q7.1, "}") {
                                        None => None,
                                        Some(end) => Some(
                                            (
                                                Peer {
                                                    peer_id: q1.0,
                                                    peer_addr: q2.0,
                                                    updated: q3.0,
                                                    uploaded: q4.0,
                                                    downloaded: q5.0,
                                                    left: q6.0,
                                                    event: q7.0,
                                                },
                                                end,
                                            ),
                                        ),
                                    },
                                },
                            },
                        },
                    },
                },
            },
        },
    }
}

/// The remainder of a peer list after its first element: either the closing
/// bracket, or a comma and a further peer before the rest.
pub open spec fn parse_peers_rest(s: Seq<char>, i: int, acc: Seq<PeerView>) -> Option<
    (Seq<PeerView>, int),
>
    decreases s.len() - i,
{
    match lit_end(s, i, "]"@) {
        Some(j) => Some((acc, j)),
        None => match lit_end(s, i, ","@) {
            Some(i1) => match parse_peer(s, i1) {
                Some(q) => if i < q.1 <= s.len() {
                    parse_peers_rest(s, q.1, acc.push(q.0))
                } else {
                    None
                },
                None => None,
            },
            None => None,
        },
    }
}

/// A peer list at position `i`: a bracketed, comma-separated sequence of
/// peer objects.
pub open spec fn parse_peers(s: Seq<char>, i: int) -> Option<(Seq<PeerView>, int)> {
    match lit_end(s, i, "["@) {
        Some(i1) => match lit_end(s, i1, "]"@) {
            Some(j) => Some((Seq::<PeerView>::empty(), j)),
            None => match parse_peer(s, i1) {
                Some(q) => parse_peers_rest(s, q.1, seq![q.0]),
                None => None,
            },
        },
        None => None,
    }
}

/// Reads the remainder of a peer list, mirroring `parse_peers_rest`.
fn read_peers_rest(s: &str, n: usize, i: usize, acc: Vec<Peer>) -> (r: Option<(Vec<Peer>, usize)>)
    requires
        n == s@.len(),
        i <= n,
    ensures
        r matches Some(p) ==> parse_peers_rest(s@, i as int, peers_view(acc@)) == Some(
            (peers_view(p.0@), p.1 as int),
        ) && i <= p.1 <= n,
        r is None ==> parse_peers_rest(s@, i as int, peers_view(acc@)) is None,
    decreases n - i,
{
    match expect_lit(s, n, i, "]") {
        Some(j) => Some((acc, j)),
        None => match expect_lit(s, n, i, ",") {
            Some(i1) => match read_peer(s, n, i1) {
                Some(q) => {
                    let (peer, j) = q;
                    let ghost old_acc = acc@;
                    let mut acc2 = acc;
                    acc2.push(peer);
                    proof {
                        assert(peers_view(acc2@) =~= peers_view(old_acc).push(peer@));
                    }
                    read_peers_rest(s, n, j, acc2)
                },
                None => None,
            },
            None => None,
        },
    }
}

/// Reads a peer list, mirroring `parse_peers`.
fn read_peers(s: &str, n: usize, i: usize) -> (r: Option<(Vec<Peer>, usize)>)
    requires
        n == s@.len(),
        i <= n,
    ensures
        r matches Some(p) ==> parse_peers(s@, i as int) == Some((peers_view(p.0@), p.1 as int))
            && i <= p.1 <= n,
        r is None ==> parse_peers(s@, i as int) is None,
{
    match expect_lit(s, n, i, "[") {
        Some(i1) => match expect_lit(s, n, i1, "]") {
            Some(j) => {
                let empty: Vec<Peer> = Vec::new();
                proof {
                    assert(peers_view(empty@) =~= Seq::<PeerView>::empty());
                }
                Some((empty, j))
            },
            None => match read_peer(s, n, i1) {
                Some(q) => {
                    let (peer, j) = q;
                    let mut acc: Vec<Peer> = Vec::new();
                    acc.push(peer);
                    proof {
                        assert(peers_view(acc@) =~= seq![peer@]);
                    }
                    read_peers_rest(s, n, j, acc)
                },
                None => None,
            },
        },
        None => None,
    }
}

/// A complete torrent-info document: one object with the `info_hash`,
/// `seeders`, `completed`, `leechers` and `peers` members, spanning the
/// whole body.
pub open spec fn parse_torrent_info(s: Seq<char>) -> Option<TorrentInfoView> {
    match member_string(s, 0, "{\"info_hash\":"@) {
        Some(h) => match member_i64(s, h.1, ",\"seeders\":"@) {
            Some(se) => match member_i64(s, se.1, ",\"completed\":"@) {
                Some(co) => match member_i64(s, co.1, ",\"leechers\":"@) {
                    Some(le) => match lit_end(s, le.1, ",\"peers\":"@) {
                        Some(i5) => match parse_peers(s, i5) {
                            Some(pe) => match lit_end(s, pe.1, "}"@) {
                                Some(end) => if end == s.len() {
                                    Some(
                                        TorrentInfoView {
                                            info_hash: h.0,
                                            seeders: se.0,
                                            completed: co.0,
                                            leechers: le.0,
                                            peers: pe.0,
                                        },
                                    )
                                } else {
                                    None
                                },
                                None => None,
                            },
                            None => None,
                        },
                        None => None,
                    },
                    None => None,
                },
                None => None,
            },
            None => None,
        },
        None => None,
    }
}

/// Decodes a torrent-info document, mirroring `parse_torrent_info`.
///
/// Returns the decoded value exactly when the body lies in the grammar.
pub fn decode_torrent_info(body: &str) -> (r: Option<TorrentInfo>)
    ensures
        r matches Some(t) ==> parse_torrent_info(body@) == Some(t@),
        r is None ==> parse_torrent_info(body@) is None,
{
    let n = body.unicode_len();
    match read_member_string(body, n, 0, "{\"info_hash\":") {
        Some(h) => match read_member_i64(body, n, h.1, ",\"seeders\":") {
            Some(se) => match read_member_i64(body, n, se.1, ",\"completed\":") {
                Some(co) => match read_member_i64(body, n, co.1, ",\"leechers\":") {
                    Some(le) => match expect_lit(body, n, le.1, ",\"peers\":") {
                        Some(i5) => match read_peers(body, n, i5) {
                            Some(pe) => match expect_lit(body, n, pe.1, "}") {
                                Some(end) => if end == n {
                                    Some(
                                        TorrentInfo {
                                            info_hash: h.0,
                                            seeders: se.0,
                                            completed: co.0,
                                            leechers: le.0,
                                            peers: pe.0,
                                        },
                                    )
                                } else {
                                    None
                                },
                                None => None,
                            },
                            None => None,
                        },
                        None => None,
                    },
                    None => None,
                },
                None => None,
            },
            None => None,
        },
        None => None,
    }
}

/// A complete announce-key document: one object with the `key` and
/// `valid_until` members, spanning the whole body.
pub open spec fn parse_tracker_key(s: Seq<char>) -> Option<TrackerKeyView> {
    match member_string(s, 0, "{\"key\":"@) {
        Some(k) => match member_i64(s, k.1, ",\"valid_until\":"@) {
            Some(v) => match lit_end(s, v.1, "}"@) {
                Some(end) => if end == s.len() {
                    Some(TrackerKeyView { key: k.0, valid_until: v.0 })
                } else {
                    None
                },
                None => None,
            },
            None => None,
        },
        None => None,
    }
}

/// Decodes an announce-key document, mirroring `parse_tracker_key`.
pub fn decode_tracker_key(body: &str) -> (r: Option<TrackerKey>)
    ensures
        r matches Some(k) ==> parse_tracker_key(body@) == Some(k@),
        r is None ==> parse_tracker_key(body@) is None,
{
    let n = body.unicode_len();
    match read_member_string(body, n, 0, "{\"key\":") {
        Some(k) => match read_member_i64(body, n, k.1, ",\"valid_until\":") {
            Some(v) => match expect_lit(body, n, v.1, "}") {
                Some(end) => if end == n {
                    Some(TrackerKey { key: k.0, valid_until: v.0 })
                } else {
                    None
                },
                None => None,
            },
            None => None,
        },
        None => None,
    }
}

} // verus!
