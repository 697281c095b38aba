//! IPv4 addresses as plain values.
//!
//! The engine only ever needs the four octets of an address: to hand them to
//! a netlink request or to render the dotted-quad text of a delegated
//! command.  Parsing text typed by an operator into octets is the caller's
//! concern; the library receives addresses already split into octets.

use vstd::prelude::*;
use crate::strutil::{
    d_of, dec_rep, digits_val, is_digit, lemma_dec_rep_is_digits, lemma_dec_rep_len_le_3,
    lemma_dec_rep_of_digits, lemma_dec_rep_shape, lemma_digits_val_dec_rep, u32_to_string,
};

verus! {

broadcast use vstd::seq::group_seq_axioms;

/// An IPv4 address, one field per octet, most significant first.
#[derive(Clone, Copy, Debug, PartialEq, Eq, Structural)]
pub struct Ipv4 {
    pub a: u8,
    pub b: u8,
    pub c: u8,
    pub d: u8,
}

/// The dotted-quad text of `ip`, each octet in decimal.
pub open spec fn ipv4_rep(ip: Ipv4) -> Seq<char> {
    dec_rep(ip.a as nat) + seq!['.'] + dec_rep(ip.b as nat) + seq!['.'] + dec_rep(
        ip.c as nat,
    ) + seq!['.'] + dec_rep(ip.d as nat)
}

impl Ipv4 {
    /// Packs four octets into an address.
    pub fn new(a: u8, b: u8, c: u8, d: u8) -> (ip: Ipv4)
        ensures
            ip == (Ipv4 { a, b, c, d }),
    {
        Ipv4 { a, b, c, d }
    }
}

/// Renders `ip` as dotted-quad text.
pub fn format_ipv4(ip: Ipv4) -> (r: String)
    ensures
        r@ == ipv4_rep(ip),
{
    proof {
        reveal_strlit(".");
    }
    let mut s = u32_to_string(ip.a as u32);
    s.append(".");
    let sb = u32_to_string(ip.b as u32);
    s.append(sb.as_str());
    s.append(".");
    let sc = u32_to_string(ip.c as u32);
    s.append(sc.as_str());
    s.append(".");
    let sd = u32_to_string(ip.d as u32);
    s.append(sd.as_str());
    proof {
        assert(s@ =~= ipv4_rep(ip));
    }
    s
}

/// A decimal octet rendering of value `v` sits in `s` from `start` up to
/// `end`, with no digit directly after it.
pub open spec fn octet_at(s: Seq<char>, start: int, v: u8, end: int) -> bool {
    &&& 0 <= start < end <= s.len()
    &&& s.subrange(start, end) == dec_rep(v as nat)
    &&& (end == s.len() || !is_digit(s[end]))
}

/// At most one octet rendering sits at a given position.
pub proof fn lemma_octet_at_unique(s: Seq<char>, start: int, v1: u8, e1: int, v2: u8, e2: int)
    requires
        octet_at(s, start, v1, e1),
        octet_at(s, start, v2, e2),
    ensures
        v1 == v2,
        e1 == e2,
{
    lemma_dec_rep_is_digits(v1 as nat);
    lemma_dec_rep_is_digits(v2 as nat);
    if e1 < e2 {
        assert(s[e1] == s.subrange(start, e2)[e1 - start]);
        assert(is_digit(s[e1]));
        assert(false);
    }
    if e2 < e1 {
        assert(s[e2] == s.subrange(start, e1)[e2 - start]);
        assert(is_digit(s[e2]));
        assert(false);
    }
    lemma_digits_val_dec_rep(v1 as nat);
    lemma_digits_val_dec_rep(v2 as nat);
}

/// An exec test for a decimal digit.
fn digit_test(c: char) -> (b: bool)
    ensures
        b == is_digit(c),
{
    c == '0' || c == '1' || c == '2' || c == '3' || c == '4' || c == '5' || c == '6' || c == '7'
        || c == '8' || c == '9'
}

/// The value of a decimal digit character.
fn digit_value(c: char) -> (v: u32)
    requires
        is_digit(c),
    ensures
        v as nat == d_of(c),
        v < 10,
{
    if c == '0' {
        0
    } else if c == '1' {
        1
    } else if c == '2' {
        2
    } else if c == '3' {
        3
    } else if c == '4' {
        4
    } else if c == '5' {
        5
    } else if c == '6' {
        6
    } else if c == '7' {
        7
    } else if c == '8' {
        8
    } else {
        9
    }
}

/// Parses one decimal octet of `s` starting at `start`: one to three
/// digits, no leading zero, value at most 255, and no digit directly after.
/// `None` means no octet rendering sits there.
fn parse_octet(s: &str, start: usize) -> (r: Option<(u8, usize)>)
    requires
        start <= s@.len(),
    ensures
        r matches Some(p) ==> octet_at(s@, start as int, p.0, p.1 as int),
        r is None ==> forall|v: u8, end: int| !octet_at(s@, start as int, v, end),
{
    let n = s.unicode_len();
    if start >= n {
        return None;
    }
    let c0 = s.get_char(start);
    if !digit_test(c0) {
        proof {
            assert forall|v: u8, end: int| !octet_at(s@, start as int, v, end) by {
                if octet_at(s@, start as int, v, end) {
                    lemma_dec_rep_is_digits(v as nat);
                    assert(s@[start as int] == s@.subrange(start as int, end)[0]);
                    assert(is_digit(s@[start as int]));
                }
            }
        }
        return None;
    }
    if c0 == '0' {
        // The only octet rendering that starts with a zero is "0" itself.
        if start + 1 < n && digit_test(s.get_char(start + 1)) {
            proof {
                assert forall|v: u8, end: int| !octet_at(s@, start as int, v, end) by {
                    if octet_at(s@, start as int, v, end) {
                        lemma_dec_rep_shape(v as nat);
                        assert(s@[start as int] == s@.subrange(start as int, end)[0]);
                        assert(dec_rep(v as nat)[0] == '0');
                        assert(dec_rep(v as nat).len() == 1);
                        assert(end == start + 1);
                        assert(is_digit(s@[start as int + 1]));
                        assert(false);
                    }
                }
            }
            return None;
        }
        proof {
            assert(dec_rep(0) =~= seq!['0']);
            assert(s@.subrange(start as int, start as int + 1) =~= seq!['0']);
            assert(octet_at(s@, start as int, 0u8, start as int + 1));
        }
        return Some((0, start + 1));
    }
    let mut v: u32 = digit_value(c0);
    let mut end: usize = start + 1;
    proof {
        let q = s@.subrange(start as int, end as int);
        assert(q =~= seq![s@[start as int]]);
        assert(q.drop_last() =~= Seq::<char>::empty());
        assert(digits_val(Seq::<char>::empty()) == 0);
        assert(q.last() == s@[start as int]);
        assert(digits_val(q) == v as nat);
    }
    if end < n && digit_test(s.get_char(end)) {
        let d1 = digit_value(s.get_char(end));
        proof {
            let q = s@.subrange(start as int, end as int + 1);
            assert(q.drop_last() =~= s@.subrange(start as int, end as int));
            assert(q.last() == s@[end as int]);
            assert(digits_val(q) == (v as nat) * 10 + d_of(s@[end as int]));
        }
        v = v * 10 + d1;
        end = end + 1;
        if end < n && digit_test(s.get_char(end)) {
            let d2 = digit_value(s.get_char(end));
            proof {
                let q = s@.subrange(start as int, end as int + 1);
                assert(q.drop_last() =~= s@.subrange(start as int, end as int));
                assert(q.last() == s@[end as int]);
                assert(digits_val(q) == (v as nat) * 10 + d_of(s@[end as int]));
            }
            v = v * 10 + d2;
            end = end + 1;
            if end < n && digit_test(s.get_char(end)) {
                // A fourth digit follows: no octet rendering fits here.
                proof {
                    assert forall|w: u8, e: int| !octet_at(s@, start as int, w, e) by {
                        if octet_at(s@, start as int, w, e) {
                            lemma_dec_rep_len_le_3(w as nat);
                            assert(e - start <= 3);
                            assert(e < s@.len());
                            assert(is_digit(s@[e]));
                            assert(false);
                        }
                    }
                }
                return None;
            }
            if v > 255 {
                // Three digits, but the value is out of range for an octet.
                proof {
                    assert forall|w: u8, e: int| !octet_at(s@, start as int, w, e) by {
                        if octet_at(s@, start as int, w, e) {
                            lemma_dec_rep_len_le_3(w as nat);
                            assert(e - start <= 3);
                            if e < end {
                                assert(e < s@.len());
                                assert(is_digit(s@[e]));
                                assert(false);
                            }
                            assert(e == end);
                            lemma_digits_val_dec_rep(w as nat);
                            assert(digits_val(s@.subrange(start as int, end as int)) == w as nat);
                            assert(false);
                        }
                    }
                }
                return None;
            }
        }
    }
    proof {
        let q = s@.subrange(start as int, end as int);
        assert(q[0] == s@[start as int]);
        assert(q[0] != '0');
        assert(forall|i: int| 0 <= i < q.len() ==> is_digit(#[trigger] q[i]));
        lemma_dec_rep_of_digits(q);
        assert(dec_rep(v as nat) == q);
        assert(octet_at(s@, start as int, v as u8, end as int));
    }
    Some((v as u8, end))
}

/// The positions at which the four octet renderings and the three dots of
/// `ipv4_rep(ip)` sit inside a string equal to it.
pub proof fn lemma_rep_structure(s: Seq<char>, ip: Ipv4)
    requires
        s == ipv4_rep(ip),
    ensures
        ({
            let e0 = dec_rep(ip.a as nat).len() as int;
            let e1 = e0 + 1 + dec_rep(ip.b as nat).len();
            let e2 = e1 + 1 + dec_rep(ip.c as nat).len();
            let e3 = e2 + 1 + dec_rep(ip.d as nat).len();
            &&& s.len() == e3
            &&& octet_at(s, 0, ip.a, e0)
            &&& s[e0] == '.'
            &&& octet_at(s, e0 + 1, ip.b, e1)
            &&& s[e1] == '.'
            &&& octet_at(s, e1 + 1, ip.c, e2)
            &&& s[e2] == '.'
            &&& octet_at(s, e2 + 1, ip.d, e3)
        }),
{
    let qa = dec_rep(ip.a as nat);
    let qb = dec_rep(ip.b as nat);
    let qc = dec_rep(ip.c as nat);
    let qd = dec_rep(ip.d as nat);
    let e0 = qa.len() as int;
    let e1 = e0 + 1 + qb.len();
    let e2 = e1 + 1 + qc.len();
    let e3 = e2 + 1 + qd.len();
    lemma_dec_rep_shape(ip.a as nat);
    lemma_dec_rep_shape(ip.b as nat);
    lemma_dec_rep_shape(ip.c as nat);
    lemma_dec_rep_shape(ip.d as nat);
    assert(!is_digit('.'));
    assert(s.subrange(0, e0) =~= qa);
    assert(s[e0] == '.');
    assert(s.subrange(e0 + 1, e1) =~= qb);
    assert(s[e1] == '.');
    assert(s.subrange(e1 + 1, e2) =~= qc);
    assert(s[e2] == '.');
    assert(s.subrange(e2 + 1, e3) =~= qd);
}

/// Parses dotted-quad IPv4 text: exactly four decimal octets, each without
/// a leading zero and at most 255, joined by single dots.  The contract is
/// exact in both directions: a parse succeeds precisely on the canonical
/// rendering of an address, and then returns that address.
pub fn parse_ipv4(s: &str) -> (r: Option<Ipv4>)
    ensures
        r matches Some(ip) ==> ipv4_rep(ip) == s@,
        r is None ==> forall|ip: Ipv4| ipv4_rep(ip) != s@,
{
    let n = s.unicode_len();
    let (a, p0) = match parse_octet(s, 0) {
        Some(p) => p,
        None => {
            proof {
                assert forall|ip: Ipv4| ipv4_rep(ip) != s@ by {
                    if ipv4_rep(ip) == s@ {
                        lemma_rep_structure(s@, ip);
                    }
                }
            }
            return None;
        },
    };
    if p0 >= n || s.get_char(p0) != '.' {
        proof {
            assert forall|ip: Ipv4| ipv4_rep(ip) != s@ by {
                if ipv4_rep(ip) == s@ {
                    lemma_rep_structure(s@, ip);
                    let e0 = dec_rep(ip.a as nat).len() as int;
                    lemma_octet_at_unique(s@, 0, a, p0 as int, ip.a, e0);
                    assert(false);
                }
            }
        }
        return None;
    }
    let (b, p1) = match parse_octet(s, p0 + 1) {
        Some(p) => p,
        None => {
            proof {
                assert forall|ip: Ipv4| ipv4_rep(ip) != s@ by {
                    if ipv4_rep(ip) == s@ {
                        lemma_rep_structure(s@, ip);
                        let e0 = dec_rep(ip.a as nat).len() as int;
                        lemma_octet_at_unique(s@, 0, a, p0 as int, ip.a, e0);
                        assert(false);
                    }
                }
            }
            return None;
        },
    };
    if p1 >= n || s.get_char(p1) != '.' {
        proof {
            assert forall|ip: Ipv4| ipv4_rep(ip) != s@ by {
                if ipv4_rep(ip) == s@ {
                    lemma_rep_structure(s@, ip);
                    let e0 = dec_rep(ip.a as nat).len() as int;
                    let e1 = e0 + 1 + dec_rep(ip.b as nat).len();
                    lemma_octet_at_unique(s@, 0, a, p0 as int, ip.a, e0);
                    lemma_octet_at_unique(s@, p0 as int + 1, b, p1 as int, ip.b, e1);
                    assert(false);
                }
            }
        }
        return None;
    }
    let (c, p2) = match parse_octet(s, p1 + 1) {
        Some(p) => p,
        None => {
            proof {
                assert forall|ip: Ipv4| ipv4_rep(ip) != s@ by {
                    if ipv4_rep(ip) == s@ {
                        lemma_rep_structure(s@, ip);
                        let e0 = dec_rep(ip.a as nat).len() as int;
                        let e1 = e0 + 1 + dec_rep(ip.b as nat).len();
                        lemma_octet_at_unique(s@, 0, a, p0 as int, ip.a, e0);
                        lemma_octet_at_unique(s@, p0 as int + 1, b, p1 as int, ip.b, e1);
                        assert(false);
                    }
                }
            }
            return None;
        },
    };
    if p2 >= n || s.get_char(p2) != '.' {
        proof {
            assert forall|ip: Ipv4| ipv4_rep(ip) != s@ by {
                if ipv4_rep(ip) == s@ {
                    lemma_rep_structure(s@, ip);
                    let e0 = dec_rep(ip.a as nat).len() as int;
                    let e1 = e0 + 1 + dec_rep(ip.b as nat).len();
                    let e2 = e1 + 1 + dec_rep(ip.c as nat).len();
                    lemma_octet_at_unique(s@, 0, a, p0 as int, ip.a, e0);
                    lemma_octet_at_unique(s@, p0 as int + 1, b, p1 as int, ip.b, e1);
                    lemma_octet_at_unique(s@, p1 as int + 1, c, p2 as int, ip.c, e2);
                    assert(false);
                }
            }
        }
        return None;
    }
    let (d, p3) = match parse_octet(s, p2 + 1) {
        Some(p) => p,
        None => {
            proof {
                assert forall|ip: Ipv4| ipv4_rep(ip) != s@ by {
                    if ipv4_rep(ip) == s@ {
                        lemma_rep_structure(s@, ip);
                        let e0 = dec_rep(ip.a as nat).len() as int;
                        let e1 = e0 + 1 + dec_rep(ip.b as nat).len();
                        let e2 = e1 + 1 + dec_rep(ip.c as nat).len();
                        lemma_octet_at_unique(s@, 0, a, p0 as int, ip.a, e0);
                        lemma_octet_at_unique(s@, p0 as int + 1, b, p1 as int, ip.b, e1);
                        lemma_octet_at_unique(s@, p1 as int + 1, c, p2 as int, ip.c, e2);
                        assert(false);
                    }
                }
            }
            return None;
        },
    };
    if p3 != n {
        proof {
            assert forall|ip: Ipv4| ipv4_rep(ip) != s@ by {
                if ipv4_rep(ip) == s@ {
                    lemma_rep_structure(s@, ip);
                    let e0 = dec_rep(ip.a as nat).len() as int;
                    let e1 = e0 + 1 + dec_rep(ip.b as nat).len();
                    let e2 = e1 + 1 + dec_rep(ip.c as nat).len();
                    let e3 = e2 + 1 + dec_rep(ip.d as nat).len();
                    lemma_octet_at_unique(s@, 0, a, p0 as int, ip.a, e0);
                    lemma_octet_at_unique(s@, p0 as int + 1, b, p1 as int, ip.b, e1);
                    lemma_octet_at_unique(s@, p1 as int + 1, c, p2 as int, ip.c, e2);
                    lemma_octet_at_unique(s@, p2 as int + 1, d, p3 as int, ip.d, e3);
                    assert(false);
                }
            }
        }
        return None;
    }
    let ip = Ipv4 { a, b, c, d };
    proof {
        assert(s@.subrange(0, p0 as int) == dec_rep(a as nat));
        assert(s@.subrange(p0 as int + 1, p1 as int) == dec_rep(b as nat));
        assert(s@.subrange(p1 as int + 1, p2 as int) == dec_rep(c as nat));
        assert(s@.subrange(p2 as int + 1, p3 as int) == dec_rep(d as nat));
        assert(s@ =~= ipv4_rep(ip));
    }
    Some(ip)
}

} // verus!
