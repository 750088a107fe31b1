//! The peer address model: an IPv4 address as four plain octets, and a
//! parser for its dotted-decimal text. The parser accepts exactly the
//! canonical renderings (each octet written in decimal without leading
//! zeros), which is what a session configuration must carry.

use vstd::prelude::*;

verus! {

/// An IPv4 address.
#[derive(Clone, Copy, Debug, PartialEq, Eq, Structural)]
pub struct IpV4 {
    pub a: u8,
    pub b: u8,
    pub c: u8,
    pub d: u8,
}

/// Whether a byte is an ASCII decimal digit.
pub open spec fn is_digit(b: u8) -> bool {
    0x30 <= b <= 0x39
}

/// The canonical decimal text of one octet: no leading zeros.
pub open spec fn spec_dec_u8(v: u8) -> Seq<u8> {
    if v < 10 {
        seq![(v + 0x30) as u8]
    } else if v < 100 {
        seq![(v / 10 + 0x30) as u8, (v % 10 + 0x30) as u8]
    } else {
        seq![(v / 100 + 0x30) as u8, ((v / 10) % 10 + 0x30) as u8, (v % 10 + 0x30) as u8]
    }
}

/// The canonical dotted-decimal text of an address.
pub open spec fn spec_ipv4_text(ip: IpV4) -> Seq<u8> {
    spec_dec_u8(ip.a) + seq![0x2eu8] + spec_dec_u8(ip.b) + seq![0x2eu8] + spec_dec_u8(ip.c)
        + seq![0x2eu8] + spec_dec_u8(ip.d)
}

/// The decimal text of an octet is one to three digits and never starts
/// with a zero unless it is the single digit zero.
proof fn lemma_dec_u8_shape(v: u8)
    ensures
        1 <= spec_dec_u8(v).len() <= 3,
        forall|i: int| 0 <= i < spec_dec_u8(v).len() ==> is_digit(#[trigger] spec_dec_u8(v)[i]),
        spec_dec_u8(v).len() >= 2 ==> spec_dec_u8(v)[0] != 0x30,
{
    assert(v < 100 ==> v / 10 <= 9) by (bit_vector);
    assert(v % 10 <= 9) by (bit_vector);
    assert(v / 100 <= 2) by (bit_vector);
    assert((v / 10) % 10 <= 9) by (bit_vector);
    assert(10 <= v < 100 ==> v / 10 >= 1) by (bit_vector);
    assert(100 <= v ==> v / 100 >= 1) by (bit_vector);
}

/// One digit is its own value; two or three digits recompose to the
/// octet they render.
proof fn lemma_dec_recompose(v: u8)
    ensures
        v < 10 ==> spec_dec_u8(v) == seq![(v + 0x30) as u8],
        10 <= v < 100 ==> v == 10 * ((spec_dec_u8(v)[0] - 0x30) as u8) + ((spec_dec_u8(v)[1]
            - 0x30) as u8),
        100 <= v ==> v == 100 * ((spec_dec_u8(v)[0] - 0x30) as int) + 10 * ((spec_dec_u8(v)[1]
            - 0x30) as int) + ((spec_dec_u8(v)[2] - 0x30) as int),
{
    assert(10 * (v / 10) + v % 10 == v) by (bit_vector);
    assert(100 <= v ==> 100 * (v / 100) + 10 * ((v / 10) % 10) + v % 10 == v) by (bit_vector);
    assert(v < 100 ==> v / 10 <= 9) by (bit_vector);
    assert(v % 10 <= 9) by (bit_vector);
    assert(v / 100 <= 2) by (bit_vector);
    assert((v / 10) % 10 <= 9) by (bit_vector);
}

/// Whether some octet's canonical text stands at `[pos, e)` in `s`,
/// followed by a non-digit or the end of the text.
#[verifier::opaque]
pub open spec fn spec_octet_at(s: Seq<u8>, pos: int, v: u8, e: int) -> bool {
    &&& pos < e <= s.len()
    &&& s.subrange(pos, e) == spec_dec_u8(v)
    &&& (e == s.len() || !is_digit(s[e]))
}

/// Read one octet's canonical decimal text at `pos`: its value and the
/// position after it. Returns nothing when no octet text stands there.
fn parse_octet(s: &[u8], pos: usize) -> (r: Option<(u8, usize)>)
    requires
        pos <= s@.len(),
    ensures
        r matches Some((v, end)) ==> spec_octet_at(s@, pos as int, v, end as int),
        r matches Some((v, end)) ==> forall|v2: u8, e2: int|
            spec_octet_at(s@, pos as int, v2, e2) ==> (v2 == v && e2 == end),
        r is None ==> forall|v2: u8, e2: int| !spec_octet_at(s@, pos as int, v2, e2),
{
    let len = s.len();
    if pos >= len || !(0x30 <= s[pos] && s[pos] <= 0x39) {
        proof {
            assert forall|v2: u8, e2: int| !spec_octet_at(s@, pos as int, v2, e2) by {
                if spec_octet_at(s@, pos as int, v2, e2) {
                    reveal(spec_octet_at);
                    lemma_dec_u8_shape(v2);
                    assert(s@[pos as int] == spec_dec_u8(v2)[0]);
                }
            }
        }
        return None;
    }
    let d0 = s[pos] - 0x30;
    if pos + 1 == len || !(0x30 <= s[pos + 1] && s[pos + 1] <= 0x39) {
        proof {
            lemma_dec_recompose(d0);
            assert(s@.subrange(pos as int, pos + 1) =~= spec_dec_u8(d0));
            assert(spec_octet_at(s@, pos as int, d0, pos + 1)) by {
                reveal(spec_octet_at);
            }
            assert forall|v2: u8, e2: int|
                spec_octet_at(s@, pos as int, v2, e2) implies (v2 == d0 && e2 == pos + 1) by {
                reveal(spec_octet_at);
                lemma_dec_u8_shape(v2);
                let l2 = spec_dec_u8(v2).len() as int;
                assert(e2 == pos + l2);
                if l2 >= 2 {
                    assert(is_digit(s@[pos + 1]));
                }
                assert(e2 == pos + 1);
                assert(spec_dec_u8(v2)[0] == s@[pos as int]);
                lemma_dec_recompose(v2);
                if v2 >= 10 {
                    assert(spec_dec_u8(v2).len() >= 2);
                }
            }
        }
        return Some((d0, pos + 1));
    }
    if d0 == 0 {
        proof {
            assert forall|v2: u8, e2: int| !spec_octet_at(s@, pos as int, v2, e2) by {
                if spec_octet_at(s@, pos as int, v2, e2) {
                    reveal(spec_octet_at);
                    lemma_dec_u8_shape(v2);
                    let l2 = spec_dec_u8(v2).len() as int;
                    assert(e2 == pos + l2);
                    if l2 == 1 {
                        assert(is_digit(s@[e2]));
                    } else {
                        assert(spec_dec_u8(v2)[0] == s@[pos as int]);
                        assert(spec_dec_u8(v2)[0] == 0x30);
                    }
                }
            }
        }
        return None;
    }
    let d1 = s[pos + 1] - 0x30;
    if pos + 2 == len || !(0x30 <= s[pos + 2] && s[pos + 2] <= 0x39) {
        let v = 10 * d0 + d1;
        proof {
            lemma_dec_recompose(v);
            assert(10 <= v < 100);
            assert(v / 10 == d0 && v % 10 == d1) by (bit_vector)
                requires
                    v == 10 * d0 + d1,
                    1 <= d0 <= 9,
                    d1 <= 9,
            ;
            assert(s@.subrange(pos as int, pos + 2) =~= spec_dec_u8(v));
            assert(spec_octet_at(s@, pos as int, v, pos + 2)) by {
                reveal(spec_octet_at);
            }
            assert forall|v2: u8, e2: int|
                spec_octet_at(s@, pos as int, v2, e2) implies (v2 == v && e2 == pos + 2) by {
                reveal(spec_octet_at);
                lemma_dec_u8_shape(v2);
                let l2 = spec_dec_u8(v2).len() as int;
                assert(e2 == pos + l2);
                if l2 == 1 {
                    assert(is_digit(s@[e2]));
                }
                if l2 == 3 {
                    assert(is_digit(s@[pos + 2]));
                }
                assert(l2 == 2);
                assert(spec_dec_u8(v2) =~= spec_dec_u8(v));
                lemma_dec_recompose(v2);
                if v2 < 10 {
                    assert(spec_dec_u8(v2).len() == 1);
                }
                if v2 >= 100 {
                    assert(spec_dec_u8(v2).len() == 3);
                }
            }
        }
        return Some((v, pos + 2));
    }
    let d2 = s[pos + 2] - 0x30;
    if pos + 3 < len && 0x30 <= s[pos + 3] && s[pos + 3] <= 0x39 {
        proof {
            assert forall|v2: u8, e2: int| !spec_octet_at(s@, pos as int, v2, e2) by {
                if spec_octet_at(s@, pos as int, v2, e2) {
                    reveal(spec_octet_at);
                    lemma_dec_u8_shape(v2);
                    let l2 = spec_dec_u8(v2).len() as int;
                    assert(e2 == pos + l2);
                    assert(is_digit(s@[e2]));
                }
            }
        }
        return None;
    }
    let wide: u16 = 100 * (d0 as u16) + 10 * (d1 as u16) + d2 as u16;
    if wide > 255 {
        proof {
            assert forall|v2: u8, e2: int| !spec_octet_at(s@, pos as int, v2, e2) by {
                if spec_octet_at(s@, pos as int, v2, e2) {
                    reveal(spec_octet_at);
                    lemma_dec_u8_shape(v2);
                    let l2 = spec_dec_u8(v2).len() as int;
                    assert(e2 == pos + l2);
                    if l2 <= 2 {
                        assert(is_digit(s@[e2]));
                    }
                    assert(l2 == 3);
                    assert(spec_dec_u8(v2)[0] == s@[pos as int]);
                    assert(spec_dec_u8(v2)[1] == s@[pos + 1]);
                    assert(spec_dec_u8(v2)[2] == s@[pos + 2]);
                    lemma_dec_recompose(v2);
                    if v2 < 10 {
                        assert(spec_dec_u8(v2).len() == 1);
                    }
                    if 10 <= v2 && v2 < 100 {
                        assert(spec_dec_u8(v2).len() == 2);
                    }
                    assert(v2 >= 100);
                    assert(v2 == 100 * (d0 as int) + 10 * (d1 as int) + d2 as int);
                }
            }
        }
        return None;
    }
    let v = wide as u8;
    proof {
        lemma_dec_recompose(v);
        assert(v >= 100);
        assert(v / 100 == d0 && (v / 10) % 10 == d1 && v % 10 == d2) by (bit_vector)
            requires
                v == 100 * (d0 as u16) + 10 * (d1 as u16) + d2 as u16,
                1 <= d0 <= 9,
                d1 <= 9,
                d2 <= 9,
        ;
        assert(s@.subrange(pos as int, pos + 3) =~= spec_dec_u8(v));
        assert(spec_octet_at(s@, pos as int, v, pos + 3)) by {
            reveal(spec_octet_at);
        }
        assert forall|v2: u8, e2: int|
            spec_octet_at(s@, pos as int, v2, e2) implies (v2 == v && e2 == pos + 3) by {
            reveal(spec_octet_at);
            lemma_dec_u8_shape(v2);
            let l2 = spec_dec_u8(v2).len() as int;
            assert(e2 == pos + l2);
            if l2 <= 2 {
                assert(is_digit(s@[e2]));
            }
            assert(l2 == 3);
            assert(spec_dec_u8(v2) =~= spec_dec_u8(v));
            lemma_dec_recompose(v2);
            if v2 < 10 {
                assert(spec_dec_u8(v2).len() == 1);
            }
            if 10 <= v2 && v2 < 100 {
                assert(spec_dec_u8(v2).len() == 2);
            }
            assert(v2 == 100 * (d0 as int) + 10 * (d1 as int) + d2 as int);
            assert(v == 100 * (d0 as int) + 10 * (d1 as int) + d2 as int);
        }
    }
    Some((v, pos + 3))
}

/// How an address's canonical text is laid out: each octet's text stands
/// at its offset followed by a dot (or, for the last, by the end).
proof fn lemma_ipv4_text_structure(ip: IpV4)
    ensures
        ({
            let t = spec_ipv4_text(ip);
            let la = spec_dec_u8(ip.a).len() as int;
            let lb = spec_dec_u8(ip.b).len() as int;
            let lc = spec_dec_u8(ip.c).len() as int;
            let ld = spec_dec_u8(ip.d).len() as int;
            &&& t.len() == la + lb + lc + ld + 3
            &&& spec_octet_at(t, 0, ip.a, la)
            &&& t[la] == 0x2e
            &&& spec_octet_at(t, la + 1, ip.b, la + 1 + lb)
            &&& t[la + 1 + lb] == 0x2e
            &&& spec_octet_at(t, la + lb + 2, ip.c, la + lb + 2 + lc)
            &&& t[la + lb + 2 + lc] == 0x2e
            &&& spec_octet_at(t, la + lb + lc + 3, ip.d, la + lb + lc + ld + 3)
        }),
{
    let t = spec_ipv4_text(ip);
    let la = spec_dec_u8(ip.a).len() as int;
    let lb = spec_dec_u8(ip.b).len() as int;
    let lc = spec_dec_u8(ip.c).len() as int;
    let ld = spec_dec_u8(ip.d).len() as int;
    lemma_dec_u8_shape(ip.a);
    lemma_dec_u8_shape(ip.b);
    lemma_dec_u8_shape(ip.c);
    lemma_dec_u8_shape(ip.d);
    assert(t.subrange(0, la) =~= spec_dec_u8(ip.a));
    assert(t.subrange(la + 1, la + 1 + lb) =~= spec_dec_u8(ip.b));
    assert(t.subrange(la + lb + 2, la + lb + 2 + lc) =~= spec_dec_u8(ip.c));
    assert(t.subrange(la + lb + lc + 3, la + lb + lc + ld + 3) =~= spec_dec_u8(ip.d));
    reveal(spec_octet_at);
    assert(spec_octet_at(t, 0, ip.a, la));
    assert(spec_octet_at(t, la + 1, ip.b, la + 1 + lb));
    assert(spec_octet_at(t, la + lb + 2, ip.c, la + lb + 2 + lc));
    assert(spec_octet_at(t, la + lb + lc + 3, ip.d, la + lb + lc + ld + 3));
}

/// A text in which four octet texts stand separated by dots, beginning
/// at its start and reaching its end, is the canonical text of that
/// address.
proof fn lemma_ipv4_assemble(s: Seq<u8>, ip: IpV4, p1: int, p2: int, p3: int)
    requires
        spec_octet_at(s, 0, ip.a, p1),
        p1 < s.len() && s[p1] == 0x2e,
        spec_octet_at(s, p1 + 1, ip.b, p2),
        p2 < s.len() && s[p2] == 0x2e,
        spec_octet_at(s, p2 + 1, ip.c, p3),
        p3 < s.len() && s[p3] == 0x2e,
        spec_octet_at(s, p3 + 1, ip.d, s.len() as int),
    ensures
        s == spec_ipv4_text(ip),
{
    reveal(spec_octet_at);
    let t = spec_ipv4_text(ip);
    let la = spec_dec_u8(ip.a).len() as int;
    let lb = spec_dec_u8(ip.b).len() as int;
    let lc = spec_dec_u8(ip.c).len() as int;
    let ld = spec_dec_u8(ip.d).len() as int;
    assert(p1 == la);
    assert(p2 == p1 + 1 + lb);
    assert(p3 == p2 + 1 + lc);
    assert(s.len() == p3 + 1 + ld);
    assert forall|j: int| 0 <= j < s.len() implies s[j] == t[j] by {
        if j < p1 {
            assert(s[j] == s.subrange(0, p1)[j]);
        } else if j == p1 {
        } else if j < p2 {
            assert(s[j] == s.subrange(p1 + 1, p2)[j - (p1 + 1)]);
        } else if j == p2 {
        } else if j < p3 {
            assert(s[j] == s.subrange(p2 + 1, p3)[j - (p2 + 1)]);
        } else if j == p3 {
        } else {
            assert(s[j] == s.subrange(p3 + 1, s.len() as int)[j - (p3 + 1)]);
        }
    }
    assert(s =~= t);
}

/// Parse an address from its dotted-decimal text. Exactly the canonical
/// renderings are accepted: four octets in decimal without leading
/// zeros, separated by single dots, with nothing before or after.
pub fn parse_ipv4(s: &[u8]) -> (r: Option<IpV4>)
    ensures
        r matches Some(ip) ==> s@ == spec_ipv4_text(ip),
        r is None ==> forall|ip: IpV4| s@ != spec_ipv4_text(ip),
{
    let (a, p1) = match parse_octet(s, 0) {
        Some(x) => x,
        None => {
            proof {
                assert forall|ip: IpV4| s@ != spec_ipv4_text(ip) by {
                    if s@ == spec_ipv4_text(ip) {
                        lemma_ipv4_text_structure(ip);
                        let la = spec_dec_u8(ip.a).len() as int;
                        assert(spec_octet_at(s@, 0, ip.a, la));
                    }
                }
            }
            return None;
        },
    };
    if p1 >= s.len() || s[p1] != 0x2e {
        proof {
            assert forall|ip: IpV4| s@ != spec_ipv4_text(ip) by {
                    if s@ == spec_ipv4_text(ip) {
                        lemma_ipv4_text_structure(ip);
                        let la = spec_dec_u8(ip.a).len() as int;
                        assert(spec_octet_at(s@, 0, ip.a, la));
                        assert(p1 == la);
                        assert(s@[la] == 0x2e);
                    }
                }
        }
        return None;
    }
    let (b, p2) = match parse_octet(s, p1 + 1) {
        Some(x) => x,
        None => {
            proof {
                assert forall|ip: IpV4| s@ != spec_ipv4_text(ip) by {
                    if s@ == spec_ipv4_text(ip) {
                        lemma_ipv4_text_structure(ip);
                        let la = spec_dec_u8(ip.a).len() as int;
                        let lb = spec_dec_u8(ip.b).len() as int;
                        assert(spec_octet_at(s@, 0, ip.a, la));
                        assert(p1 == la);
                        assert(spec_octet_at(s@, la + 1, ip.b, la + 1 + lb));
                    }
                }
            }
            return None;
        },
    };
    if p2 >= s.len() || s[p2] != 0x2e {
        proof {
            assert forall|ip: IpV4| s@ != spec_ipv4_text(ip) by {
                    if s@ == spec_ipv4_text(ip) {
                        lemma_ipv4_text_structure(ip);
                        let la = spec_dec_u8(ip.a).len() as int;
                        let lb = spec_dec_u8(ip.b).len() as int;
                        assert(spec_octet_at(s@, 0, ip.a, la));
                        assert(p1 == la);
                        assert(spec_octet_at(s@, la + 1, ip.b, la + 1 + lb));
                        assert(p2 == la + 1 + lb);
                        assert(s@[la + 1 + lb] == 0x2e);
                    }
                }
        }
        return None;
    }
    let (c, p3) = match parse_octet(s, p2 + 1) {
        Some(x) => x,
        None => {
            proof {
                assert forall|ip: IpV4| s@ != spec_ipv4_text(ip) by {
                    if s@ == spec_ipv4_text(ip) {
                        lemma_ipv4_text_structure(ip);
                        let la = spec_dec_u8(ip.a).len() as int;
                        let lb = spec_dec_u8(ip.b).len() as int;
                        let lc = spec_dec_u8(ip.c).len() as int;
                        assert(spec_octet_at(s@, 0, ip.a, la));
                        assert(p1 == la);
                        assert(spec_octet_at(s@, la + 1, ip.b, la + 1 + lb));
                        assert(p2 == la + 1 + lb);
                        assert(spec_octet_at(s@, la + lb + 2, ip.c, la + lb + 2 + lc));
                    }
                }
            }
            return None;
        },
    };
    if p3 >= s.len() || s[p3] != 0x2e {
        proof {
            assert forall|ip: IpV4| s@ != spec_ipv4_text(ip) by {
                    if s@ == spec_ipv4_text(ip) {
                        lemma_ipv4_text_structure(ip);
                        let la = spec_dec_u8(ip.a).len() as int;
                        let lb = spec_dec_u8(ip.b).len() as int;
                        let lc = spec_dec_u8(ip.c).len() as int;
                        assert(spec_octet_at(s@, 0, ip.a, la));
                        assert(p1 == la);
                        assert(spec_octet_at(s@, la + 1, ip.b, la + 1 + lb));
                        assert(p2 == la + 1 + lb);
                        assert(spec_octet_at(s@, la + lb + 2, ip.c, la + lb + 2 + lc));
                        assert(p3 == la + lb + 2 + lc);
                        assert(s@[la + lb + 2 + lc] == 0x2e);
                    }
                }
        }
        return None;
    }
    let (d, p4) = match parse_octet(s, p3 + 1) {
        Some(x) => x,
        None => {
            proof {
                assert forall|ip: IpV4| s@ != spec_ipv4_text(ip) by {
                    if s@ == spec_ipv4_text(ip) {
                        lemma_ipv4_text_structure(ip);
                        let la = spec_dec_u8(ip.a).len() as int;
                        let lb = spec_dec_u8(ip.b).len() as int;
                        let lc = spec_dec_u8(ip.c).len() as int;
                        let ld = spec_dec_u8(ip.d).len() as int;
                        assert(spec_octet_at(s@, 0, ip.a, la));
                        assert(p1 == la);
                        assert(spec_octet_at(s@, la + 1, ip.b, la + 1 + lb));
                        assert(p2 == la + 1 + lb);
                        assert(spec_octet_at(s@, la + lb + 2, ip.c, la + lb + 2 + lc));
                        assert(p3 == la + lb + 2 + lc);
                        assert(spec_octet_at(s@, la + lb + lc + 3, ip.d, la + lb + lc + ld + 3));
                    }
                }
            }
            return None;
        },
    };
    if p4 != s.len() {
        proof {
            assert forall|ip: IpV4| s@ != spec_ipv4_text(ip) by {
                    if s@ == spec_ipv4_text(ip) {
                        lemma_ipv4_text_structure(ip);
                        let la = spec_dec_u8(ip.a).len() as int;
                        let lb = spec_dec_u8(ip.b).len() as int;
                        let lc = spec_dec_u8(ip.c).len() as int;
                        let ld = spec_dec_u8(ip.d).len() as int;
                        assert(spec_octet_at(s@, 0, ip.a, la));
                        assert(p1 == la);
                        assert(spec_octet_at(s@, la + 1, ip.b, la + 1 + lb));
                        assert(p2 == la + 1 + lb);
                        assert(spec_octet_at(s@, la + lb + 2, ip.c, la + lb + 2 + lc));
                        assert(p3 == la + lb + 2 + lc);
                        assert(spec_octet_at(s@, la + lb + lc + 3, ip.d, la + lb + lc + ld + 3));
                        assert(p4 == la + lb + lc + ld + 3);
                    }
                }
        }
        return None;
    }
    let ip = IpV4 { a, b, c, d };
    proof {
        lemma_ipv4_assemble(s@, ip, p1 as int, p2 as int, p3 as int);
    }
    Some(ip)
}

} // verus!
