//! Network addresses as plain values: IPv4 and IPv6 representations,
//! a verified parser for dotted-decimal IPv4 literals, and verified
//! rendering of socket addresses for log lines.

use vstd::prelude::*;
use vstd::string::StrSliceExecFns;
use vstd::string::StringExecFns;

use crate::text::all_dec_digits;
use crate::text::dec_digits;
use crate::text::dec_val;
use crate::text::digit_val;
use crate::text::hex_digits;
use crate::text::u16_to_hex;
use crate::text::u64_to_dec;

verus! {

/// An IP address held as plain integers.
#[derive(Clone, Copy, PartialEq, Eq, Structural, Debug)]
pub enum IpRep {
    V4 { a: u8, b: u8, c: u8, d: u8 },
    V6 { s0: u16, s1: u16, s2: u16, s3: u16, s4: u16, s5: u16, s6: u16, s7: u16 },
}

/// A concrete socket address: an IP address and a port.
#[derive(Clone, Copy, PartialEq, Eq, Structural, Debug)]
pub struct ResolvedAddr {
    pub ip: IpRep,
    pub port: u16,
}

/// The positions of the `'.'` characters of `s`, in increasing order.
pub open spec fn dot_positions(s: Seq<char>) -> Seq<int>
    decreases s.len(),
{
    if s.len() == 0 {
        seq![]
    } else {
        let rest = dot_positions(s.drop_last());
        if s.last() == '.' {
            rest.push(s.len() - 1)
        } else {
            rest
        }
    }
}

/// One field of a dotted-decimal IPv4 literal: one to three decimal
/// digits, no leading zero, and a value below 256.
pub open spec fn valid_octet_text(s: Seq<char>) -> bool {
    &&& 1 <= s.len() <= 3
    &&& all_dec_digits(s)
    &&& (s[0] == '0' ==> s.len() == 1)
    &&& dec_val(s) < 256
}

/// The four runs of characters between the dots of `s`, meaningful
/// when `s` holds exactly three dots.
pub open spec fn ipv4_fields(s: Seq<char>) -> Seq<Seq<char>> {
    let ps = dot_positions(s);
    seq![
        s.subrange(0, ps[0]),
        s.subrange(ps[0] + 1, ps[1]),
        s.subrange(ps[1] + 1, ps[2]),
        s.subrange(ps[2] + 1, s.len() as int),
    ]
}

/// The IPv4 address denoted by `s`, when `s` is a dotted-decimal
/// literal: exactly three dots, and each of the four runs between
/// them a decimal octet.  Otherwise `None`.
pub open spec fn ipv4_of_text(s: Seq<char>) -> Option<IpRep> {
    if dot_positions(s).len() == 3 && (forall|i: int|
        0 <= i < 4 ==> valid_octet_text(#[trigger] ipv4_fields(s)[i])) {
        Some(
            IpRep::V4 {
                a: dec_val(ipv4_fields(s)[0]) as u8,
                b: dec_val(ipv4_fields(s)[1]) as u8,
                c: dec_val(ipv4_fields(s)[2]) as u8,
                d: dec_val(ipv4_fields(s)[3]) as u8,
            },
        )
    } else {
        None
    }
}

/// Parses one field of a dotted-decimal literal: the characters of
/// `s` from `lo` (inclusive) to `hi` (exclusive).  Returns the octet
/// value exactly when that run is a decimal octet.
fn parse_octet(s: &str, lo: usize, hi: usize) -> (r: Option<u8>)
    requires
        lo <= hi <= s@.len(),
    ensures
        match r {
            Some(v) => valid_octet_text(s@.subrange(lo as int, hi as int)) && v as nat == dec_val(
                s@.subrange(lo as int, hi as int),
            ),
            None => !valid_octet_text(s@.subrange(lo as int, hi as int)),
        },
{
    let ghost field = s@.subrange(lo as int, hi as int);
    let n = hi - lo;
    if n == 0 || n > 3 {
        return None;
    }
    let c0 = s.get_char(lo);
    assert(c0 == field[0]);
    if c0 == '0' && n > 1 {
        return None;
    }
    let mut val: u32 = 0;
    let mut j: usize = lo;
    while j < hi
        invariant
            lo <= j <= hi <= s@.len(),
            hi - lo <= 3,
            field == s@.subrange(lo as int, hi as int),
            all_dec_digits(s@.subrange(lo as int, j as int)),
            val as nat == dec_val(s@.subrange(lo as int, j as int)),
            j - lo == 0 ==> val == 0,
            j - lo == 1 ==> val < 10,
            j - lo == 2 ==> val < 100,
            j - lo == 3 ==> val < 1000,
        decreases hi - j,
    {
        let c = s.get_char(j);
        assert(c == field[j - lo]);
        if !('0' <= c && c <= '9') {
            assert(!all_dec_digits(field));
            return None;
        }
        let d: u32 = c as u32 - '0' as u32;
        assert(d == digit_val(c));
        val = val * 10 + d;
        proof {
            let pre = s@.subrange(lo as int, j as int);
            let post = s@.subrange(lo as int, j + 1 as int);
            assert(post.drop_last() =~= pre);
            assert(post.last() == c);
        }
        j = j + 1;
    }
    assert(s@.subrange(lo as int, j as int) =~= field);
    if val > 255 {
        return None;
    }
    assert(valid_octet_text(field));
    Some(val as u8)
}

/// Parses a dotted-decimal IPv4 literal such as `203.0.113.5`.
/// Returns the address exactly when the whole string is such a
/// literal; any other string — a host name, an IPv6 literal, extra
/// characters — yields `None`.
pub fn parse_ipv4_literal(s: &str) -> (r: Option<IpRep>)
    ensures
        r == ipv4_of_text(s@),
{
    let len = s.unicode_len();
    let mut dots: Vec<usize> = Vec::new();
    let mut i: usize = 0;
    while i < len
        invariant
            i <= len,
            len == s@.len(),
            dots@.map_values(|x: usize| x as int) == dot_positions(s@.take(i as int)),
            forall|k: int| 0 <= k < dots@.len() ==> #[trigger] dots@[k] < i,
            forall|k1: int, k2: int| 0 <= k1 < k2 < dots@.len() ==> dots@[k1] < dots@[k2],
        decreases len - i,
    {
        let c = s.get_char(i);
        proof {
            let pre = s@.take(i as int);
            let post = s@.take(i + 1 as int);
            assert(post.drop_last() =~= pre);
            assert(post.last() == s@[i as int]);
        }
        if c == '.' {
            dots.push(i);
            proof {
                assert(dots@.map_values(|x: usize| x as int) =~= dot_positions(
                    s@.take(i + 1 as int),
                ));
            }
        } else {
            proof {
                assert(dots@.map_values(|x: usize| x as int) =~= dot_positions(
                    s@.take(i + 1 as int),
                ));
            }
        }
        i = i + 1;
    }
    proof {
        assert(s@.take(len as int) =~= s@);
    }
    if dots.len() != 3 {
        return None;
    }
    let p0 = dots[0];
    let p1 = dots[1];
    let p2 = dots[2];
    proof {
        assert(dots@.map_values(|x: usize| x as int)[0] == p0 as int);
        assert(dots@.map_values(|x: usize| x as int)[1] == p1 as int);
        assert(dots@.map_values(|x: usize| x as int)[2] == p2 as int);
        assert(dot_positions(s@)[0] == p0 as int);
        assert(dot_positions(s@)[1] == p1 as int);
        assert(dot_positions(s@)[2] == p2 as int);
    }
    let a = match parse_octet(s, 0, p0) {
        Some(v) => v,
        None => {
            assert(!valid_octet_text(ipv4_fields(s@)[0]));
            return None;
        },
    };
    let b = match parse_octet(s, p0 + 1, p1) {
        Some(v) => v,
        None => {
            assert(!valid_octet_text(ipv4_fields(s@)[1]));
            return None;
        },
    };
    let c = match parse_octet(s, p1 + 1, p2) {
        Some(v) => v,
        None => {
            assert(!valid_octet_text(ipv4_fields(s@)[2]));
            return None;
        },
    };
    let d = match parse_octet(s, p2 + 1, len) {
        Some(v) => v,
        None => {
            assert(!valid_octet_text(ipv4_fields(s@)[3]));
            return None;
        },
    };
    let r = Some(IpRep::V4 { a, b, c, d });
    proof {
        assert(forall|i: int| 0 <= i < 4 ==> valid_octet_text(#[trigger] ipv4_fields(s@)[i]));
    }
    r
}

/// A string without dots has no dot positions.
proof fn lemma_dot_positions_none(s: Seq<char>)
    requires
        forall|i: int| 0 <= i < s.len() ==> s[i] != '.',
    ensures
        dot_positions(s) =~= Seq::<int>::empty(),
    decreases s.len(),
{
    if s.len() > 0 {
        assert(forall|i: int| 0 <= i < s.drop_last().len() ==> s.drop_last()[i] != '.');
        lemma_dot_positions_none(s.drop_last());
        assert(s.last() != '.');
    }
}

/// The dot positions of a concatenation: those of the left part,
/// then those of the right part shifted past it.
proof fn lemma_dot_positions_concat(x: Seq<char>, y: Seq<char>)
    ensures
        dot_positions(x + y) =~= dot_positions(x) + dot_positions(y).map_values(
            |p: int| p + x.len(),
        ),
    decreases y.len(),
{
    if y.len() == 0 {
        assert(x + y =~= x);
        assert(dot_positions(y) =~= Seq::<int>::empty());
        assert(dot_positions(y).map_values(|p: int| p + x.len()) =~= Seq::<int>::empty());
    } else {
        let y0 = y.drop_last();
        lemma_dot_positions_concat(x, y0);
        assert((x + y).drop_last() =~= x + y0);
        assert((x + y).last() == y.last());
        if y.last() == '.' {
            assert(dot_positions(x + y) == dot_positions(x + y0).push((x + y).len() - 1));
            assert(dot_positions(y) == dot_positions(y0).push(y.len() - 1));
            assert(dot_positions(y).map_values(|p: int| p + x.len()) =~= dot_positions(
                y0,
            ).map_values(|p: int| p + x.len()).push(y.len() - 1 + x.len()));
        } else {
            assert(dot_positions(x + y) == dot_positions(x + y0));
            assert(dot_positions(y) == dot_positions(y0));
        }
    }
}

/// The text of an IP address: dotted decimal for IPv4; for IPv6 the
/// eight colon-separated hexadecimal segments in brackets, lower
/// case, without zero compression.
pub open spec fn ip_text(ip: IpRep) -> Seq<char> {
    match ip {
        IpRep::V4 { a, b, c, d } => dec_digits(a as nat) + seq!['.'] + dec_digits(b as nat)
            + seq!['.'] + dec_digits(c as nat) + seq!['.'] + dec_digits(d as nat),
        IpRep::V6 { s0, s1, s2, s3, s4, s5, s6, s7 } => seq!['['] + hex_digits(s0 as nat)
            + seq![':'] + hex_digits(s1 as nat) + seq![':'] + hex_digits(s2 as nat) + seq![':']
            + hex_digits(s3 as nat) + seq![':'] + hex_digits(s4 as nat) + seq![':'] + hex_digits(
            s5 as nat,
        ) + seq![':'] + hex_digits(s6 as nat) + seq![':'] + hex_digits(s7 as nat) + seq![']'],
    }
}

/// The text of a socket address: the IP text, a colon, the port in
/// decimal.
pub open spec fn sock_text(addr: ResolvedAddr) -> Seq<char> {
    ip_text(addr.ip) + seq![':'] + dec_digits(addr.port as nat)
}

/// Renders an IP address as [`ip_text`] says.
pub fn format_ip(ip: &IpRep) -> (r: String)
    ensures
        r@ == ip_text(*ip),
{
    proof {
        reveal_strlit(".");
        reveal_strlit(":");
        reveal_strlit("[");
        reveal_strlit("]");
    }
    match ip {
        IpRep::V4 { a, b, c, d } => {
            let mut r = u64_to_dec(*a as u64);
            r.append(".");
            let sb = u64_to_dec(*b as u64);
            r.append(sb.as_str());
            r.append(".");
            let sc = u64_to_dec(*c as u64);
            r.append(sc.as_str());
            r.append(".");
            let sd = u64_to_dec(*d as u64);
            r.append(sd.as_str());
            proof {
                assert(r@ =~= ip_text(*ip));
            }
            r
        },
        IpRep::V6 { s0, s1, s2, s3, s4, s5, s6, s7 } => {
            let mut r = String::from_str("[");
            let h0 = u16_to_hex(*s0);
            r.append(h0.as_str());
            r.append(":");
            let h1 = u16_to_hex(*s1);
            r.append(h1.as_str());
            r.append(":");
            let h2 = u16_to_hex(*s2);
            r.append(h2.as_str());
            r.append(":");
            let h3 = u16_to_hex(*s3);
            r.append(h3.as_str());
            r.append(":");
            let h4 = u16_to_hex(*s4);
            r.append(h4.as_str());
            r.append(":");
            let h5 = u16_to_hex(*s5);
            r.append(h5.as_str());
            r.append(":");
            let h6 = u16_to_hex(*s6);
            r.append(h6.as_str());
            r.append(":");
            let h7 = u16_to_hex(*s7);
            r.append(h7.as_str());
            r.append("]");
            proof {
                assert(r@ =~= ip_text(*ip));
            }
            r
        },
    }
}

/// The dotted-decimal text of any IPv4 address parses back to
/// exactly that address: rendering and parsing are a round trip.
pub proof fn lemma_ipv4_text_round_trip(av: u8, bv: u8, cv: u8, dv: u8)
    ensures
        ipv4_of_text(ip_text(IpRep::V4 { a: av, b: bv, c: cv, d: dv })) == Some(
            IpRep::V4 { a: av, b: bv, c: cv, d: dv },
        ),
{
    let ip = IpRep::V4 { a: av, b: bv, c: cv, d: dv };
    let pa = dec_digits(av as nat);
    let pb = dec_digits(bv as nat);
    let pc = dec_digits(cv as nat);
    let pd = dec_digits(dv as nat);
    let dot = seq!['.'];
    let t = ip_text(ip);
    assert(t == pa + dot + pb + dot + pc + dot + pd);

    crate::text::lemma_dec_digits_are_digits(av as nat);
    crate::text::lemma_dec_digits_are_digits(bv as nat);
    crate::text::lemma_dec_digits_are_digits(cv as nat);
    crate::text::lemma_dec_digits_are_digits(dv as nat);
    crate::text::lemma_dec_val_of_digits(av as nat);
    crate::text::lemma_dec_val_of_digits(bv as nat);
    crate::text::lemma_dec_val_of_digits(cv as nat);
    crate::text::lemma_dec_val_of_digits(dv as nat);
    crate::text::lemma_dec_digits_len(av as nat);
    crate::text::lemma_dec_digits_len(bv as nat);
    crate::text::lemma_dec_digits_len(cv as nat);
    crate::text::lemma_dec_digits_len(dv as nat);
    crate::text::lemma_dec_digits_no_leading_zero(av as nat);
    crate::text::lemma_dec_digits_no_leading_zero(bv as nat);
    crate::text::lemma_dec_digits_no_leading_zero(cv as nat);
    crate::text::lemma_dec_digits_no_leading_zero(dv as nat);
    crate::text::lemma_dec_digits_len(0);

    assert(forall|i: int| 0 <= i < pa.len() ==> pa[i] != '.') by {
        assert(forall|i: int| 0 <= i < pa.len() ==> crate::text::is_dec_digit(#[trigger] pa[i]));
    }
    assert(forall|i: int| 0 <= i < pb.len() ==> pb[i] != '.') by {
        assert(forall|i: int| 0 <= i < pb.len() ==> crate::text::is_dec_digit(#[trigger] pb[i]));
    }
    assert(forall|i: int| 0 <= i < pc.len() ==> pc[i] != '.') by {
        assert(forall|i: int| 0 <= i < pc.len() ==> crate::text::is_dec_digit(#[trigger] pc[i]));
    }
    assert(forall|i: int| 0 <= i < pd.len() ==> pd[i] != '.') by {
        assert(forall|i: int| 0 <= i < pd.len() ==> crate::text::is_dec_digit(#[trigger] pd[i]));
    }
    lemma_dot_positions_none(pa);
    lemma_dot_positions_none(pb);
    lemma_dot_positions_none(pc);
    lemma_dot_positions_none(pd);
    assert(dot_positions(dot) =~= seq![0int]) by {
        assert(dot.len() == 1);
        assert(dot.drop_last() =~= Seq::<char>::empty());
        assert(dot.last() == '.');
        assert(dot_positions(Seq::<char>::empty()) =~= Seq::<int>::empty());
        assert(dot_positions(dot) == dot_positions(dot.drop_last()).push(0));
    }

    let la = pa.len() as int;
    let lb = pb.len() as int;
    let lc = pc.len() as int;
    let s1 = pa + dot;
    let s2 = s1 + pb;
    let s3 = s2 + dot;
    let s4 = s3 + pc;
    let s5 = s4 + dot;
    lemma_dot_positions_concat(pa, dot);
    assert(dot_positions(s1) =~= seq![la]);
    lemma_dot_positions_concat(s1, pb);
    assert(dot_positions(s2) =~= seq![la]);
    lemma_dot_positions_concat(s2, dot);
    assert(dot_positions(s3) =~= seq![la, la + 1 + lb]);
    lemma_dot_positions_concat(s3, pc);
    assert(dot_positions(s4) =~= seq![la, la + 1 + lb]);
    lemma_dot_positions_concat(s4, dot);
    assert(dot_positions(s5) =~= seq![la, la + 1 + lb, la + 1 + lb + 1 + lc]);
    lemma_dot_positions_concat(s5, pd);
    assert(t == s5 + pd);
    assert(dot_positions(t) =~= seq![la, la + 1 + lb, la + 1 + lb + 1 + lc]);

    let fields = ipv4_fields(t);
    assert(fields[0] =~= pa);
    assert(fields[1] =~= pb);
    assert(fields[2] =~= pc);
    assert(fields[3] =~= pd);

    assert(valid_octet_text(pa)) by {
        if pa[0] == '0' {
            assert(av == 0);
        }
    }
    assert(valid_octet_text(pb)) by {
        if pb[0] == '0' {
            assert(bv == 0);
        }
    }
    assert(valid_octet_text(pc)) by {
        if pc[0] == '0' {
            assert(cv == 0);
        }
    }
    assert(valid_octet_text(pd)) by {
        if pd[0] == '0' {
            assert(dv == 0);
        }
    }
    assert(forall|i: int| 0 <= i < 4 ==> valid_octet_text(#[trigger] ipv4_fields(t)[i]));
}

/// Renders a socket address as [`sock_text`] says.
pub fn format_addr(addr: &ResolvedAddr) -> (r: String)
    ensures
        r@ == sock_text(*addr),
{
    proof {
        reveal_strlit(":");
    }
    let mut r = format_ip(&addr.ip);
    r.append(":");
    let p = u64_to_dec(addr.port as u64);
    r.append(p.as_str());
    proof {
        assert(r@ =~= sock_text(*addr));
    }
    r
}

} // verus!
