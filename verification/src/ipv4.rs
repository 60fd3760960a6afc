//! IPv4 addresses as plain values, and the dotted-quad text form the
//! gateway address is configured in.

use vstd::prelude::*;
use vstd::string::StrSliceExecFns;
use crate::text::{all_digits, dec_val, find_char, find_from, lemma_find_char};

verus! {

/// Prefix length of the access-point subnet.
pub const AP_PREFIX_LEN: u8 = 24;

/// An IPv4 address, one octet a field.
#[derive(Clone, Copy, PartialEq, Eq, Structural, Debug)]
pub struct Ipv4 {
    pub a: u8,
    pub b: u8,
    pub c: u8,
    pub d: u8,
}

/// The gateway address text used when no override is configured.
pub fn default_gateway_text() -> (r: &'static str)
    ensures
        r@ == "192.168.2.1"@,
{
    "192.168.2.1"
}

/// True of the text of one octet: one to three digits, no leading zero
/// unless the octet is `0` itself, value at most 255.
pub open spec fn wf_octet(s: Seq<char>) -> bool {
    &&& 1 <= s.len() <= 3
    &&& all_digits(s)
    &&& (s.len() > 1 ==> s[0] != '0')
    &&& dec_val(s) <= 255
}

/// The pieces of `s` split on `.`; always at least one piece.
pub open spec fn split_on_dots(s: Seq<char>) -> Seq<Seq<char>>
    decreases s.len(),
{
    let i = find_char(s, '.');
    if 0 <= i < s.len() {
        seq![s.take(i)] + split_on_dots(s.skip(i + 1))
    } else {
        seq![s]
    }
}

/// A split has at least one piece.
pub proof fn lemma_split_nonempty(s: Seq<char>)
    ensures
        split_on_dots(s).len() >= 1,
{
}

/// True of a well-formed dotted quad: exactly four well-formed octets.
pub open spec fn wf_ipv4(s: Seq<char>) -> bool {
    let ps = split_on_dots(s);
    ps.len() == 4 && (forall|i: int| 0 <= i < 4 ==> wf_octet(#[trigger] ps[i]))
}

/// The address a well-formed dotted quad denotes.
pub open spec fn ipv4_of(s: Seq<char>) -> Ipv4
    recommends
        wf_ipv4(s),
{
    let ps = split_on_dots(s);
    Ipv4 {
        a: dec_val(ps[0]) as u8,
        b: dec_val(ps[1]) as u8,
        c: dec_val(ps[2]) as u8,
        d: dec_val(ps[3]) as u8,
    }
}

/// Parse the text of one octet.
fn parse_octet(p: &str) -> (r: Option<u8>)
    ensures
        r is Some <==> wf_octet(p@),
        r matches Some(v) ==> v == dec_val(p@),
{
    let n = p.unicode_len();
    if n == 0 || n > 3 {
        return None;
    }
    let mut v: usize = 0;
    let mut i: usize = 0;
    while i < n
        invariant
            i <= n <= 3,
            n == p@.len(),
            all_digits(p@.take(i as int)),
            v == dec_val(p@.take(i as int)),
            i == 0 ==> v == 0,
            i == 1 ==> v <= 9,
            i == 2 ==> v <= 99,
            i == 3 ==> v <= 999,
        decreases n - i,
    {
        let c = p.get_char(i);
        let u = c as u32;
        if u < 48 || u > 57 {
            return None;
        }
        proof {
            assert(p@.take(i + 1).drop_last() =~= p@.take(i as int));
            assert(p@.take(i + 1).last() == c);
        }
        v = v * 10 + ((u - 48) as usize);
        i = i + 1;
    }
    proof {
        assert(p@.take(n as int) =~= p@);
    }
    if n > 1 && p.get_char(0) == '0' {
        return None;
    }
    if v > 255 {
        return None;
    }
    Some(v as u8)
}

/// Parse a dotted-quad IPv4 address: `Some` exactly on the well-formed
/// texts, with the denoted address.
pub fn parse_ipv4(s: &str) -> (r: Option<Ipv4>)
    ensures
        r is Some <==> wf_ipv4(s@),
        r matches Some(v) ==> v == ipv4_of(s@),
{
    let ghost ps = split_on_dots(s@);
    let n = s.unicode_len();
    let mut octs: Vec<u8> = Vec::new();
    let ghost mut done: Seq<Seq<char>> = Seq::empty();
    let mut pos: usize = 0;
    let mut more = true;
    proof {
        assert(s@.skip(0) =~= s@);
        assert(done + split_on_dots(s@.skip(0)) =~= ps);
    }
    while more
        invariant
            pos <= n,
            n == s@.len(),
            ps == split_on_dots(s@),
            octs@.len() == done.len(),
            done.len() <= 4,
            more ==> ps == done + split_on_dots(s@.skip(pos as int)),
            !more ==> ps == done,
            forall|t: int| 0 <= t < done.len() ==> wf_octet(#[trigger] done[t]) && octs@[t]
                == dec_val(done[t]),
        decreases (n - pos) + (if more { 1int } else { 0int }),
    {
        let ghost rem = s@.skip(pos as int);
        if octs.len() == 4 {
            proof {
                lemma_split_nonempty(rem);
            }
            return None;
        }
        let dot = find_from(s, pos, '.');
        let piece = s.substring_char(pos, dot);
        proof {
            assert(piece@ =~= rem.take(dot - pos));
            assert(piece@ =~= s@.subrange(pos as int, dot as int));
        }
        let next_pos = if dot < n {
            dot + 1
        } else {
            n
        };
        proof {
            let i = find_char(rem, '.');
            if dot < n {
                assert(i == dot - pos);
                assert(rem.skip(i + 1) =~= s@.skip(next_pos as int));
                assert(split_on_dots(rem) == seq![piece@] + split_on_dots(
                    s@.skip(next_pos as int),
                ));
            } else {
                lemma_find_char(rem, '.');
                assert(i < 0);
                assert(piece@ =~= rem);
                assert(split_on_dots(rem) == seq![piece@]);
            }
            assert(ps[done.len() as int] == piece@);
        }
        let v = match parse_octet(piece) {
            Some(v) => v,
            None => {
                proof {
                    if wf_ipv4(s@) {
                        assert(wf_octet(ps[done.len() as int]));
                    }
                }
                return None;
            },
        };
        octs.push(v);
        proof {
            done = done.push(piece@);
        }
        if dot < n {
            proof {
                assert(done + split_on_dots(s@.skip(next_pos as int)) =~= ps);
            }
            pos = next_pos;
        } else {
            proof {
                assert(done =~= ps);
            }
            more = false;
        }
    }
    if octs.len() == 4 {
        proof {
            assert(wf_ipv4(s@));
            assert(octs@[0] == dec_val(ps[0]));
        }
        Some(Ipv4 { a: octs[0], b: octs[1], c: octs[2], d: octs[3] })
    } else {
        proof {
            assert(ps.len() == done.len());
        }
        None
    }
}

} // verus!
