//! `application/x-www-form-urlencoded` key/value decoding, percent
//! escapes left alone: pairs are separated by `&`, a key is what stands
//! before the first `=` of a pair, a value is what stands between the
//! first and second `=`, and when a key repeats the last value wins.

use vstd::prelude::*;
use vstd::string::StrSliceExecFns;
use crate::text::{
    find_char, find_from, lemma_find_char, lemma_find_char_absent, lemma_find_char_at, str_eq,
};

verus! {

/// The key and value denoted by one `&`-separated piece: `None` when the
/// piece holds no `=`, else the text before the first `=` and the text
/// between the first and second `=`.
pub open spec fn pair_of(p: Seq<char>) -> Option<(Seq<char>, Seq<char>)> {
    let j = find_char(p, '=');
    if j < 0 {
        None
    } else {
        let rest = p.skip(j + 1);
        let j2 = find_char(rest, '=');
        Some((p.take(j), if j2 < 0 { rest } else { rest.take(j2) }))
    }
}

/// Zero or one pairs, as a sequence.
pub open spec fn pair_seq(p: Seq<char>) -> Seq<(Seq<char>, Seq<char>)> {
    match pair_of(p) {
        Some(kv) => seq![kv],
        None => Seq::empty(),
    }
}

/// All pairs of a form body, in order: the body split on `&`, each piece
/// read by `pair_of`, pieces without `=` dropped.
pub open spec fn parse_pairs(s: Seq<char>) -> Seq<(Seq<char>, Seq<char>)>
    decreases s.len(),
{
    let i = find_char(s, '&');
    if 0 <= i < s.len() {
        pair_seq(s.take(i)) + parse_pairs(s.skip(i + 1))
    } else {
        pair_seq(s)
    }
}

/// The value of the last pair carrying `k`, if any: when a key repeats,
/// the later pair wins.
pub open spec fn lookup_last(ps: Seq<(Seq<char>, Seq<char>)>, k: Seq<char>) -> Option<Seq<char>>
    decreases ps.len(),
{
    if ps.len() == 0 {
        None
    } else if ps.last().0 == k {
        Some(ps.last().1)
    } else {
        lookup_last(ps.drop_last(), k)
    }
}

/// As `lookup_last`, with the empty string for a missing key.
pub open spec fn lookup_or_empty(ps: Seq<(Seq<char>, Seq<char>)>, k: Seq<char>) -> Seq<char> {
    match lookup_last(ps, k) {
        Some(v) => v,
        None => Seq::empty(),
    }
}

/// The value a form body gives for key `k`: last pair wins, missing keys
/// read as empty.
pub open spec fn form_value(s: Seq<char>, k: Seq<char>) -> Seq<char> {
    lookup_or_empty(parse_pairs(s), k)
}

/// True of text that holds neither separator, `&` nor `=`.
pub open spec fn sep_free(s: Seq<char>) -> bool {
    forall|i: int| 0 <= i < s.len() ==> s[i] != '&' && s[i] != '='
}

/// True when every key and value of the pair list is separator-free.
pub open spec fn wf_pairs(ps: Seq<(Seq<char>, Seq<char>)>) -> bool {
    forall|i: int| 0 <= i < ps.len() ==> sep_free(#[trigger] ps[i].0) && sep_free(ps[i].1)
}

/// One pair written out as `key=value`.
pub open spec fn encode_pair(p: (Seq<char>, Seq<char>)) -> Seq<char> {
    p.0 + seq!['='] + p.1
}

/// A pair list written out as `k1=v1&k2=v2&...`.
pub open spec fn encode_pairs(ps: Seq<(Seq<char>, Seq<char>)>) -> Seq<char>
    decreases ps.len(),
{
    if ps.len() == 0 {
        Seq::empty()
    } else if ps.len() == 1 {
        encode_pair(ps[0])
    } else {
        encode_pair(ps[0]) + seq!['&'] + encode_pairs(ps.drop_first())
    }
}

/// Reading an encoded separator-free pair back yields that pair.
proof fn lemma_pair_of_encode(p: (Seq<char>, Seq<char>))
    requires
        sep_free(p.0),
        sep_free(p.1),
    ensures
        pair_of(encode_pair(p)) == Some(p),
{
    let e = encode_pair(p);
    let kl = p.0.len() as int;
    assert(e[kl] == '=');
    assert(forall|j: int| 0 <= j < kl ==> e[j] == p.0[j] && e[j] != '=');
    lemma_find_char_at(e, '=', kl);
    assert(e.take(kl) =~= p.0);
    let rest = e.skip(kl + 1);
    assert(rest =~= p.1);
    lemma_find_char_absent(p.1, '=');
    assert((p.0, p.1) == p);
}

/// Form decoding round trip: parsing a pair list written out with `&`
/// and `=` joins gives back exactly that pair list, provided every key
/// and value is free of the two separators; and the value the parsed
/// form gives for any key is the last pair's — last value wins on a
/// repeated key.
pub proof fn lemma_form_round_trip(ps: Seq<(Seq<char>, Seq<char>)>, k: Seq<char>)
    requires
        wf_pairs(ps),
        ps.len() > 0,
    ensures
        parse_pairs(encode_pairs(ps)) == ps,
        form_value(encode_pairs(ps), k) == lookup_or_empty(ps, k),
    decreases ps.len(),
{
    let s = encode_pairs(ps);
    let p0 = ps[0];
    let e0 = encode_pair(p0);
    if ps.len() == 1 {
        assert(forall|j: int| 0 <= j < s.len() ==> s[j] != '&');
        lemma_find_char_absent(s, '&');
        lemma_pair_of_encode(p0);
        assert(parse_pairs(s) =~= seq![p0]);
        assert(seq![p0] =~= ps);
    } else {
        let rest = ps.drop_first();
        let tail = encode_pairs(rest);
        assert(s == e0 + seq!['&'] + tail);
        assert(s[e0.len() as int] == '&');
        assert(forall|j: int| 0 <= j < e0.len() ==> s[j] == e0[j]);
        assert(forall|j: int| 0 <= j < e0.len() ==> e0[j] != '&');
        lemma_find_char_at(s, '&', e0.len() as int);
        assert(s.take(e0.len() as int) =~= e0);
        assert(s.skip(e0.len() as int + 1) =~= tail);
        lemma_pair_of_encode(p0);
        assert(forall|i: int| 0 <= i < rest.len() ==> rest[i] == ps[i + 1]);
        lemma_form_round_trip(rest, k);
        assert(parse_pairs(s) =~= seq![p0] + rest);
        assert(seq![p0] + rest =~= ps);
    }
}

/// The value `lookup_last` hands back is the last pair's with that key:
/// no later pair carries it, and absence means no pair carries it.
pub proof fn lemma_lookup_last_props(ps: Seq<(Seq<char>, Seq<char>)>, k: Seq<char>)
    ensures
        match lookup_last(ps, k) {
            Some(v) => exists|i: int|
                0 <= i < ps.len() && ps[i].0 == k && ps[i].1 == v && (forall|j: int|
                    i < j < ps.len() ==> ps[j].0 != k),
            None => forall|i: int| 0 <= i < ps.len() ==> ps[i].0 != k,
        },
    decreases ps.len(),
{
    if ps.len() > 0 {
        let dl = ps.drop_last();
        assert(forall|j: int| 0 <= j < dl.len() ==> dl[j] == ps[j]);
        if ps.last().0 == k {
            let w = ps.len() - 1;
            assert(ps[w].0 == k && ps[w].1 == ps.last().1);
        } else {
            lemma_lookup_last_props(dl, k);
        }
    }
}

/// Appending one pair: the lookup sees the new pair first.
pub proof fn lemma_lookup_push(
    ps: Seq<(Seq<char>, Seq<char>)>,
    kv: (Seq<char>, Seq<char>),
    k: Seq<char>,
)
    ensures
        lookup_last(ps + seq![kv], k) == if kv.0 == k {
            Some(kv.1)
        } else {
            lookup_last(ps, k)
        },
{
    let nd = ps + seq![kv];
    assert(nd.last() == kv);
    assert(nd.drop_last() =~= ps);
}

/// Split one piece into its key and value.
fn split_pair(piece: &str) -> (r: Option<(String, String)>)
    ensures
        match r {
            Some(kv) => pair_of(piece@) == Some((kv.0@, kv.1@)),
            None => pair_of(piece@) is None,
        },
{
    proof {
        assert(piece@.skip(0) =~= piece@);
    }
    let n = piece.unicode_len();
    let j = find_from(piece, 0, '=');
    if j == n {
        proof {
            lemma_find_char(piece@.skip(0), '=');
            assert(find_char(piece@, '=') < 0);
        }
        return None;
    }
    let key = piece.substring_char(0, j).to_owned();
    proof {
        assert(piece@.subrange(0, j as int) =~= piece@.take(j as int));
    }
    let ghost rest = piece@.skip(j + 1);
    let j2 = find_from(piece, j + 1, '=');
    proof {
        let f2 = find_char(rest, '=');
        if f2 >= 0 {
            assert(rest.take(f2) =~= piece@.subrange(j + 1, j2 as int));
        } else {
            assert(rest =~= piece@.subrange(j + 1, j2 as int));
        }
    }
    let value = piece.substring_char(j + 1, j2).to_owned();
    Some((key, value))
}

/// Read a login form body: the values for `username` and `password`,
/// last occurrence winning, the empty string where a key is missing.
pub fn parse_login(form: &str) -> (r: (String, String))
    ensures
        r.0@ == form_value(form@, "username"@),
        r.1@ == form_value(form@, "password"@),
{
    proof {
        reveal_strlit("username");
        reveal_strlit("password");
        assert("username"@[0] == 'u');
        assert("password"@[0] == 'p');
        assert("username"@ != "password"@);
    }
    let n = form.unicode_len();
    let mut user = String::new();
    let mut pass = String::new();
    let ghost mut done: Seq<(Seq<char>, Seq<char>)> = Seq::empty();
    let mut pos: usize = 0;
    proof {
        assert(form@.skip(0) =~= form@);
        assert(done + parse_pairs(form@) =~= parse_pairs(form@));
    }
    while pos < n
        invariant
            pos <= n,
            n == form@.len(),
            parse_pairs(form@) == done + parse_pairs(form@.skip(pos as int)),
            user@ == lookup_or_empty(done, "username"@),
            pass@ == lookup_or_empty(done, "password"@),
            "username"@ != "password"@,
        decreases n - pos,
    {
        let ghost rem = form@.skip(pos as int);
        let amp = find_from(form, pos, '&');
        let piece = form.substring_char(pos, amp);
        proof {
            assert(piece@ =~= rem.take(amp - pos));
            assert(piece@ =~= form@.subrange(pos as int, amp as int));
        }
        let next_pos = if amp < n {
            amp + 1
        } else {
            n
        };
        proof {
            let i = find_char(rem, '&');
            if amp < n {
                assert(i == amp - pos);
                assert(rem.skip(i + 1) =~= form@.skip(next_pos as int));
                assert(parse_pairs(rem) == pair_seq(piece@) + parse_pairs(
                    form@.skip(next_pos as int),
                ));
            } else {
                lemma_find_char(rem, '&');
                assert(i < 0);
                assert(piece@ =~= rem);
                assert(form@.skip(next_pos as int) =~= Seq::<char>::empty());
                assert(find_char(Seq::<char>::empty(), '&') == -1);
                assert(find_char(Seq::<char>::empty(), '=') == -1);
                assert(parse_pairs(form@.skip(next_pos as int)) =~= Seq::<(
                    Seq<char>,
                    Seq<char>,
                )>::empty());
                assert(parse_pairs(rem) == pair_seq(piece@) + parse_pairs(
                    form@.skip(next_pos as int),
                ));
            }
        }
        let pr = split_pair(piece);
        proof {
            let new_done = done + pair_seq(piece@);
            assert(done + parse_pairs(rem) =~= new_done + parse_pairs(
                form@.skip(next_pos as int),
            ));
            if pair_of(piece@) is Some {
                let kv = pair_of(piece@).unwrap();
                assert(new_done.last() == kv);
                assert(new_done.drop_last() =~= done);
            } else {
                assert(new_done =~= done);
            }
        }
        match pr {
            Some(kv) => {
                let (k, v) = kv;
                proof {
                    assert(pair_seq(piece@) == seq![(k@, v@)]);
                    lemma_lookup_push(done, (k@, v@), "username"@);
                    lemma_lookup_push(done, (k@, v@), "password"@);
                }
                if str_eq(k.as_str(), "username") {
                    user = v;
                } else if str_eq(k.as_str(), "password") {
                    pass = v;
                }
            },
            None => {},
        }
        proof {
            done = done + pair_seq(piece@);
        }
        pos = next_pos;
    }
    proof {
        assert(form@.skip(pos as int) =~= Seq::<char>::empty());
        assert(find_char(Seq::<char>::empty(), '&') == -1);
        assert(find_char(Seq::<char>::empty(), '=') == -1);
        assert(parse_pairs(form@.skip(pos as int)) =~= Seq::<(Seq<char>, Seq<char>)>::empty());
        assert(done + parse_pairs(form@.skip(pos as int)) =~= done);
    }
    (user, pass)
}

} // verus!
