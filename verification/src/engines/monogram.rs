//! Initials for the monogram engine, taken from the input's name tokens.
use vstd::prelude::*;

use crate::engines::common::{distinct3_of, Contour, Ctx};
use crate::text::{char_is_alnum, char_is_alpha, chars_of, is_alnum, is_alpha, is_digit, is_upper, to_upper, upper};

verus! {

/// Characters that separate name tokens.
pub open spec fn is_sep(c: char) -> bool {
    c == '.' || c == '-' || c == '_'
}

/// The part of an input before its first `@` (all of it when there is none).
pub open spec fn local_part(s: Seq<char>) -> Seq<char>
    decreases s.len(),
{
    if s.len() == 0 {
        s
    } else if s[0] == '@' {
        Seq::empty()
    } else {
        seq![s[0]] + local_part(s.drop_first())
    }
}

/// The pieces of `s` between separators, empty pieces included; never empty itself.
pub open spec fn pieces(s: Seq<char>) -> Seq<Seq<char>>
    decreases s.len(),
{
    if s.len() == 0 {
        seq![Seq::<char>::empty()]
    } else {
        let p = pieces(s.drop_last());
        if is_sep(s.last()) {
            p.push(Seq::<char>::empty())
        } else {
            p.update(p.len() - 1, p.last().push(s.last()))
        }
    }
}

/// Whether a token holds an ASCII letter or digit.
pub open spec fn has_alnum(t: Seq<char>) -> bool {
    exists|i: int| 0 <= i < t.len() && #[trigger] is_alnum(t[i])
}

/// Whether `t` holds an ASCII letter.
pub open spec fn has_letter(t: Seq<char>) -> bool {
    exists|i: int| 0 <= i < t.len() && #[trigger] is_alpha(t[i])
}

pub open spec fn token_pred() -> spec_fn(Seq<char>) -> bool {
    |t: Seq<char>| has_alnum(t)
}

/// The name tokens of a local part: its pieces that hold a letter or digit.
pub open spec fn tokens(local: Seq<char>) -> Seq<Seq<char>> {
    pieces(local).filter(token_pred())
}

pub open spec fn alnum_pred() -> spec_fn(char) -> bool {
    |c: char| is_alnum(c)
}

/// The letters and digits of a token, upper-cased.
pub open spec fn alnum_upper(t: Seq<char>) -> Seq<char> {
    t.filter(alnum_pred()).map_values(|c: char| upper(c))
}

/// The first element of `a`, as a sequence of at most one.
pub open spec fn first_of(a: Seq<char>) -> Seq<char> {
    if a.len() > 0 {
        seq![a[0]]
    } else {
        Seq::empty()
    }
}

/// Up to two initials: the first letters or digits of the first two name tokens,
/// or the first two of a single token; none when the local part has no letter.
pub open spec fn initials_of(s: Seq<char>) -> Option<Seq<char>> {
    let local = local_part(s);
    let toks = tokens(local);
    let out = if toks.len() == 1 {
        let a = alnum_upper(toks[0]);
        if a.len() >= 2 {
            a.take(2)
        } else {
            a
        }
    } else {
        first_of(alnum_upper(toks[0])) + first_of(alnum_upper(toks[1]))
    };
    if !has_letter(local) {
        None
    } else if toks.len() == 0 {
        None
    } else if out.len() == 0 {
        None
    } else {
        Some(out)
    }
}

proof fn lemma_local_part(s: Seq<char>, i: int)
    requires
        0 <= i <= s.len(),
        forall|j: int| 0 <= j < i ==> s[j] != '@',
        i == s.len() || s[i] == '@',
    ensures
        local_part(s) == s.take(i),
    decreases i,
{
    if i > 0 {
        lemma_local_part(s.drop_first(), i - 1);
        assert(s.take(i) =~= seq![s[0]] + s.drop_first().take(i - 1));
    } else {
        assert(s.take(0) =~= Seq::<char>::empty());
    }
}

proof fn lemma_pieces_nonempty(s: Seq<char>)
    ensures
        pieces(s).len() >= 1,
    decreases s.len(),
{
    if s.len() > 0 {
        lemma_pieces_nonempty(s.drop_last());
    }
}

/// The letters and digits of `t`, upper-cased.
fn alnum_upper_of(t: &Vec<char>) -> (r: Vec<char>)
    ensures
        r@ == alnum_upper(t@),
{
    let mut r: Vec<char> = Vec::new();
    let mut i: usize = 0;
    while i < t.len()
        invariant
            i <= t@.len(),
            r@ == alnum_upper(t@.take(i as int)),
        decreases t@.len() - i,
    {
        let c = t[i];
        proof {
            reveal(Seq::filter);
        }
        let ghost before = t@.take(i as int);
        let ghost after = t@.take(i + 1);
        assert(after.drop_last() =~= before);
        if char_is_alnum(c) {
            r.push(to_upper(c));
            assert(after.filter(alnum_pred()) == before.filter(alnum_pred()).push(c));
            assert(alnum_upper(after) =~= alnum_upper(before).push(upper(c)));
        } else {
            assert(after.filter(alnum_pred()) == before.filter(alnum_pred()));
        }
        i = i + 1;
    }
    assert(t@.take(t@.len() as int) =~= t@);
    r
}

fn push_first(out: &mut Vec<char>, a: &Vec<char>)
    ensures
        final(out)@ == old(out)@ + first_of(a@),
{
    if a.len() > 0 {
        out.push(a[0]);
    }
    assert(final(out)@ =~= old(out)@ + first_of(a@));
}

/// Up to two upper-case initials of `input` (see [`initials_of`]).
pub fn initials(input: &str) -> (r: Option<Vec<char>>)
    ensures
        match r {
            Some(v) => initials_of(input@) == Some(v@),
            None => initials_of(input@) is None,
        },
{
    let chars = chars_of(input);
    // The local part: everything before the first '@'.
    let mut local: Vec<char> = Vec::new();
    let mut i: usize = 0;
    while i < chars.len() && chars[i] != '@'
        invariant
            i <= chars@.len(),
            local@ == chars@.take(i as int),
            forall|j: int| 0 <= j < i ==> chars@[j] != '@',
        decreases chars@.len() - i,
    {
        local.push(chars[i]);
        i = i + 1;
        assert(local@ =~= chars@.take(i as int));
    }
    proof {
        lemma_local_part(chars@, i as int);
    }
    // Split the local part into tokens, keeping those with a letter or digit.
    let mut toks: Vec<Vec<char>> = Vec::new();
    let ghost mut gtoks: Seq<Seq<char>> = Seq::empty();
    let mut cur: Vec<char> = Vec::new();
    let mut cur_alnum = false;
    let mut has_alpha = false;
    let mut k: usize = 0;
    proof {
        assert(local@.take(0) =~= Seq::<char>::empty());
    }
    while k < local.len()
        invariant
            k <= local@.len(),
            toks@.len() == gtoks.len(),
            forall|j: int| 0 <= j < gtoks.len() ==> #[trigger] toks@[j]@ == gtoks[j],
            gtoks == pieces(local@.take(k as int)).drop_last().filter(token_pred()),
            cur@ == pieces(local@.take(k as int)).last(),
            cur_alnum == has_alnum(cur@),
            has_alpha == exists|j: int| 0 <= j < k && #[trigger] is_alpha(local@[j]),
        decreases local@.len() - k,
    {
        let c = local[k];
        let ghost before = local@.take(k as int);
        let ghost after = local@.take(k + 1);
        proof {
            reveal(Seq::filter);
            assert(after.drop_last() =~= before);
            lemma_pieces_nonempty(before);
        }
        let ghost p = pieces(before);
        if char_is_alpha(c) {
            has_alpha = true;
        }
        if c == '.' || c == '-' || c == '_' {
            proof {
                assert(pieces(after) == p.push(Seq::<char>::empty()));
                assert(pieces(after).drop_last() =~= p);
                assert(p.drop_last().push(p.last()) =~= p);
            }
            if cur_alnum {
                proof {
                    gtoks = gtoks.push(cur@);
                }
                toks.push(cur);
            }
            cur = Vec::new();
            cur_alnum = false;
        } else {
            proof {
                assert(pieces(after) == p.update(p.len() - 1, p.last().push(c)));
                assert(pieces(after).drop_last() =~= p.drop_last());
            }
            if char_is_alnum(c) {
                cur_alnum = true;
                assert(is_alnum(cur@.push(c)[cur@.len() as int]));
            } else {
                assert(has_alnum(cur@.push(c)) == has_alnum(cur@)) by {
                    if has_alnum(cur@.push(c)) {
                        let w = choose|w: int| 0 <= w < cur@.push(c).len() && #[trigger] is_alnum(cur@.push(c)[w]);
                        assert(is_alnum(cur@[w]));
                    }
                    if has_alnum(cur@) {
                        let w = choose|w: int| 0 <= w < cur@.len() && #[trigger] is_alnum(cur@[w]);
                        assert(is_alnum(cur@.push(c)[w]));
                    }
                }
            }
            cur.push(c);
        }
        k = k + 1;
        proof {
            assert(has_alpha == exists|j: int| 0 <= j < k && #[trigger] is_alpha(local@[j])) by {
                if exists|j: int| 0 <= j < k && #[trigger] is_alpha(local@[j]) {
                    let w = choose|w: int| 0 <= w < k && #[trigger] is_alpha(local@[w]);
                    if w < k - 1 {
                        assert(exists|j: int| 0 <= j < k - 1 && #[trigger] is_alpha(local@[j]));
                    }
                }
            }
        }
    }
    proof {
        reveal(Seq::filter);
        assert(local@.take(local@.len() as int) =~= local@);
        lemma_pieces_nonempty(local@);
        let p = pieces(local@);
        assert(p.drop_last().push(p.last()) =~= p);
    }
    if cur_alnum {
        proof {
            gtoks = gtoks.push(cur@);
        }
        toks.push(cur);
    }
    assert(gtoks == tokens(local@));
    if !has_alpha {
        return None;
    }
    if toks.len() == 0 {
        return None;
    }
    let mut out: Vec<char> = Vec::new();
    if toks.len() == 1 {
        let a = alnum_upper_of(&toks[0]);
        let mut j: usize = 0;
        while j < a.len() && j < 2
            invariant
                j <= a@.len(),
                j <= 2,
                out@ == a@.take(j as int),
            decreases a@.len() - j,
        {
            out.push(a[j]);
            j = j + 1;
            assert(out@ =~= a@.take(j as int));
        }
        assert(a@.len() < 2 ==> a@.take(j as int) =~= a@);
    } else {
        let a = alnum_upper_of(&toks[0]);
        let b = alnum_upper_of(&toks[1]);
        push_first(&mut out, &a);
        push_first(&mut out, &b);
        assert(out@ =~= first_of(a@) + first_of(b@));
    }
    if out.len() == 0 {
        None
    } else {
        Some(out)
    }
}

proof fn lemma_local_part_no_at(s: Seq<char>)
    ensures
        local_part(local_part(s)) == local_part(s),
    decreases s.len(),
{
    if s.len() > 0 && s[0] != '@' {
        lemma_local_part_no_at(s.drop_first());
        let l = local_part(s);
        assert(l.drop_first() =~= local_part(s.drop_first()));
    }
}

/// A piece of `s` holds each letter or digit of `s`.
proof fn lemma_pieces_keep_alnum(s: Seq<char>, i: int)
    requires
        0 <= i < s.len(),
        is_alnum(s[i]),
    ensures
        exists|j: int| 0 <= j < pieces(s).len() && #[trigger] has_alnum(pieces(s)[j]),
    decreases s.len(),
{
    let d = s.drop_last();
    lemma_pieces_nonempty(d);
    let p = pieces(d);
    let c = s.last();
    if i == s.len() - 1 {
        let last = p.last().push(c);
        assert(is_alnum(last[last.len() - 1]));
        assert(pieces(s)[p.len() - 1] == last);
        assert(has_alnum(pieces(s)[p.len() - 1]));
    } else {
        assert(d[i] == s[i]);
        lemma_pieces_keep_alnum(d, i);
        let j = choose|j: int| 0 <= j < p.len() && #[trigger] has_alnum(p[j]);
        if is_sep(c) {
            assert(pieces(s)[j] == p[j]);
        } else if j < p.len() - 1 {
            assert(pieces(s)[j] == p[j]);
        } else {
            let w = choose|w: int| 0 <= w < p[j].len() && #[trigger] is_alnum(p[j][w]);
            assert(pieces(s)[j] == p[j].push(c));
            assert(is_alnum(p[j].push(c)[w]));
            assert(has_alnum(pieces(s)[j]));
        }
    }
}

/// A token with a letter or digit gives at least one upper-cased character,
/// and each is an upper-case letter or a digit.
proof fn lemma_alnum_upper(t: Seq<char>)
    ensures
        has_alnum(t) ==> alnum_upper(t).len() > 0,
        forall|k: int| 0 <= k < alnum_upper(t).len()
            ==> is_upper(#[trigger] alnum_upper(t)[k]) || is_digit(alnum_upper(t)[k]),
{
    if has_alnum(t) {
        let w = choose|w: int| 0 <= w < t.len() && #[trigger] is_alnum(t[w]);
        t.lemma_filter_contains(alnum_pred(), w);
    }
    assert forall|k: int| 0 <= k < alnum_upper(t).len()
        implies is_upper(#[trigger] alnum_upper(t)[k]) || is_digit(alnum_upper(t)[k]) by {
        t.lemma_filter_pred(alnum_pred(), k);
        let c = t.filter(alnum_pred())[k];
        assert(alnum_upper(t)[k] == upper(c));
    }
}

/// Initials exist exactly when the part before the first `@` holds a letter;
/// there are then one or two, each an upper-case letter or a digit; and what
/// follows the first `@` never matters.
pub proof fn lemma_initials_law(s: Seq<char>)
    ensures
        initials_of(s) is None <==> !has_letter(local_part(s)),
        initials_of(s) matches Some(v) ==> {
            &&& 1 <= v.len() <= 2
            &&& forall|k: int| 0 <= k < v.len() ==> is_upper(#[trigger] v[k]) || is_digit(v[k])
        },
        initials_of(s) == initials_of(local_part(s)),
{
    lemma_local_part_no_at(s);
    let local = local_part(s);
    let toks = tokens(local);
    if has_letter(local) {
        let i = choose|i: int| 0 <= i < local.len() && #[trigger] is_alpha(local[i]);
        lemma_pieces_keep_alnum(local, i);
        let j = choose|j: int| 0 <= j < pieces(local).len() && #[trigger] has_alnum(pieces(local)[j]);
        pieces(local).lemma_filter_contains(token_pred(), j);
        assert(toks.len() > 0);
        pieces(local).lemma_filter_pred(token_pred(), 0);
        lemma_alnum_upper(toks[0]);
    }
    if toks.len() > 0 {
        lemma_alnum_upper(toks[0]);
    }
    if toks.len() > 1 {
        lemma_alnum_upper(toks[1]);
    }
    if let Some(v) = initials_of(s) {
        assert forall|k: int| 0 <= k < v.len() implies is_upper(#[trigger] v[k]) || is_digit(v[k]) by {
            if toks.len() == 1 {
                let a = alnum_upper(toks[0]);
                assert(v[k] == a[k]);
            } else {
                let a = alnum_upper(toks[0]);
                let b = alnum_upper(toks[1]);
                if k == 0 && a.len() > 0 {
                    assert(v[k] == a[0]);
                } else if k == 0 {
                    assert(v[k] == b[0]);
                } else {
                    assert(v[k] == b[0]);
                }
            }
        }
    }
}

/// An ASCII letter.
pub open spec fn ascii_letter(c: char) -> bool {
    ('a' <= c && c <= 'z') || ('A' <= c && c <= 'Z')
}

/// A word of ASCII letters, at least one.
pub open spec fn letter_word(w: Seq<char>) -> bool {
    w.len() > 0 && forall|i: int| 0 <= i < w.len() ==> ascii_letter(#[trigger] w[i])
}

/// The capital of an ASCII letter.
pub open spec fn capital(c: char) -> char {
    if 'a' <= c && c <= 'z' {
        ((c as u32) - 32) as char
    } else {
        c
    }
}

proof fn lemma_filter_all<A>(t: Seq<A>, pred: spec_fn(A) -> bool)
    requires
        forall|i: int| 0 <= i < t.len() ==> pred(#[trigger] t[i]),
    ensures
        t.filter(pred) == t,
    decreases t.len(),
{
    reveal(Seq::filter);
    if t.len() > 0 {
        lemma_filter_all(t.drop_last(), pred);
        assert(t.drop_last().push(t.last()) =~= t);
    }
}

/// Appending text without separators extends the last piece.
proof fn lemma_pieces_extend(p: Seq<char>, q: Seq<char>)
    requires
        forall|i: int| 0 <= i < q.len() ==> #[trigger] q[i] != '.' && q[i] != '-' && q[i] != '_',
    ensures
        pieces(p + q) == pieces(p).update(pieces(p).len() - 1, pieces(p).last() + q),
    decreases q.len(),
{
    lemma_pieces_nonempty(p);
    let ps = pieces(p);
    if q.len() == 0 {
        assert(p + q =~= p);
        assert(ps.last() + q =~= ps.last());
        assert(ps.update(ps.len() - 1, ps.last()) =~= ps);
    } else {
        let q0 = q.drop_last();
        assert forall|i: int| 0 <= i < q0.len() implies #[trigger] q0[i] != '.' && q0[i] != '-' && q0[i] != '_' by {
            assert(q0[i] == q[i]);
        }
        lemma_pieces_extend(p, q0);
        assert((p + q).drop_last() =~= p + q0);
        assert((p + q).last() == q.last());
        assert(q[q.len() - 1] != '.' && q[q.len() - 1] != '-' && q[q.len() - 1] != '_');
        let prev = pieces(p + q0);
        assert(pieces(p + q) == prev.update(prev.len() - 1, prev.last().push(q.last())));
        assert(prev.len() == ps.len());
        assert(prev.last() == ps.last() + q0);
        assert(prev.last().push(q.last()) =~= ps.last() + q);
        assert(pieces(p + q) =~= ps.update(ps.len() - 1, ps.last() + q));
    }
}

proof fn lemma_letter_word_facts(w: Seq<char>)
    requires
        letter_word(w),
    ensures
        has_alnum(w),
        alnum_upper(w) == w.map_values(|c: char| upper(c)),
        forall|i: int| 0 <= i < w.len() ==> #[trigger] w[i] != '.' && w[i] != '-' && w[i] != '_' && w[i] != '@',
        local_part(w) == w,
{
    assert(is_alnum(w[0]));
    lemma_filter_all(w, alnum_pred());
    assert forall|i: int| 0 <= i < w.len() implies #[trigger] w[i] != '.' && w[i] != '-' && w[i] != '_' && w[i] != '@' by {
        assert(ascii_letter(w[i]));
    }
    lemma_local_part(w, w.len() as int);
    assert(w.take(w.len() as int) =~= w);
}

/// Two words of letters joined by `.`, `-` or `_` give as initials the
/// capitals of their first letters.
pub proof fn lemma_initials_of_two_words(a: Seq<char>, sep: char, b: Seq<char>)
    requires
        letter_word(a),
        letter_word(b),
        sep == '.' || sep == '-' || sep == '_',
    ensures
        initials_of(a + seq![sep] + b) == Some(seq![capital(a[0]), capital(b[0])]),
{
    lemma_letter_word_facts(a);
    lemma_letter_word_facts(b);
    let s = a + seq![sep] + b;
    // No '@': the whole input is the local part.
    assert forall|j: int| 0 <= j < s.len() implies s[j] != '@' by {
        if j < a.len() {
            assert(s[j] == a[j]);
        } else if j > a.len() {
            assert(s[j] == b[j - a.len() - 1]);
        }
    }
    lemma_local_part(s, s.len() as int);
    assert(s.take(s.len() as int) =~= s);
    assert(local_part(s) == s);
    // Pieces: `a`, then `b`.
    lemma_pieces_extend(Seq::empty(), a);
    assert(Seq::<char>::empty() + a =~= a);
    assert(pieces(Seq::<char>::empty()) == seq![Seq::<char>::empty()]);
    assert(Seq::<char>::empty() + a =~= a);
    assert(pieces(a) =~= seq![a]);
    let a2 = a + seq![sep];
    assert(a2.drop_last() =~= a);
    assert(is_sep(a2.last()));
    assert(pieces(a2) =~= seq![a, Seq::<char>::empty()]);
    lemma_pieces_extend(a2, b);
    assert(pieces(s) =~= seq![a, b]);
    // Both pieces are tokens.
    reveal_with_fuel(Seq::filter, 3);
    assert(seq![a, b].drop_last() =~= seq![a]);
    assert(seq![a].drop_last() =~= Seq::<Seq<char>>::empty());
    assert(tokens(s) =~= seq![a, b]);
    assert(is_alpha(s[0]));
    assert(has_letter(s));
    assert(alnum_upper(a)[0] == upper(a[0]));
    assert(alnum_upper(b)[0] == upper(b[0]));
    assert(upper(a[0]) == capital(a[0]));
    assert(upper(b[0]) == capital(b[0]));
    assert(first_of(alnum_upper(a)) + first_of(alnum_upper(b)) =~= seq![capital(a[0]), capital(b[0])]);
}

/// A single word of letters gives as initials the capitals of its first two
/// letters, or of its only one.
pub proof fn lemma_initials_of_one_word(a: Seq<char>)
    requires
        letter_word(a),
    ensures
        a.len() >= 2 ==> initials_of(a) == Some(seq![capital(a[0]), capital(a[1])]),
        a.len() == 1 ==> initials_of(a) == Some(seq![capital(a[0])]),
{
    lemma_letter_word_facts(a);
    lemma_pieces_extend(Seq::empty(), a);
    assert(Seq::<char>::empty() + a =~= a);
    assert(pieces(Seq::<char>::empty()) == seq![Seq::<char>::empty()]);
    assert(pieces(a) =~= seq![a]);
    reveal_with_fuel(Seq::filter, 2);
    assert(seq![a].drop_last() =~= Seq::<Seq<char>>::empty());
    assert(tokens(a) =~= seq![a]);
    assert(is_alpha(a[0]));
    assert(has_letter(a));
    let u = alnum_upper(a);
    assert(u.len() == a.len());
    assert(u[0] == capital(a[0]));
    if a.len() >= 2 {
        assert(u[1] == capital(a[1]));
        assert(u.take(2) =~= seq![capital(a[0]), capital(a[1])]);
    } else {
        assert(u =~= seq![capital(a[0])]);
    }
}

/// The pattern drawn behind the letters.
#[derive(Clone, Copy, Debug, PartialEq, Eq, Structural)]
pub enum Motif {
    Stripes,
    Rings,
    Disk,
    Split,
}

pub open spec fn motif_of(v: int) -> Motif {
    if v == 0 {
        Motif::Stripes
    } else if v == 1 {
        Motif::Rings
    } else if v == 2 {
        Motif::Disk
    } else {
        Motif::Split
    }
}

/// The monogram's macroscopic traits.
#[derive(Clone, Copy, Debug, PartialEq, Eq)]
pub struct MonogramTraits {
    pub motif: Motif,
    /// A circle or a rounded square.
    pub contour: Contour,
    pub colors: [usize; 3],
}

/// Traits from hash bytes 0 (motif), 1 (contour), 2 and 3 (colours).
pub fn traits(ctx: &Ctx) -> (t: MonogramTraits)
    ensures
        t.motif == motif_of(ctx.trait_of(0, 4)),
        t.contour == if ctx.trait_of(1, 2) == 0 {
            Contour::Circle
        } else {
            Contour::RoundedSquare
        },
        t.colors@ == seq![
            distinct3_of(ctx.color_seed_of(2)).0 as usize,
            distinct3_of(ctx.color_seed_of(2)).1 as usize,
            distinct3_of(ctx.color_seed_of(2)).2 as usize,
        ],
{
    let motif = match ctx.trait_u8(0, 4) {
        0 => Motif::Stripes,
        1 => Motif::Rings,
        2 => Motif::Disk,
        _ => Motif::Split,
    };
    let contour = if ctx.trait_u8(1, 2) == 0 {
        Contour::Circle
    } else {
        Contour::RoundedSquare
    };
    let colors = Ctx::distinct3(ctx.color_seed(2));
    assert(colors@ =~= seq![colors[0], colors[1], colors[2]]);
    MonogramTraits { motif, contour, colors }
}

} // verus!
