//! Core machinery for class-string assembly and normalization.
//!
//! A class string is a sequence of whitespace-separated utility tokens.
//! This module defines the mathematical model (splitting a character sequence
//! into tokens, lexicographic ordering, sorted deduplication, joining with
//! single spaces) and the verified executable functions that builders use to
//! produce normalized output.

use vstd::prelude::*;

verus! {

broadcast use vstd::seq_lib::group_seq_properties;

/// The whitespace characters recognized when splitting class strings.
pub open spec fn is_space(c: char) -> bool {
    c == ' ' || c == '\t' || c == '\n' || c == '\r'
}

/// A token is a word: non-empty and free of whitespace.
pub open spec fn is_word(t: Seq<char>) -> bool {
    t.len() > 0 && (forall|i: int| 0 <= i < t.len() ==> !is_space(#[trigger] t[i]))
}

/// The whitespace-split of a character sequence, defined by how one more
/// trailing character extends the split of the prefix.
pub open spec fn split_ws(s: Seq<char>) -> Seq<Seq<char>>
    decreases s.len(),
{
    if s.len() == 0 {
        Seq::empty()
    } else {
        let prefix = split_ws(s.drop_last());
        let c = s.last();
        if is_space(c) {
            prefix
        } else if s.len() >= 2 && !is_space(s[s.len() - 2]) {
            prefix.update(prefix.len() - 1, prefix.last().push(c))
        } else {
            prefix.push(seq![c])
        }
    }
}

/// Insertion of a token into a sorted, duplicate-free token sequence:
/// the token goes in front of the first entry it does not exceed, and is
/// dropped if that entry equals it.
pub open spec fn insert_tok(t: Seq<char>, ts: Seq<Seq<char>>) -> Seq<Seq<char>>
    decreases ts.len(),
{
    if ts.len() == 0 {
        seq![t]
    } else if lex_leq(t, ts[0]) {
        if t == ts[0] {
            ts
        } else {
            seq![t] + ts
        }
    } else {
        seq![ts[0]] + insert_tok(t, ts.drop_first())
    }
}

/// The sorted, duplicate-free arrangement of a token sequence.
pub open spec fn sort_dedup(ts: Seq<Seq<char>>) -> Seq<Seq<char>>
    decreases ts.len(),
{
    if ts.len() == 0 {
        Seq::empty()
    } else {
        insert_tok(ts.last(), sort_dedup(ts.drop_last()))
    }
}

/// Strictly ascending in the lexicographic order: sorted with no duplicates.
pub open spec fn strictly_sorted(ts: Seq<Seq<char>>) -> bool {
    forall|i: int, j: int|
        0 <= i < j < ts.len() ==> lex_leq(#[trigger] ts[i], #[trigger] ts[j]) && ts[i] != ts[j]
}

/// Insertion preserves membership, adding exactly the inserted token.
pub proof fn lemma_insert_member(t: Seq<char>, ts: Seq<Seq<char>>)
    ensures
        forall|x: Seq<char>|
            #![trigger insert_tok(t, ts).contains(x)]
            insert_tok(t, ts).contains(x) <==> (ts.contains(x) || x == t),
    decreases ts.len(),
{
    if ts.len() == 0 {
        assert forall|x: Seq<char>|
            insert_tok(t, ts).contains(x) <==> (ts.contains(x) || x == t) by {
            if x == t {
                assert(insert_tok(t, ts)[0] == t);
            }
        }
    } else if lex_leq(t, ts[0]) {
        if t == ts[0] {
            assert forall|x: Seq<char>|
                insert_tok(t, ts).contains(x) <==> (ts.contains(x) || x == t) by {
                if x == t {
                    assert(ts[0] == x);
                }
            }
        } else {
            assert forall|x: Seq<char>|
                insert_tok(t, ts).contains(x) <==> (ts.contains(x) || x == t) by {
                let u = seq![t] + ts;
                if x == t {
                    assert(u[0] == x);
                }
                if ts.contains(x) {
                    let i = choose|i: int| 0 <= i < ts.len() && ts[i] == x;
                    assert(u[i + 1] == x);
                }
                if u.contains(x) && x != t {
                    let i = choose|i: int| 0 <= i < u.len() && u[i] == x;
                    assert(ts[i - 1] == x);
                }
            }
        }
    } else {
        lemma_insert_member(t, ts.drop_first());
        assert forall|x: Seq<char>|
            insert_tok(t, ts).contains(x) <==> (ts.contains(x) || x == t) by {
            let rest = insert_tok(t, ts.drop_first());
            let u = seq![ts[0]] + rest;
            if u.contains(x) {
                let i = choose|i: int| 0 <= i < u.len() && u[i] == x;
                if i == 0 {
                    assert(ts[0] == x);
                } else {
                    assert(rest[i - 1] == x);
                    assert(rest.contains(x));
                    if x != t {
                        assert(ts.drop_first().contains(x));
                        let j = choose|j: int|
                            0 <= j < ts.drop_first().len() && ts.drop_first()[j] == x;
                        assert(ts[j + 1] == x);
                    }
                }
            }
            if ts.contains(x) {
                let i = choose|i: int| 0 <= i < ts.len() && ts[i] == x;
                if i == 0 {
                    assert(u[0] == x);
                } else {
                    assert(ts.drop_first()[i - 1] == x);
                    assert(rest.contains(x));
                    let j = choose|j: int| 0 <= j < rest.len() && rest[j] == x;
                    assert(u[j + 1] == x);
                }
            }
            if x == t {
                assert(rest.contains(x));
                let j = choose|j: int| 0 <= j < rest.len() && rest[j] == x;
                assert(u[j + 1] == x);
            }
        }
    }
}

/// Insertion into a strictly sorted sequence stays strictly sorted.
pub proof fn lemma_insert_sorted(t: Seq<char>, ts: Seq<Seq<char>>)
    requires
        strictly_sorted(ts),
    ensures
        strictly_sorted(insert_tok(t, ts)),
    decreases ts.len(),
{
    if ts.len() == 0 {
    } else if lex_leq(t, ts[0]) {
        if t != ts[0] {
            let u = seq![t] + ts;
            assert forall|i: int, j: int| 0 <= i < j < u.len() implies lex_leq(
                #[trigger] u[i],
                #[trigger] u[j],
            ) && u[i] != u[j] by {
                if i == 0 {
                    if j > 1 {
                        lemma_lex_trans(t, ts[0], ts[j - 1]);
                        if t == ts[j - 1] {
                            lemma_lex_antisym(t, ts[0]);
                        }
                    }
                } else {
                    assert(u[i] == ts[i - 1] && u[j] == ts[j - 1]);
                }
            }
        }
    } else {
        assert(strictly_sorted(ts.drop_first()));
        lemma_insert_sorted(t, ts.drop_first());
        lemma_insert_member(t, ts.drop_first());
        lemma_lex_total(t, ts[0]);
        let rest = insert_tok(t, ts.drop_first());
        let u = seq![ts[0]] + rest;
        assert forall|i: int, j: int| 0 <= i < j < u.len() implies lex_leq(
            #[trigger] u[i],
            #[trigger] u[j],
        ) && u[i] != u[j] by {
            if i == 0 {
                assert(rest.contains(rest[j - 1]));
                if rest[j - 1] == t {
                    assert(lex_leq(ts[0], t));
                    if ts[0] == t {
                        assert(lex_leq(t, ts[0]));
                    }
                } else {
                    assert(ts.drop_first().contains(rest[j - 1]));
                    let k = choose|k: int|
                        0 <= k < ts.drop_first().len() && ts.drop_first()[k] == rest[j - 1];
                    assert(ts[k + 1] == rest[j - 1]);
                }
            } else {
                assert(u[i] == rest[i - 1] && u[j] == rest[j - 1]);
            }
        }
    }
}

/// The sorted deduplication has exactly the members of its input.
pub proof fn lemma_sort_dedup_member(ts: Seq<Seq<char>>)
    ensures
        forall|x: Seq<char>| sort_dedup(ts).contains(x) <==> ts.contains(x),
    decreases ts.len(),
{
    if ts.len() > 0 {
        lemma_sort_dedup_member(ts.drop_last());
        lemma_insert_member(ts.last(), sort_dedup(ts.drop_last()));
        assert forall|x: Seq<char>| sort_dedup(ts).contains(x) <==> ts.contains(x) by {
            if ts.contains(x) {
                let i = choose|i: int| 0 <= i < ts.len() && ts[i] == x;
                if i < ts.len() - 1 {
                    assert(ts.drop_last()[i] == x);
                }
            }
            if ts.drop_last().contains(x) {
                let i = choose|i: int|
                    0 <= i < ts.drop_last().len() && ts.drop_last()[i] == x;
                assert(ts[i] == x);
            }
            if x == ts.last() {
                assert(ts[ts.len() - 1] == x);
            }
        }
    }
}

/// The sorted deduplication is strictly sorted.
pub proof fn lemma_sort_dedup_sorted(ts: Seq<Seq<char>>)
    ensures
        strictly_sorted(sort_dedup(ts)),
    decreases ts.len(),
{
    if ts.len() > 0 {
        lemma_sort_dedup_sorted(ts.drop_last());
        lemma_insert_sorted(ts.last(), sort_dedup(ts.drop_last()));
    }
}

/// A strictly sorted sequence is already its own sorted deduplication.
pub proof fn lemma_sort_dedup_fixed(ts: Seq<Seq<char>>)
    requires
        strictly_sorted(ts),
    ensures
        sort_dedup(ts) == ts,
    decreases ts.len(),
{
    if ts.len() == 0 {
        assert(sort_dedup(ts) =~= ts);
    } else {
        assert(strictly_sorted(ts.drop_last()));
        lemma_sort_dedup_fixed(ts.drop_last());
        lemma_insert_end(ts.last(), ts.drop_last());
        assert(ts.drop_last().push(ts.last()) =~= ts);
    }
}

/// Inserting a token strictly above every entry appends it at the end.
pub proof fn lemma_insert_end(t: Seq<char>, ts: Seq<Seq<char>>)
    requires
        forall|i: int| 0 <= i < ts.len() ==> lex_leq(#[trigger] ts[i], t) && ts[i] != t,
    ensures
        insert_tok(t, ts) == ts.push(t),
    decreases ts.len(),
{
    if ts.len() == 0 {
        assert(insert_tok(t, ts) =~= ts.push(t));
    } else {
        if lex_leq(t, ts[0]) {
            lemma_lex_antisym(t, ts[0]);
        }
        lemma_insert_end(t, ts.drop_first());
        assert(insert_tok(t, ts) =~= ts.push(t));
    }
}

/// The character views of a sequence of owned strings.
pub open spec fn views(vs: Seq<String>) -> Seq<Seq<char>> {
    Seq::new(vs.len(), |i: int| vs[i]@)
}

/// The fully normalized form of a class string: its tokens, sorted and
/// deduplicated, joined by single spaces.
pub open spec fn normalize_spec(s: Seq<char>) -> Seq<char> {
    join_spaces(sort_dedup(split_ws(s)))
}

/// Inserting past a prefix of strictly smaller entries skips that prefix.
proof fn lemma_insert_skip(t: Seq<char>, ts: Seq<Seq<char>>, j: int)
    requires
        0 <= j <= ts.len(),
        forall|i: int| 0 <= i < j ==> !lex_leq(t, #[trigger] ts[i]),
    ensures
        insert_tok(t, ts) == ts.take(j) + insert_tok(t, ts.skip(j)),
    decreases j,
{
    if j == 0 {
        assert(ts.skip(0) =~= ts);
        assert(ts.take(0) + insert_tok(t, ts) =~= insert_tok(t, ts));
    } else {
        let d = ts.drop_first();
        assert forall|i: int| 0 <= i < j - 1 implies !lex_leq(t, #[trigger] d[i]) by {
            assert(d[i] == ts[i + 1]);
        }
        lemma_insert_skip(t, d, j - 1);
        assert(ts.take(j) =~= seq![ts[0]] + d.take(j - 1));
        assert(ts.skip(j) =~= d.skip(j - 1));
        assert(seq![ts[0]] + (d.take(j - 1) + insert_tok(t, d.skip(j - 1))) =~= ts.take(j)
            + insert_tok(t, ts.skip(j)));
    }
}

/// Inserts a token into a sorted, duplicate-free vector of tokens, skipping
/// it when it is already present.
fn insert_token(v: &mut Vec<String>, t: String)
    ensures
        views(final(v)@) == insert_tok(t@, views(old(v)@)),
{
    let ghost d = views(v@);
    let n = v.len();
    let mut j: usize = 0;
    loop
        invariant
            j <= n,
            n == v.len(),
            d == views(old(v)@),
            views(v@) == d,
            forall|i: int| 0 <= i < j ==> !lex_leq(t@, #[trigger] d[i]),
        decreases n - j,
    {
        if j == n {
            proof {
                lemma_insert_skip(t@, d, j as int);
                assert(d.skip(j as int).len() == 0);
                assert(d.take(j as int) =~= d);
            }
            v.push(t);
            proof {
                assert(views(v@) =~= d.push(t@));
                assert(d + insert_tok(t@, d.skip(j as int)) =~= d.push(t@));
            }
            return ;
        }
        proof {
            assert(d[j as int] == v@[j as int]@);
        }
        if str_leq(t.as_str(), v[j].as_str()) {
            proof {
                lemma_insert_skip(t@, d, j as int);
                assert(d.skip(j as int)[0] == d[j as int]);
            }
            if str_eq(t.as_str(), v[j].as_str()) {
                proof {
                    assert(insert_tok(t@, d.skip(j as int)) == d.skip(j as int));
                    assert(d.take(j as int) + d.skip(j as int) =~= d);
                }
                return ;
            } else {
                v.insert(j, t);
                proof {
                    assert(insert_tok(t@, d.skip(j as int)) == seq![t@] + d.skip(j as int));
                    assert(views(v@) =~= d.take(j as int) + (seq![t@] + d.skip(j as int)));
                }
                return ;
            }
        }
        proof {
            lemma_lex_total(t@, d[j as int]);
        }
        j += 1;
    }
}

/// Sorts a vector of tokens and removes duplicates.
fn sort_dedup_tokens(toks: Vec<String>) -> (r: Vec<String>)
    ensures
        views(r@) == sort_dedup(views(toks@)),
{
    let ghost d = views(toks@);
    let mut out: Vec<String> = Vec::new();
    let mut i: usize = 0;
    proof {
        assert(views(out@) =~= sort_dedup(d.take(0)));
    }
    while i < toks.len()
        invariant
            i <= toks.len(),
            d == views(toks@),
            views(out@) == sort_dedup(d.take(i as int)),
        decreases toks.len() - i,
    {
        proof {
            assert(d.take(i + 1).drop_last() =~= d.take(i as int));
            assert(d.take(i + 1).last() == d[i as int]);
            assert(d[i as int] == toks@[i as int]@);
        }
        let t = toks[i].clone();
        insert_token(&mut out, t);
        i += 1;
    }
    proof {
        assert(d.take(toks@.len() as int) =~= d);
    }
    out
}

/// Joins tokens with single spaces.
fn join_tokens(toks: &Vec<String>) -> (r: String)
    ensures
        r@ == join_spaces(views(toks@)),
{
    let ghost d = views(toks@);
    let mut s = String::new();
    let mut i: usize = 0;
    while i < toks.len()
        invariant
            i <= toks.len(),
            d == views(toks@),
            s@ == join_spaces(d.take(i as int)),
        decreases toks.len() - i,
    {
        proof {
            assert(d.take(i + 1).drop_last() =~= d.take(i as int));
            assert(d.take(i + 1).last() == d[i as int]);
            assert(d[i as int] == toks@[i as int]@);
            reveal_strlit(" ");
        }
        if i > 0 {
            s.append(" ");
            proof {
                assert(" "@ =~= seq![' ']);
            }
        }
        s.append(toks[i].as_str());
        proof {
            if i == 0 {
                assert(join_spaces(d.take(1)) == d[0]);
            }
        }
        i += 1;
    }
    proof {
        assert(d.take(toks@.len() as int) =~= d);
    }
    s
}

/// Splits a string into its whitespace-separated tokens.
#[verifier::rlimit(80)]
pub fn split_tokens(s: &str) -> (toks: Vec<String>)
    ensures
        views(toks@) == split_ws(s@),
{
    let n = s.unicode_len();
    let mut toks: Vec<String> = Vec::new();
    let mut i: usize = 0;
    let mut start: usize = 0;
    let mut in_word = false;
    proof {
        assert(s@.take(0) =~= Seq::<char>::empty());
        assert(views(toks@) =~= split_ws(s@.take(0)));
    }
    while i < n
        invariant
            n == s@.len(),
            i <= n,
            in_word ==> start < i && (start == 0 || is_space(s@[start as int - 1])) && (forall|
                k: int,
            |
                start <= k < i ==> !is_space(#[trigger] s@[k])),
            in_word ==> split_ws(s@.take(i as int)) == views(toks@).push(
                s@.subrange(start as int, i as int),
            ),
            !in_word ==> split_ws(s@.take(i as int)) == views(toks@),
            !in_word ==> (i == 0 || is_space(s@[i as int - 1])),
            in_word ==> !is_space(s@[i as int - 1]),
        decreases n - i,
    {
        let c = s.get_char(i);
        proof {
            assert(s@.take(i + 1) =~= s@.take(i as int).push(s@[i as int]));
            if i > 0 {
                assert(s@.take(i as int).last() == s@[i as int - 1]);
            }
        }
        if char_is_space(c) {
            if in_word {
                let t = s.substring_char(start, i).to_owned();
                toks.push(t);
                proof {
                    assert(views(toks@) =~= split_ws(s@.take(i as int)));
                }
                in_word = false;
            }
            proof {
                lemma_split_push_space(s@.take(i as int), c);
            }
        } else {
            if !in_word {
                proof {
                    lemma_split_push_start(s@.take(i as int), c);
                    assert(s@.subrange(i as int, i + 1) =~= seq![c]);
                }
                start = i;
                in_word = true;
            } else {
                proof {
                    lemma_split_push_cont(s@.take(i as int), c);
                    let p = views(toks@).push(s@.subrange(start as int, i as int));
                    assert(p.last() == s@.subrange(start as int, i as int));
                    assert(p.update(p.len() - 1, p.last().push(c)) =~= views(toks@).push(
                        s@.subrange(start as int, i as int).push(c),
                    ));
                    assert(s@.subrange(start as int, i as int).push(c) =~= s@.subrange(
                        start as int,
                        i + 1,
                    ));
                }
            }
        }
        i += 1;
    }
    proof {
        assert(s@.take(n as int) =~= s@);
    }
    if in_word {
        let t = s.substring_char(start, n).to_owned();
        toks.push(t);
        proof {
            assert(views(toks@) =~= split_ws(s@));
        }
    }
    toks
}

/// Normalizes a class string: splits it on whitespace, sorts the tokens,
/// removes duplicates and joins them with single spaces.
pub fn normalize(s: &str) -> (r: String)
    ensures
        r@ == normalize_spec(s@),
{
    let toks = split_tokens(s);
    let sorted = sort_dedup_tokens(toks);
    join_tokens(&sorted)
}

/// The concatenation of fragments, each preceded by one space.
pub open spec fn cat_spaced(ts: Seq<Seq<char>>) -> Seq<char>
    decreases ts.len(),
{
    if ts.len() == 0 {
        Seq::empty()
    } else {
        cat_spaced(ts.drop_last()) + seq![' '] + ts.last()
    }
}

/// The tokens of a sequence of fragments, in order.
pub open spec fn split_all(ts: Seq<Seq<char>>) -> Seq<Seq<char>>
    decreases ts.len(),
{
    if ts.len() == 0 {
        Seq::empty()
    } else {
        split_all(ts.drop_last()) + split_ws(ts.last())
    }
}

/// The normalized class string assembled from a sequence of fragments.
pub open spec fn assemble(ts: Seq<Seq<char>>) -> Seq<char> {
    join_spaces(sort_dedup(split_all(ts)))
}

/// Splitting space-joined fragments yields their tokens in order.
pub proof fn lemma_split_cat_spaced(ts: Seq<Seq<char>>)
    ensures
        split_ws(cat_spaced(ts)) == split_all(ts),
    decreases ts.len(),
{
    if ts.len() > 0 {
        lemma_split_cat_spaced(ts.drop_last());
        lemma_split_concat(cat_spaced(ts.drop_last()), ts.last());
    }
}

/// Each fragment's tokens appear among the tokens of the whole.
pub proof fn lemma_split_all_member(ts: Seq<Seq<char>>, i: int)
    requires
        0 <= i < ts.len(),
    ensures
        forall|x: Seq<char>|
            #[trigger] split_ws(ts[i]).contains(x) ==> split_all(ts).contains(x),
    decreases ts.len(),
{
    if i == ts.len() - 1 {
        assert(ts[i] == ts.last());
    } else {
        lemma_split_all_member(ts.drop_last(), i);
        assert(ts.drop_last()[i] == ts[i]);
    }
}

/// Every token of a split is a member of the normalized token list, and
/// conversely: normalization changes no token, only order and multiplicity.
pub proof fn lemma_assemble_member(ts: Seq<Seq<char>>)
    ensures
        forall|x: Seq<char>|
            sort_dedup(split_all(ts)).contains(x) <==> split_all(ts).contains(x),
{
    lemma_sort_dedup_member(split_all(ts));
}

/// All tokens of a split of anything are words.
pub proof fn lemma_split_all_words(ts: Seq<Seq<char>>)
    ensures
        forall|i: int| 0 <= i < split_all(ts).len() ==> is_word(#[trigger] split_all(ts)[i]),
    decreases ts.len(),
{
    if ts.len() > 0 {
        lemma_split_all_words(ts.drop_last());
        lemma_split_words(ts.last());
        let a = split_all(ts.drop_last());
        let b = split_ws(ts.last());
        assert forall|i: int| 0 <= i < split_all(ts).len() implies is_word(
            #[trigger] split_all(ts)[i],
        ) by {
            if i < a.len() {
                assert(split_all(ts)[i] == a[i]);
            } else {
                assert(split_all(ts)[i] == b[i - a.len()]);
            }
        }
    }
}

/// The tokens of an assembled class string are exactly the sorted,
/// deduplicated tokens of its fragments: splitting the output recovers them.
pub proof fn lemma_assemble_tokens(ts: Seq<Seq<char>>)
    ensures
        split_ws(assemble(ts)) == sort_dedup(split_all(ts)),
{
    let out = sort_dedup(split_all(ts));
    lemma_split_all_words(ts);
    lemma_sort_dedup_member(split_all(ts));
    assert forall|i: int| 0 <= i < out.len() implies is_word(#[trigger] out[i]) by {
        assert(out.contains(out[i]));
        assert(split_all(ts).contains(out[i]));
        let j = choose|j: int| 0 <= j < split_all(ts).len() && split_all(ts)[j] == out[i];
        assert(is_word(split_all(ts)[j]));
    }
    lemma_split_join(out);
}

/// Nothing configured is lost: every token of every fragment appears among
/// the tokens of the assembled class string.
pub proof fn lemma_assemble_fragment_tokens(ts: Seq<Seq<char>>, i: int)
    requires
        0 <= i < ts.len(),
    ensures
        forall|x: Seq<char>|
            #[trigger] split_ws(ts[i]).contains(x) ==> split_ws(assemble(ts)).contains(x),
{
    lemma_assemble_tokens(ts);
    lemma_sort_dedup_member(split_all(ts));
    lemma_split_all_member(ts, i);
}

/// No token occurs twice in an assembled class string.
pub proof fn lemma_assemble_dedup(ts: Seq<Seq<char>>)
    ensures
        forall|i: int, j: int|
            0 <= i < j < split_ws(assemble(ts)).len() ==> #[trigger] split_ws(assemble(ts))[i]
                != #[trigger] split_ws(assemble(ts))[j],
{
    lemma_assemble_tokens(ts);
    lemma_sort_dedup_sorted(split_all(ts));
}

/// An assembled class string has no leading, trailing or doubled whitespace:
/// splitting it on whitespace and rejoining with single spaces is the
/// identity.
pub proof fn lemma_assemble_whitespace(ts: Seq<Seq<char>>)
    ensures
        join_spaces(split_ws(assemble(ts))) == assemble(ts),
{
    lemma_assemble_tokens(ts);
}

/// Normalization is idempotent: normalizing an already assembled class
/// string changes nothing.
pub proof fn lemma_assemble_idempotent(ts: Seq<Seq<char>>)
    ensures
        normalize_spec(assemble(ts)) == assemble(ts),
{
    lemma_assemble_tokens(ts);
    lemma_sort_dedup_sorted(split_all(ts));
    lemma_sort_dedup_fixed(sort_dedup(split_all(ts)));
}

/// Adds one borrowed fragment to a fragment list.
pub fn push_part(parts: &mut Vec<String>, frag: &str)
    ensures
        views(final(parts)@) == views(old(parts)@).push(frag@),
{
    parts.push(frag.to_owned());
    proof {
        assert(views(parts@) =~= views(old(parts)@).push(frag@));
    }
}

/// Adds one owned fragment to a fragment list.
pub fn push_part_string(parts: &mut Vec<String>, frag: String)
    ensures
        views(final(parts)@) == views(old(parts)@).push(frag@),
{
    parts.push(frag);
    proof {
        assert(views(parts@) =~= views(old(parts)@).push(frag@));
    }
}

/// Appends every string of `customs` to a fragment list.
pub fn push_all_parts(parts: &mut Vec<String>, customs: &Vec<String>)
    ensures
        views(final(parts)@) == views(old(parts)@) + views(customs@),
{
    let ghost base = views(parts@);
    let ghost target = views(customs@);
    let mut i: usize = 0;
    proof {
        assert(base + target.take(0) =~= base);
    }
    while i < customs.len()
        invariant
            i <= customs.len(),
            base == views(old(parts)@),
            target == views(customs@),
            views(parts@) == base + target.take(i as int),
        decreases customs.len() - i,
    {
        let ghost before = parts@;
        let t = customs[i].clone();
        proof {
            assert(t@ == target[i as int]);
        }
        parts.push(t);
        proof {
            assert(views(parts@) =~= views(before).push(t@));
            assert(views(before).push(t@) =~= base + target.take(i + 1));
        }
        i += 1;
    }
    proof {
        assert(target.take(customs@.len() as int) =~= target);
    }
}

/// Joins the fragments with spaces and normalizes the result: the output is
/// the sorted, deduplicated, single-space-joined token list of all fragments.
pub fn assemble_fragments(parts: &Vec<String>) -> (r: String)
    ensures
        r@ == assemble(views(parts@)),
{
    let ghost d = views(parts@);
    let mut s = String::new();
    let mut i: usize = 0;
    proof {
        assert(s@ =~= cat_spaced(d.take(0)));
    }
    while i < parts.len()
        invariant
            i <= parts.len(),
            d == views(parts@),
            s@ == cat_spaced(d.take(i as int)),
        decreases parts.len() - i,
    {
        proof {
            reveal_strlit(" ");
            assert(" "@ =~= seq![' ']);
            assert(d.take(i + 1).drop_last() =~= d.take(i as int));
            assert(d.take(i + 1).last() == d[i as int]);
            assert(d[i as int] == parts@[i as int]@);
        }
        s.append(" ");
        s.append(parts[i].as_str());
        i += 1;
    }
    proof {
        assert(d.take(parts@.len() as int) =~= d);
        lemma_split_cat_spaced(d);
    }
    normalize(s.as_str())
}

/// Left-to-right replacement of every non-overlapping occurrence of a
/// non-empty pattern.
pub open spec fn replace_seq(s: Seq<char>, pat: Seq<char>, rep: Seq<char>) -> Seq<char>
    recommends
        pat.len() > 0,
    decreases s.len(),
{
    if pat.len() == 0 || s.len() < pat.len() {
        s
    } else if s.take(pat.len() as int) == pat {
        rep + replace_seq(s.skip(pat.len() as int), pat, rep)
    } else {
        seq![s[0]] + replace_seq(s.drop_first(), pat, rep)
    }
}

/// Whether the pattern occurs in `s` starting at position `i`.
fn matches_at(s: &str, i: usize, pat: &str) -> (r: bool)
    requires
        i <= s@.len(),
    ensures
        r == (i + pat@.len() <= s@.len() && s@.subrange(
            i as int,
            i + pat@.len(),
        ) == pat@),
{
    let m = pat.unicode_len();
    let n = s.unicode_len();
    if n - i < m {
        proof {
            if i + pat@.len() <= s@.len() {
                assert(false);
            }
        }
        return false;
    }
    let mut k: usize = 0;
    while k < m
        invariant
            m == pat@.len(),
            n == s@.len(),
            i + m <= n,
            k <= m,
            forall|q: int| 0 <= q < k ==> s@[i + q] == pat@[q],
        decreases m - k,
    {
        if s.get_char(i + k) != pat.get_char(k) {
            proof {
                assert(s@.subrange(i as int, i + pat@.len())[k as int] == s@[i + k]);
            }
            return false;
        }
        k += 1;
    }
    proof {
        assert(s@.subrange(i as int, i + pat@.len()) =~= pat@);
    }
    true
}

/// Replaces every non-overlapping occurrence of `pat` in `s` by `rep`,
/// scanning left to right.
pub fn replace_all(s: &str, pat: &str, rep: &str) -> (r: String)
    requires
        pat@.len() > 0,
    ensures
        r@ == replace_seq(s@, pat@, rep@),
{
    let n = s.unicode_len();
    let m = pat.unicode_len();
    let mut out = String::new();
    let mut i: usize = 0;
    while i < n
        invariant
            n == s@.len(),
            m == pat@.len(),
            m > 0,
            i <= n,
            replace_seq(s@, pat@, rep@) == out@ + replace_seq(s@.skip(i as int), pat@, rep@),
        decreases n - i,
    {
        let ghost rest = s@.skip(i as int);
        if matches_at(s, i, pat) {
            proof {
                assert(rest.take(m as int) =~= s@.subrange(i as int, i + m));
                assert(rest.skip(m as int) =~= s@.skip(i + m));
            }
            out.append(rep);
            i += m;
        } else {
            proof {
                if i + m <= n {
                    assert(rest.take(m as int) =~= s@.subrange(i as int, i + m));
                }
                assert(rest[0] == s@[i as int]);
                assert(rest.drop_first() =~= s@.skip(i + 1));
            }
            let piece = s.substring_char(i, i + 1);
            proof {
                assert(piece@ =~= seq![s@[i as int]]);
            }
            out.append(piece);
            i += 1;
        }
    }
    proof {
        assert(s@.skip(n as int).len() == 0);
    }
    out
}

/// The decimal digit character for a value below ten.
pub open spec fn digit_char(d: nat) -> char
    recommends
        d < 10,
{
    if d == 0 {
        '0'
    } else if d == 1 {
        '1'
    } else if d == 2 {
        '2'
    } else if d == 3 {
        '3'
    } else if d == 4 {
        '4'
    } else if d == 5 {
        '5'
    } else if d == 6 {
        '6'
    } else if d == 7 {
        '7'
    } else if d == 8 {
        '8'
    } else {
        '9'
    }
}

/// The decimal representation of a natural number.
pub open spec fn dec_rep(n: nat) -> Seq<char>
    decreases n,
{
    if n < 10 {
        seq![digit_char(n)]
    } else {
        dec_rep(n / 10).push(digit_char(n % 10))
    }
}

/// The decimal digit string for a value below ten.
fn digit_str(d: u32) -> (r: &'static str)
    requires
        d < 10,
    ensures
        r@ == seq![digit_char(d as nat)],
{
    proof {
        reveal_strlit("0");
        reveal_strlit("1");
        reveal_strlit("2");
        reveal_strlit("3");
        reveal_strlit("4");
        reveal_strlit("5");
        reveal_strlit("6");
        reveal_strlit("7");
        reveal_strlit("8");
        reveal_strlit("9");
    }
    let r = match d {
        0 => "0",
        1 => "1",
        2 => "2",
        3 => "3",
        4 => "4",
        5 => "5",
        6 => "6",
        7 => "7",
        8 => "8",
        _ => "9",
    };
    proof {
        assert(r@ =~= seq![digit_char(d as nat)]);
    }
    r
}

/// Formats a number in decimal.
pub fn u32_dec(n: u32) -> (r: String)
    ensures
        r@ == dec_rep(n as nat),
    decreases n,
{
    if n < 10 {
        let d = digit_str(n);
        let mut s = String::new();
        s.append(d);
        proof {
            assert(s@ =~= seq![digit_char(n as nat)]);
        }
        s
    } else {
        let mut s = u32_dec(n / 10);
        let d = digit_str(n % 10);
        s.append(d);
        proof {
            assert(dec_rep((n / 10) as nat).push(digit_char((n % 10) as nat)) =~= dec_rep(
                (n / 10) as nat,
            ) + seq![digit_char((n % 10) as nat)]);
        }
        s
    }
}

/// The inline style text that precedes the line count in a clamp style.
pub open spec fn clamp_prefix() -> Seq<char> {
    "display: -webkit-box; -webkit-line-clamp: "@
}

/// The inline style text that follows the line count in a clamp style.
pub open spec fn clamp_suffix() -> Seq<char> {
    "; -webkit-box-orient: vertical; overflow: hidden;"@
}

/// Builds the inline CSS that clamps text to the given number of lines.
pub fn clamp_style_string(lines: u32) -> (r: String)
    ensures
        r@ == clamp_prefix() + dec_rep(lines as nat) + clamp_suffix(),
{
    let mut s = "display: -webkit-box; -webkit-line-clamp: ".to_owned();
    let d = u32_dec(lines);
    s.append(d.as_str());
    s.append("; -webkit-box-orient: vertical; overflow: hidden;");
    s
}

/// An exec check for the whitespace characters of `is_space`.
pub fn char_is_space(c: char) -> (r: bool)
    ensures
        r == is_space(c),
{
    c == ' ' || c == '\t' || c == '\n' || c == '\r'
}

/// The single-space join of a token sequence.
pub open spec fn join_spaces(ts: Seq<Seq<char>>) -> Seq<char>
    decreases ts.len(),
{
    if ts.len() == 0 {
        Seq::empty()
    } else if ts.len() == 1 {
        ts[0]
    } else {
        join_spaces(ts.drop_last()) + seq![' '] + ts.last()
    }
}

/// Appending a whitespace character leaves the split unchanged.
pub proof fn lemma_split_push_space(s: Seq<char>, c: char)
    requires
        is_space(c),
    ensures
        split_ws(s.push(c)) == split_ws(s),
{
    assert(s.push(c).drop_last() =~= s);
    assert(s.push(c).last() == c);
}

/// A sequence ending in a non-space character splits into at least one token.
pub proof fn lemma_split_last_nonempty(s: Seq<char>)
    requires
        s.len() > 0,
        !is_space(s.last()),
    ensures
        split_ws(s).len() > 0,
    decreases s.len(),
{
    if s.len() >= 2 && !is_space(s[s.len() - 2]) {
        lemma_split_last_nonempty(s.drop_last());
    }
}

/// Appending a non-space character after a space (or at the start) begins a
/// new token.
pub proof fn lemma_split_push_start(s: Seq<char>, c: char)
    requires
        !is_space(c),
        s.len() == 0 || is_space(s.last()),
    ensures
        split_ws(s.push(c)) == split_ws(s).push(seq![c]),
{
    assert(s.push(c).drop_last() =~= s);
    assert(s.push(c).last() == c);
}

/// Appending a non-space character after a non-space character extends the
/// final token.
pub proof fn lemma_split_push_cont(s: Seq<char>, c: char)
    requires
        !is_space(c),
        s.len() > 0,
        !is_space(s.last()),
    ensures
        split_ws(s).len() > 0,
        split_ws(s.push(c)) == split_ws(s).update(
            split_ws(s).len() - 1,
            split_ws(s).last().push(c),
        ),
{
    lemma_split_last_nonempty(s);
    assert(s.push(c).drop_last() =~= s);
    assert(s.push(c).last() == c);
    assert(s.push(c)[s.push(c).len() - 2] == s.last());
}

/// Every token produced by splitting is a word.
pub proof fn lemma_split_words(s: Seq<char>)
    ensures
        forall|i: int| 0 <= i < split_ws(s).len() ==> is_word(#[trigger] split_ws(s)[i]),
    decreases s.len(),
{
    if s.len() > 0 {
        lemma_split_words(s.drop_last());
        let prefix = split_ws(s.drop_last());
        let c = s.last();
        if !is_space(c) && s.len() >= 2 && !is_space(s[s.len() - 2]) {
            lemma_split_last_nonempty(s.drop_last());
            let t = prefix.last();
            assert(is_word(prefix[prefix.len() - 1]));
            assert forall|i: int| 0 <= i < t.push(c).len() implies !is_space(
                #[trigger] t.push(c)[i],
            ) by {
                if i < t.len() {
                    assert(t.push(c)[i] == t[i]);
                }
            }
            assert(is_word(t.push(c)));
            let out = prefix.update(prefix.len() - 1, t.push(c));
            assert forall|i: int| 0 <= i < out.len() implies is_word(#[trigger] out[i]) by {
                if i < prefix.len() - 1 {
                    assert(out[i] == prefix[i]);
                }
            }
        } else if !is_space(c) {
            assert(is_word(seq![c]));
        }
    }
}

/// A single word splits into exactly itself.
pub proof fn lemma_split_of_word(t: Seq<char>)
    requires
        is_word(t),
    ensures
        split_ws(t) == seq![t],
    decreases t.len(),
{
    if t.len() == 1 {
        assert(t =~= Seq::empty().push(t[0]));
        lemma_split_push_start(Seq::empty(), t[0]);
        assert(split_ws(t) =~= seq![t]);
    } else {
        let t0 = t.drop_last();
        assert(is_word(t0));
        lemma_split_of_word(t0);
        assert(t =~= t0.push(t.last()));
        lemma_split_push_cont(t0, t.last());
        assert(split_ws(t) =~= seq![t0.push(t.last())]);
        assert(t0.push(t.last()) =~= t);
    }
}

/// Splitting distributes over concatenation at a space.
pub proof fn lemma_split_concat(a: Seq<char>, b: Seq<char>)
    ensures
        split_ws(a + seq![' '] + b) == split_ws(a) + split_ws(b),
    decreases b.len(),
{
    if b.len() == 0 {
        assert(a + seq![' '] + b =~= a.push(' '));
        lemma_split_push_space(a, ' ');
        assert(split_ws(a) + split_ws(b) =~= split_ws(a));
    } else {
        let b0 = b.drop_last();
        let c = b.last();
        lemma_split_concat(a, b0);
        assert(a + seq![' '] + b =~= (a + seq![' '] + b0).push(c));
        assert(b =~= b0.push(c));
        let w = a + seq![' '] + b0;
        if is_space(c) {
            lemma_split_push_space(w, c);
            lemma_split_push_space(b0, c);
        } else if b0.len() == 0 {
            assert(w.last() == ' ');
            lemma_split_push_start(w, c);
            lemma_split_push_start(b0, c);
            assert((split_ws(a) + split_ws(b0)).push(seq![c]) =~= split_ws(a) + split_ws(
                b0,
            ).push(seq![c]));
        } else if is_space(b0.last()) {
            assert(w.last() == b0.last());
            lemma_split_push_start(w, c);
            lemma_split_push_start(b0, c);
            assert((split_ws(a) + split_ws(b0)).push(seq![c]) =~= split_ws(a) + split_ws(
                b0,
            ).push(seq![c]));
        } else {
            assert(w.last() == b0.last());
            lemma_split_push_cont(w, c);
            lemma_split_push_cont(b0, c);
            let p = split_ws(a);
            let q = split_ws(b0);
            assert((p + q).last() == q.last());
            assert((p + q).update((p + q).len() - 1, q.last().push(c)) =~= p + q.update(
                q.len() - 1,
                q.last().push(c),
            ));
        }
    }
}

/// Splitting the single-space join of words gives the words back.
pub proof fn lemma_split_join(ts: Seq<Seq<char>>)
    requires
        forall|i: int| 0 <= i < ts.len() ==> is_word(#[trigger] ts[i]),
    ensures
        split_ws(join_spaces(ts)) == ts,
    decreases ts.len(),
{
    if ts.len() == 0 {
        assert(split_ws(join_spaces(ts)) =~= ts);
    } else if ts.len() == 1 {
        lemma_split_of_word(ts[0]);
        assert(split_ws(join_spaces(ts)) =~= ts);
    } else {
        let t0 = ts.drop_last();
        lemma_split_join(t0);
        lemma_split_concat(join_spaces(t0), ts.last());
        lemma_split_of_word(ts.last());
        assert(split_ws(join_spaces(ts)) =~= t0 + seq![ts.last()]);
        assert(t0 + seq![ts.last()] =~= ts);
    }
}

/// Lexicographic order on character sequences by unicode code point.
pub open spec fn lex_leq(a: Seq<char>, b: Seq<char>) -> bool
    decreases a.len(),
{
    if a.len() == 0 {
        true
    } else if b.len() == 0 {
        false
    } else if a[0] == b[0] {
        lex_leq(a.drop_first(), b.drop_first())
    } else {
        (a[0] as u32) < (b[0] as u32)
    }
}

/// The lexicographic order is total.
pub proof fn lemma_lex_total(a: Seq<char>, b: Seq<char>)
    ensures
        lex_leq(a, b) || lex_leq(b, a),
    decreases a.len(),
{
    if a.len() > 0 && b.len() > 0 {
        if a[0] == b[0] {
            lemma_lex_total(a.drop_first(), b.drop_first());
        } else {
            vstd::utf8::char_u32_cast(a[0], a[0] as u32);
            vstd::utf8::char_u32_cast(b[0], b[0] as u32);
            assert((a[0] as u32) != (b[0] as u32));
        }
    }
}

/// The lexicographic order is antisymmetric.
pub proof fn lemma_lex_antisym(a: Seq<char>, b: Seq<char>)
    requires
        lex_leq(a, b),
        lex_leq(b, a),
    ensures
        a == b,
    decreases a.len(),
{
    if a.len() == 0 {
        assert(b.len() == 0);
        assert(a =~= b);
    } else {
        assert(a[0] == b[0]);
        lemma_lex_antisym(a.drop_first(), b.drop_first());
        assert(a =~= seq![a[0]] + a.drop_first());
        assert(b =~= seq![b[0]] + b.drop_first());
    }
}

/// The lexicographic order is transitive.
pub proof fn lemma_lex_trans(a: Seq<char>, b: Seq<char>, c: Seq<char>)
    requires
        lex_leq(a, b),
        lex_leq(b, c),
    ensures
        lex_leq(a, c),
    decreases a.len(),
{
    if a.len() > 0 && b.len() > 0 && c.len() > 0 && a[0] == b[0] && b[0] == c[0] {
        lemma_lex_trans(a.drop_first(), b.drop_first(), c.drop_first());
    }
}

/// Compares two string slices in the order of `lex_leq`.
pub fn str_leq(a: &str, b: &str) -> (r: bool)
    ensures
        r == lex_leq(a@, b@),
{
    let na = a.unicode_len();
    let nb = b.unicode_len();
    let mut i: usize = 0;
    proof {
        assert(a@.skip(0) =~= a@);
        assert(b@.skip(0) =~= b@);
    }
    loop
        invariant
            na == a@.len(),
            nb == b@.len(),
            i <= na,
            i <= nb,
            forall|j: int| 0 <= j < i ==> a@[j] == b@[j],
            lex_leq(a@, b@) == lex_leq(a@.skip(i as int), b@.skip(i as int)),
        decreases na - i,
    {
        if i == na {
            proof {
                assert(a@.skip(i as int).len() == 0);
            }
            return true;
        }
        if i == nb {
            proof {
                assert(b@.skip(i as int).len() == 0);
                assert(a@.skip(i as int).len() > 0);
            }
            return false;
        }
        let ca = a.get_char(i);
        let cb = b.get_char(i);
        if ca != cb {
            proof {
                assert(a@.skip(i as int)[0] == ca);
                assert(b@.skip(i as int)[0] == cb);
            }
            return (ca as u32) < (cb as u32);
        }
        proof {
            assert(a@.skip(i as int)[0] == ca);
            assert(b@.skip(i as int)[0] == cb);
            assert(a@.skip(i as int).drop_first() =~= a@.skip(i + 1));
            assert(b@.skip(i as int).drop_first() =~= b@.skip(i + 1));
        }
        i += 1;
    }
}

/// Two string slices are equal exactly when their character views are.
pub fn str_eq(a: &str, b: &str) -> (r: bool)
    ensures
        r == (a@ == b@),
{
    let n = a.unicode_len();
    if n != b.unicode_len() {
        return false;
    }
    let mut i: usize = 0;
    while i < n
        invariant
            n == a@.len(),
            n == b@.len(),
            i <= n,
            forall|j: int| 0 <= j < i ==> a@[j] == b@[j],
        decreases n - i,
    {
        if a.get_char(i) != b.get_char(i) {
            return false;
        }
        i += 1;
    }
    proof {
        assert(a@ =~= b@);
    }
    true
}

} // verus!
