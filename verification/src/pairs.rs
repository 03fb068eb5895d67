//! Name/value pairs kept as a map of texts: sorted by name, one value per name.
use vstd::prelude::*;

use crate::text::chars_of;
use crate::url::pair_views;

verus! {

/// `a` comes strictly before `b` in the order of Rust's `String`s: character by
/// character by code point (the order of their UTF-8 bytes), a proper prefix first.
pub open spec fn text_lt(a: Seq<char>, b: Seq<char>) -> bool
    decreases a.len(),
{
    if a.len() == 0 {
        b.len() > 0
    } else if b.len() == 0 {
        false
    } else if a[0] != b[0] {
        a[0] < b[0]
    } else {
        text_lt(a.drop_first(), b.drop_first())
    }
}

/// No text comes before itself.
pub proof fn lemma_text_lt_irreflexive(a: Seq<char>)
    ensures
        !text_lt(a, a),
    decreases a.len(),
{
    if a.len() > 0 {
        lemma_text_lt_irreflexive(a.drop_first());
    }
}

/// The order of texts is transitive.
pub proof fn lemma_text_lt_transitive(a: Seq<char>, b: Seq<char>, c: Seq<char>)
    requires
        text_lt(a, b),
        text_lt(b, c),
    ensures
        text_lt(a, c),
    decreases a.len(),
{
    if a.len() > 0 && b.len() > 0 && c.len() > 0 && a[0] == b[0] && b[0] == c[0] {
        lemma_text_lt_transitive(a.drop_first(), b.drop_first(), c.drop_first());
    }
}

/// Of two different texts, one comes before the other.
pub proof fn lemma_text_lt_total(a: Seq<char>, b: Seq<char>)
    requires
        a != b,
    ensures
        text_lt(a, b) || text_lt(b, a),
    decreases a.len(),
{
    if a.len() > 0 && b.len() > 0 && a[0] == b[0] {
        if a.drop_first() == b.drop_first() {
            assert(a =~= seq![a[0]] + a.drop_first());
            assert(b =~= seq![b[0]] + b.drop_first());
        }
        lemma_text_lt_total(a.drop_first(), b.drop_first());
    } else if a.len() > 0 && b.len() > 0 {
        
    } else if a.len() == 0 && b.len() == 0 {
        assert(a =~= b);
    }
}

/// The value last given for `name`, if any.
pub open spec fn last_value(pairs: Seq<(Seq<char>, Seq<char>)>, name: Seq<char>) -> Option<Seq<char>>
    decreases pairs.len(),
{
    if pairs.len() == 0 {
        None
    } else if pairs.last().0 == name {
        Some(pairs.last().1)
    } else {
        last_value(pairs.drop_last(), name)
    }
}

/// The names strictly increase.
pub open spec fn names_sorted(p: Seq<(Seq<char>, Seq<char>)>) -> bool {
    forall|i: int, j: int| 0 <= i < j < p.len() ==> text_lt(#[trigger] p[i].0, #[trigger] p[j].0)
}

/// `map` holds `pairs` as a map: names strictly increasing, each name given in `pairs`
/// present once, with the last value given for it.
pub open spec fn pairs_as_map(map: Seq<(Seq<char>, Seq<char>)>, pairs: Seq<(Seq<char>, Seq<char>)>) -> bool {
    &&& names_sorted(map)
    &&& forall|i: int| 0 <= i < map.len() ==> last_value(pairs, #[trigger] map[i].0) == Some(map[i].1)
    &&& forall|name: Seq<char>| #[trigger] last_value(pairs, name) is Some ==> exists|i: int|
        0 <= i < map.len() && #[trigger] map[i].0 == name
}

/// `a` comes strictly before `b` (see [`text_lt`]).
fn text_before(a: &str, b: &str) -> (r: bool)
    ensures
        r == text_lt(a@, b@),
{
    let x = chars_of(a);
    let y = chars_of(b);
    let mut i: usize = 0;
    assert(a@.skip(0) =~= a@);
    assert(b@.skip(0) =~= b@);
    while i < x.len() && i < y.len() && x[i] == y[i]
        invariant
            i <= x.len(),
            i <= y.len(),
            x@ == a@,
            y@ == b@,
            text_lt(a@, b@) == text_lt(a@.skip(i as int), b@.skip(i as int)),
        decreases x.len() - i,
    {
        assert(a@.skip(i as int).drop_first() =~= a@.skip(i + 1));
        assert(b@.skip(i as int).drop_first() =~= b@.skip(i + 1));
        i = i + 1;
    }
    if i == x.len() {
        i < y.len()
    } else if i == y.len() {
        false
    } else {
        proof {
            assert(a@.skip(i as int)[0] == x@[i as int]);
            assert(b@.skip(i as int)[0] == y@[i as int]);
        }
        x[i] < y[i]
    }
}

/// The pairs as a map (see [`pairs_as_map`]): sorted by name, one entry per name, the last
/// value given for a name winning.
pub fn pairs_to_map(pairs: Vec<(String, String)>) -> (r: Vec<(String, String)>)
    ensures
        pairs_as_map(pair_views(r@), pair_views(pairs@)),
{
    let ghost all = pair_views(pairs@);
    let mut out: Vec<(String, String)> = Vec::new();
    let mut j: usize = 0;
    assert(all.take(0) =~= Seq::<(Seq<char>, Seq<char>)>::empty());
    while j < pairs.len()
        invariant
            j <= pairs.len(),
            all == pair_views(pairs@),
            pairs_as_map(pair_views(out@), all.take(j as int)),
        decreases pairs.len() - j,
    {
        let ghost old_map = pair_views(out@);
        let ghost before = all.take(j as int);
        let ghost after = all.take(j + 1);
        let name = pairs[j].0.clone();
        let value = pairs[j].1.clone();
        proof {
            assert(after.drop_last() =~= before);
            assert(after.last() == (name@, value@));
            assert forall|k: Seq<char>| #[trigger] last_value(after, k) == (if k == name@ {
                Some(value@)
            } else {
                last_value(before, k)
            }) by {}
        }
        let mut i: usize = 0;
        while i < out.len() && text_before(out[i].0.as_str(), name.as_str())
            invariant
                i <= out.len(),
                old_map == pair_views(out@),
                forall|m: int| 0 <= m < i ==> text_lt(#[trigger] old_map[m].0, name@),
            decreases out.len() - i,
        {
            i = i + 1;
        }
        if i < out.len() && out[i].0 == name {
            let ghost at = i as int;
            out.set(i, (name, value));
            proof {
                let new_map = pair_views(out@);
                assert(new_map =~= old_map.update(at, (name@, value@)));
                assert forall|m: int| 0 <= m < new_map.len() && m != at implies #[trigger] new_map[m].0
                    != name@ by {
                    if m < at {
                        lemma_text_lt_irreflexive(name@);
                    } else {
                        assert(text_lt(old_map[at].0, old_map[m].0));
                        lemma_text_lt_irreflexive(name@);
                    }
                }
                assert forall|name2: Seq<char>| #[trigger] last_value(after, name2) is Some implies exists|
                    m: int,
                | 0 <= m < new_map.len() && #[trigger] new_map[m].0 == name2 by {
                    if name2 == name@ {
                        assert(new_map[at].0 == name2);
                    } else {
                        assert(last_value(before, name2) is Some);
                        let m = choose|m: int| 0 <= m < old_map.len() && #[trigger] old_map[m].0 == name2;
                        assert(new_map[m].0 == name2);
                    }
                }
            }
        } else {
            let ghost at = i as int;
            proof {
                if at < old_map.len() {
                    assert(!text_lt(old_map[at].0, name@));
                    assert(old_map[at].0 != name@);
                    lemma_text_lt_total(old_map[at].0, name@);
                }
            }
            out.insert(i, (name, value));
            proof {
                let new_map = pair_views(out@);
                assert(new_map =~= old_map.insert(at, (name@, value@)));
                assert forall|m: int| at <= m < old_map.len() implies text_lt(
                    name@,
                    #[trigger] old_map[m].0,
                ) by {
                    if m > at {
                        lemma_text_lt_transitive(name@, old_map[at].0, old_map[m].0);
                    }
                }
                assert forall|a: int, b: int| 0 <= a < b < new_map.len() implies text_lt(
                    #[trigger] new_map[a].0,
                    #[trigger] new_map[b].0,
                ) by {
                    if a < at && b == at {
                    } else if a < at && b > at {
                        assert(text_lt(old_map[a].0, name@));
                        lemma_text_lt_transitive(old_map[a].0, name@, old_map[b - 1].0);
                    } else if a == at {
                    } else if a < at {
                    } else {
                        assert(text_lt(old_map[a - 1].0, old_map[b - 1].0));
                    }
                }
                assert forall|m: int| 0 <= m < new_map.len() && m != at implies #[trigger] new_map[m].0
                    != name@ by {
                    if m < at {
                        lemma_text_lt_irreflexive(name@);
                    } else {
                        assert(text_lt(name@, old_map[m - 1].0));
                        lemma_text_lt_irreflexive(name@);
                    }
                }
                assert forall|name2: Seq<char>| #[trigger] last_value(after, name2) is Some implies exists|
                    m: int,
                | 0 <= m < new_map.len() && #[trigger] new_map[m].0 == name2 by {
                    if name2 == name@ {
                        assert(new_map[at].0 == name2);
                    } else {
                        assert(last_value(before, name2) is Some);
                        let m = choose|m: int| 0 <= m < old_map.len() && #[trigger] old_map[m].0 == name2;
                        if m < at {
                            assert(new_map[m].0 == name2);
                        } else {
                            assert(new_map[m + 1].0 == name2);
                        }
                    }
                }
            }
        }
        j = j + 1;
    }
    assert(all.take(pairs.len() as int) =~= all);
    out
}

} // verus!
