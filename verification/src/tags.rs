//! The set of tags seen in the catalogue, kept in the order of first sight.

use vstd::prelude::*;
use vstd::seq_lib::{to_multiset_build, to_multiset_remove};
use crate::data::SteamWorkshopMod;
use crate::text::chars_of;

verus! {

/// The tags as character sequences, in order.
pub open spec fn tag_names(tags: Seq<String>) -> Seq<Seq<char>> {
    tags.map_values(|t: String| t@)
}

/// `known` with `tag` added at the end unless it is already there.
pub open spec fn with_tag(known: Seq<Seq<char>>, tag: Seq<char>) -> Seq<Seq<char>> {
    if known.contains(tag) {
        known
    } else {
        known.push(tag)
    }
}

/// `known` after adding each of `tags` in turn.
pub open spec fn with_tags(known: Seq<Seq<char>>, tags: Seq<Seq<char>>) -> Seq<Seq<char>>
    decreases tags.len(),
{
    if tags.len() == 0 {
        known
    } else {
        with_tag(with_tags(known, tags.drop_last()), tags.last())
    }
}

/// `known` after adding the tags of each catalogue entry in turn.
pub open spec fn with_catalogue_tags(
    known: Seq<Seq<char>>,
    mods: Seq<SteamWorkshopMod>,
) -> Seq<Seq<char>>
    decreases mods.len(),
{
    if mods.len() == 0 {
        known
    } else {
        with_tags(with_catalogue_tags(known, mods.drop_last()), tag_names(mods.last().tags@))
    }
}

/// Whether `tag` is among `tags`.
pub fn contains_tag(tags: &Vec<String>, tag: &String) -> (found: bool)
    ensures
        found == tag_names(tags@).contains(tag@),
{
    let mut i: usize = 0;
    while i < tags.len()
        invariant
            i <= tags.len(),
            forall|j: int| 0 <= j < i ==> (#[trigger] tag_names(tags@)[j]) != tag@,
        decreases tags.len() - i,
    {
        if tags[i] == *tag {
            assert(tag_names(tags@)[i as int] == tag@);
            return true;
        }
        i += 1;
    }
    false
}

/// Adds `tag` to `tags` unless it is already there.
pub fn insert_tag(tags: &mut Vec<String>, tag: &String)
    ensures
        tag_names(final(tags)@) == with_tag(tag_names(old(tags)@), tag@),
{
    if !contains_tag(tags, tag) {
        tags.push(tag.clone());
        assert(tag_names(tags@) =~= tag_names(old(tags)@).push(tag@));
    }
}

/// Adds every tag of every entry of `mods` to `tags`.
pub fn collect_tags(tags: &mut Vec<String>, mods: &Vec<SteamWorkshopMod>)
    ensures
        tag_names(final(tags)@) == with_catalogue_tags(tag_names(old(tags)@), mods@),
{
    let mut i: usize = 0;
    while i < mods.len()
        invariant
            i <= mods.len(),
            tag_names(tags@) == with_catalogue_tags(tag_names(old(tags)@), mods@.take(i as int)),
        decreases mods.len() - i,
    {
        let entry = &mods[i];
        let ghost start = tag_names(tags@);
        let ghost names = tag_names(entry.tags@);
        let mut k: usize = 0;
        while k < entry.tags.len()
            invariant
                k <= entry.tags.len(),
                names == tag_names(entry.tags@),
                tag_names(tags@) == with_tags(start, names.take(k as int)),
            decreases entry.tags.len() - k,
        {
            insert_tag(tags, &entry.tags[k]);
            proof {
                assert(names.take(k + 1).drop_last() == names.take(k as int));
                assert(names.take(k + 1).last() == entry.tags@[k as int]@);
            }
            k += 1;
        }
        proof {
            assert(names.take(names.len() as int) == names);
            assert(mods@.take(i + 1).drop_last() == mods@.take(i as int));
        }
        i += 1;
    }
    proof {
        assert(mods@.take(mods@.len() as int) == mods@);
    }
}

/// What adding one tag does: the known tags stay in front, the tag is among
/// the result, nothing else is, and no repeat appears.
pub proof fn lemma_with_tag(known: Seq<Seq<char>>, tag: Seq<char>)
    ensures
        known.is_prefix_of(with_tag(known, tag)),
        with_tag(known, tag).contains(tag),
        forall|t: Seq<char>| with_tag(known, tag).contains(t) <==> known.contains(t) || t == tag,
        known.no_duplicates() ==> with_tag(known, tag).no_duplicates(),
{
    let result = with_tag(known, tag);
    if known.contains(tag) {
    } else {
        assert(result[known.len() as int] == tag);
        assert forall|t: Seq<char>| result.contains(t) implies known.contains(t) || t == tag by {
            let k = choose|k: int| 0 <= k < result.len() && result[k] == t;
            if k < known.len() {
                assert(known[k] == t);
            }
        }
        assert forall|t: Seq<char>| known.contains(t) implies result.contains(t) by {
            let k = choose|k: int| 0 <= k < known.len() && known[k] == t;
            assert(result[k] == t);
        }
    }
}

/// What adding a run of tags does: the known tags stay in front, exactly the
/// known and the added tags are in the result, and no repeat appears.
pub proof fn lemma_with_tags(known: Seq<Seq<char>>, tags: Seq<Seq<char>>)
    ensures
        known.is_prefix_of(with_tags(known, tags)),
        forall|t: Seq<char>| with_tags(known, tags).contains(t) <==> known.contains(t) || tags.contains(t),
        known.no_duplicates() ==> with_tags(known, tags).no_duplicates(),
    decreases tags.len(),
{
    if tags.len() > 0 {
        let before = with_tags(known, tags.drop_last());
        lemma_with_tags(known, tags.drop_last());
        lemma_with_tag(before, tags.last());
        assert forall|t: Seq<char>| tags.contains(t) <==> tags.drop_last().contains(t) || t
            == tags.last() by {
            if tags.contains(t) {
                let k = choose|k: int| 0 <= k < tags.len() && tags[k] == t;
                if k < tags.len() - 1 {
                    assert(tags.drop_last()[k] == t);
                }
            }
            if tags.drop_last().contains(t) {
                let k = choose|k: int| 0 <= k < tags.drop_last().len() && tags.drop_last()[k] == t;
                assert(tags[k] == t);
            }
            if t == tags.last() {
                assert(tags[tags.len() - 1] == t);
            }
        }
    }
}

/// Some entry of `mods` carries the tag `t`.
pub open spec fn carries_tag(mods: Seq<SteamWorkshopMod>, t: Seq<char>) -> bool {
    exists|m: int| 0 <= m < mods.len() && tag_names((#[trigger] mods[m]).tags@).contains(t)
}

/// What collecting the tags of a catalogue does: the tags known before stay
/// in front in their order, the result holds exactly those and the tags that
/// some entry carries, and no tag is held twice.
pub proof fn lemma_with_catalogue_tags(known: Seq<Seq<char>>, mods: Seq<SteamWorkshopMod>)
    ensures
        known.is_prefix_of(with_catalogue_tags(known, mods)),
        forall|t: Seq<char>|
            with_catalogue_tags(known, mods).contains(t) <==> known.contains(t) || carries_tag(
                mods,
                t,
            ),
        known.no_duplicates() ==> with_catalogue_tags(known, mods).no_duplicates(),
    decreases mods.len(),
{
    if mods.len() > 0 {
        let before = with_catalogue_tags(known, mods.drop_last());
        let last = tag_names(mods.last().tags@);
        lemma_with_catalogue_tags(known, mods.drop_last());
        lemma_with_tags(before, last);
        assert forall|t: Seq<char>| carries_tag(mods, t) <==> carries_tag(mods.drop_last(), t)
            || last.contains(t) by {
            if carries_tag(mods, t) {
                let m = choose|m: int|
                    0 <= m < mods.len() && tag_names((#[trigger] mods[m]).tags@).contains(t);
                if m < mods.len() - 1 {
                    assert(mods.drop_last()[m] == mods[m]);
                }
            }
            if carries_tag(mods.drop_last(), t) {
                let m = choose|m: int|
                    0 <= m < mods.drop_last().len() && tag_names(
                        (#[trigger] mods.drop_last()[m]).tags@,
                    ).contains(t);
                assert(mods[m] == mods.drop_last()[m]);
            }
            if last.contains(t) {
                assert(mods[mods.len() - 1] == mods.last());
            }
        }
    }
}

/// `a` comes before `b` in a dictionary or equals it: texts are compared
/// character by character, by code point, and a text comes before every
/// longer text that begins with it.
pub open spec fn text_le(a: Seq<char>, b: Seq<char>) -> bool
    decreases a.len(),
{
    if a.len() == 0 {
        true
    } else if b.len() == 0 {
        false
    } else if a[0] != b[0] {
        a[0] < b[0]
    } else {
        text_le(a.drop_first(), b.drop_first())
    }
}

/// Of two texts, one comes before the other or equals it.
pub proof fn lemma_text_le_total(a: Seq<char>, b: Seq<char>)
    ensures
        text_le(a, b) || text_le(b, a),
    decreases a.len(),
{
    if a.len() > 0 && b.len() > 0 && a[0] == b[0] {
        lemma_text_le_total(a.drop_first(), b.drop_first());
    }
}

/// What comes before a text comes before everything that text comes before.
pub proof fn lemma_text_le_transitive(a: Seq<char>, b: Seq<char>, c: Seq<char>)
    requires
        text_le(a, b),
        text_le(b, c),
    ensures
        text_le(a, c),
    decreases a.len(),
{
    if a.len() > 0 && b.len() > 0 && c.len() > 0 && a[0] == b[0] && b[0] == c[0] {
        lemma_text_le_transitive(a.drop_first(), b.drop_first(), c.drop_first());
    }
}

/// Two texts that each come before the other are the same text.
pub proof fn lemma_text_le_antisymmetric(a: Seq<char>, b: Seq<char>)
    requires
        text_le(a, b),
        text_le(b, a),
    ensures
        a == b,
    decreases a.len(),
{
    if a.len() > 0 && b.len() > 0 {
        lemma_text_le_antisymmetric(a.drop_first(), b.drop_first());
        assert(a == seq![a[0]] + a.drop_first());
        assert(b == seq![b[0]] + b.drop_first());
    } else {
        assert(a =~= b);
    }
}

/// Whether `a` comes before `b` in a dictionary or equals it.
pub fn text_precedes(a: &str, b: &str) -> (r: bool)
    ensures
        r == text_le(a@, b@),
{
    let left = chars_of(a);
    let right = chars_of(b);
    let mut k: usize = 0;
    assert(left@.skip(0) == left@ && right@.skip(0) == right@);
    loop
        invariant
            k <= left.len(),
            k <= right.len(),
            left@ == a@,
            right@ == b@,
            text_le(a@, b@) == text_le(left@.skip(k as int), right@.skip(k as int)),
        decreases left.len() - k,
    {
        if k == left.len() {
            return true;
        }
        if k == right.len() {
            return false;
        }
        if left[k] != right[k] {
            return left[k] < right[k];
        }
        assert(left@.skip(k as int).drop_first() == left@.skip(k + 1));
        assert(right@.skip(k as int).drop_first() == right@.skip(k + 1));
        k += 1;
    }
}

/// The names never fall along `names`, in dictionary order.
pub open spec fn in_dictionary_order(names: Seq<Seq<char>>) -> bool {
    forall|i: int, j: int| 0 <= i <= j < names.len() ==> text_le(names[i], names[j])
}

/// Position of a tag that comes before every other, or equals it.
fn first_in_dictionary(tags: &Vec<String>) -> (at: usize)
    requires
        tags.len() > 0,
    ensures
        at < tags.len(),
        forall|j: int| 0 <= j < tags.len() ==> text_le(tags@[at as int]@, (#[trigger] tags@[j])@),
{
    let mut at: usize = 0;
    let mut i: usize = 1;
    proof {
        lemma_text_le_total(tags@[0]@, tags@[0]@);
    }
    while i < tags.len()
        invariant
            1 <= i <= tags.len(),
            at < i,
            forall|j: int| 0 <= j < i ==> text_le(tags@[at as int]@, (#[trigger] tags@[j])@),
        decreases tags.len() - i,
    {
        if !text_precedes(tags[at].as_str(), tags[i].as_str()) {
            proof {
                lemma_text_le_total(tags@[at as int]@, tags@[i as int]@);
                lemma_text_le_total(tags@[i as int]@, tags@[i as int]@);
                assert forall|j: int| 0 <= j < i + 1 implies text_le(
                    tags@[i as int]@,
                    (#[trigger] tags@[j])@,
                ) by {
                    if j < i {
                        lemma_text_le_transitive(tags@[i as int]@, tags@[at as int]@, tags@[j]@);
                    }
                }
            }
            at = i;
        }
        i += 1;
    }
    at
}

/// The tags in dictionary order. The result holds each of `tags` as often as
/// `tags` does.
pub fn sorted_tags(tags: &Vec<String>) -> (sorted: Vec<String>)
    ensures
        in_dictionary_order(tag_names(sorted@)),
        tag_names(sorted@).to_multiset() == tag_names(tags@).to_multiset(),
{
    broadcast use vstd::multiset::group_multiset_axioms;

    let mut rest: Vec<String> = Vec::new();
    let mut k: usize = 0;
    while k < tags.len()
        invariant
            k <= tags.len(),
            tag_names(rest@) == tag_names(tags@).take(k as int),
        decreases tags.len() - k,
    {
        rest.push(tags[k].clone());
        assert(tag_names(rest@) =~= tag_names(tags@).take(k as int).push(tags@[k as int]@));
        assert(tag_names(tags@).take(k + 1) =~= tag_names(tags@).take(k as int).push(
            tags@[k as int]@,
        ));
        k += 1;
    }
    assert(tag_names(tags@).take(tags@.len() as int) == tag_names(tags@));
    let mut sorted: Vec<String> = Vec::new();
    proof {
        tag_names(sorted@).to_multiset_ensures();
        assert(tag_names(sorted@).to_multiset().len() == 0);
        assert(tag_names(sorted@).to_multiset().add(tag_names(rest@).to_multiset()) =~= tag_names(
            tags@,
        ).to_multiset());
    }
    while rest.len() > 0
        invariant
            in_dictionary_order(tag_names(sorted@)),
            forall|a: int, b: int|
                0 <= a < sorted@.len() && 0 <= b < rest@.len() ==> text_le(
                    tag_names(sorted@)[a],
                    tag_names(rest@)[b],
                ),
            tag_names(sorted@).to_multiset().add(tag_names(rest@).to_multiset()) == tag_names(
                tags@,
            ).to_multiset(),
        decreases rest.len(),
    {
        let at = first_in_dictionary(&rest);
        let ghost rest_full = rest@;
        let ghost rest_before = tag_names(rest@);
        let ghost sorted_before = tag_names(sorted@);
        let next = rest.remove(at);
        sorted.push(next);
        proof {
            assert(tag_names(rest@) =~= rest_before.remove(at as int));
            assert(tag_names(sorted@) =~= sorted_before.push(next@));
            to_multiset_remove(rest_before, at as int);
            to_multiset_build(sorted_before, next@);
            assert(rest_before.to_multiset().count(next@) > 0) by {
                rest_before.to_multiset_ensures();
                assert(rest_before[at as int] == next@);
                assert(rest_before.contains(next@));
            }
            assert(tag_names(sorted@).to_multiset().add(tag_names(rest@).to_multiset())
                =~= sorted_before.to_multiset().add(rest_before.to_multiset()));
            lemma_text_le_total(next@, next@);
            assert forall|b: int| 0 <= b < rest@.len() implies text_le(
                next@,
                tag_names(rest@)[b],
            ) by {
                let b0 = if b < at { b } else { b + 1 };
                assert(tag_names(rest@)[b] == rest_full[b0]@);
                assert(text_le(rest_full[at as int]@, rest_full[b0]@));
            }
        }
    }
    proof {
        tag_names(rest@).to_multiset_ensures();
        assert(tag_names(rest@).to_multiset() =~= vstd::multiset::Multiset::empty());
        assert(tag_names(sorted@).to_multiset().add(tag_names(rest@).to_multiset()) =~= tag_names(
            sorted@,
        ).to_multiset());
    }
    sorted
}

} // verus!
