//! The subscriber registry: a sequence of chats in which no identity occurs
//! twice, and the merge that keeps it so.
//!
//! The model of a registry is the sequence of its records' views. Read as a
//! set it is the map from identity to record, [`as_map`].

use vstd::prelude::*;
use crate::chat::{Chat, ChatView};

verus! {

/// The records of a vector of chats, as their views.
pub open spec fn entries(records: Seq<Chat>) -> Seq<ChatView> {
    records.map_values(|c: Chat| c@)
}

/// No identity occurs twice.
pub open spec fn unique_ids(s: Seq<ChatView>) -> bool {
    forall|i: int, j: int| 0 <= i < j < s.len() ==> s[i].id != s[j].id
}

/// Some record of `s` has the identity `id`.
pub open spec fn knows(s: Seq<ChatView>, id: int) -> bool {
    exists|i: int| 0 <= i < s.len() && s[i].id == id
}

/// The index of the first record with the identity `id`, or `s.len()` where
/// there is none.
pub open spec fn position(s: Seq<ChatView>, id: int) -> int
    decreases s.len(),
{
    if s.len() == 0 || s[0].id == id {
        0
    } else {
        1 + position(s.drop_first(), id)
    }
}

/// The registry after one chat was observed: its record replaces the one of
/// the same identity, or joins at the end.
pub open spec fn absorb(s: Seq<ChatView>, c: ChatView) -> Seq<ChatView> {
    let at = position(s, c.id);
    if at < s.len() {
        s.update(at, c)
    } else {
        s.push(c)
    }
}

/// The registry after the chats of `seen` were observed one after the other.
pub open spec fn absorb_all(s: Seq<ChatView>, seen: Seq<ChatView>) -> Seq<ChatView>
    decreases seen.len(),
{
    if seen.len() == 0 {
        s
    } else {
        absorb(absorb_all(s, seen.drop_last()), seen.last())
    }
}

/// One record for each identity of `s`: the last one, at the place where the
/// identity first occurred.
pub open spec fn dedup(s: Seq<ChatView>) -> Seq<ChatView> {
    absorb_all(Seq::empty(), s)
}

/// The records by identity, a later record taking the place of an earlier one.
pub open spec fn as_map(s: Seq<ChatView>) -> Map<int, ChatView>
    decreases s.len(),
{
    if s.len() == 0 {
        Map::empty()
    } else {
        as_map(s.drop_last()).insert(s.last().id, s.last())
    }
}

/// `position` is the least index that holds `id`.
pub proof fn lemma_position(s: Seq<ChatView>, id: int)
    ensures
        0 <= position(s, id) <= s.len(),
        forall|j: int| 0 <= j < position(s, id) ==> s[j].id != id,
        position(s, id) < s.len() ==> s[position(s, id)].id == id,
        position(s, id) < s.len() <==> knows(s, id),
    decreases s.len(),
{
    if s.len() == 0 || s[0].id == id {
    } else {
        let t = s.drop_first();
        lemma_position(t, id);
        let p = position(t, id);
        assert forall|j: int| 0 <= j < p + 1 implies s[j].id != id by {
            if j > 0 {
                assert(s[j] == t[j - 1]);
            }
        }
        if p < t.len() {
            assert(s[p + 1] == t[p]);
        }
        if knows(s, id) {
            let k = choose|k: int| 0 <= k < s.len() && s[k].id == id;
            assert(t[k - 1] == s[k]);
        }
    }
}

/// An index that holds `id`, with none before it that does, is `position`.
pub proof fn lemma_position_is(s: Seq<ChatView>, id: int, at: int)
    requires
        0 <= at <= s.len(),
        forall|j: int| 0 <= j < at ==> s[j].id != id,
        at < s.len() ==> s[at].id == id,
    ensures
        position(s, id) == at,
{
    lemma_position(s, id);
}

/// Observing a chat keeps the identities apart.
pub proof fn lemma_absorb_unique(s: Seq<ChatView>, c: ChatView)
    requires
        unique_ids(s),
    ensures
        unique_ids(absorb(s, c)),
{
    lemma_position(s, c.id);
    let at = position(s, c.id);
    let t = absorb(s, c);
    assert forall|i: int, j: int| 0 <= i < j < t.len() implies t[i].id != t[j].id by {
        if at < s.len() {
            assert(t[i].id == s[i].id);
            assert(t[j].id == s[j].id);
        } else if j < s.len() {
            assert(t[i] == s[i] && t[j] == s[j]);
        } else {
            assert(t[i] == s[i]);
        }
    }
}

/// After a chat was observed the registry knows it, and whatever it knew before.
pub proof fn lemma_absorb_knows(s: Seq<ChatView>, c: ChatView, id: int)
    ensures
        knows(absorb(s, c), id) <==> knows(s, id) || id == c.id,
{
    lemma_position(s, c.id);
    let at = position(s, c.id);
    let t = absorb(s, c);
    if knows(s, id) {
        let k = choose|k: int| 0 <= k < s.len() && s[k].id == id;
        assert(t[k].id == id);
    }
    if id == c.id {
        assert(t[at].id == id);
    }
    if knows(t, id) && id != c.id {
        let k = choose|k: int| 0 <= k < t.len() && t[k].id == id;
        assert(s[k].id == id);
    }
}

/// The identities under which `as_map` holds a record are those that occur.
pub proof fn lemma_as_map_knows(s: Seq<ChatView>, id: int)
    ensures
        as_map(s).dom().contains(id) <==> knows(s, id),
    decreases s.len(),
{
    if s.len() > 0 {
        let t = s.drop_last();
        lemma_as_map_knows(t, id);
        if id == s.last().id {
            assert(s[s.len() - 1].id == id);
        } else {
            if knows(t, id) {
                let k = choose|k: int| 0 <= k < t.len() && t[k].id == id;
                assert(s[k].id == id);
            }
            if knows(s, id) {
                let k = choose|k: int| 0 <= k < s.len() && s[k].id == id;
                assert(t[k].id == id);
            }
        }
    }
}

/// In a registry every record is found under its own identity.
pub proof fn lemma_as_map_unique(s: Seq<ChatView>, i: int)
    requires
        unique_ids(s),
        0 <= i < s.len(),
    ensures
        as_map(s).contains_pair(s[i].id, s[i]),
    decreases s.len(),
{
    let t = s.drop_last();
    if i < t.len() {
        assert forall|a: int, b: int| 0 <= a < b < t.len() implies t[a].id != t[b].id by {
            assert(t[a] == s[a] && t[b] == s[b]);
        }
        assert(t[i] == s[i]);
        lemma_as_map_unique(t, i);
        assert(s[i].id != s[s.len() - 1].id);
    }
}

/// Read as a set, observing a chat is inserting its record under its identity.
pub proof fn lemma_absorb_as_map(s: Seq<ChatView>, c: ChatView)
    requires
        unique_ids(s),
    ensures
        as_map(absorb(s, c)) == as_map(s).insert(c.id, c),
{
    let t = absorb(s, c);
    let at = position(s, c.id);
    lemma_position(s, c.id);
    if at < s.len() {
        lemma_absorb_unique(s, c);
        let m = as_map(s).insert(c.id, c);
        assert forall|id: int| as_map(t).dom().contains(id) <==> m.dom().contains(id) by {
            lemma_absorb_knows(s, c, id);
            lemma_as_map_knows(s, id);
            lemma_as_map_knows(t, id);
        }
        assert forall|id: int| as_map(t).dom().contains(id) implies as_map(t)[id] == m[id] by {
            lemma_as_map_knows(t, id);
            let k = choose|k: int| 0 <= k < t.len() && t[k].id == id;
            lemma_as_map_unique(t, k);
            if k != at {
                assert(t[k] == s[k]);
                lemma_as_map_unique(s, k);
            }
        }
        assert(as_map(t) =~= m);
    } else {
        assert(t.drop_last() == s);
    }
}

/// Observing the same chat a second time changes nothing.
pub proof fn lemma_absorb_idempotent(s: Seq<ChatView>, c: ChatView)
    ensures
        absorb(absorb(s, c), c) == absorb(s, c),
{
    lemma_position(s, c.id);
    let at = position(s, c.id);
    let t = absorb(s, c);
    lemma_position_is(t, c.id, at);
    assert(t.update(at, c) =~= t);
}

/// Observing keeps the identities apart, however many chats are observed.
pub proof fn lemma_absorb_all_unique(s: Seq<ChatView>, seen: Seq<ChatView>)
    requires
        unique_ids(s),
    ensures
        unique_ids(absorb_all(s, seen)),
    decreases seen.len(),
{
    if seen.len() > 0 {
        lemma_absorb_all_unique(s, seen.drop_last());
        lemma_absorb_unique(absorb_all(s, seen.drop_last()), seen.last());
    }
}

/// Observing two runs of chats in turn is observing their concatenation.
pub proof fn lemma_absorb_all_concat(s: Seq<ChatView>, a: Seq<ChatView>, b: Seq<ChatView>)
    ensures
        absorb_all(absorb_all(s, a), b) == absorb_all(s, a + b),
    decreases b.len(),
{
    if b.len() == 0 {
        assert(a + b == a);
    } else {
        lemma_absorb_all_concat(s, a, b.drop_last());
        assert((a + b).drop_last() == a + b.drop_last());
        assert((a + b).last() == b.last());
    }
}

/// The records by identity of a concatenation: those of the second part are
/// inserted over those of the first.
pub proof fn lemma_as_map_concat(a: Seq<ChatView>, b: Seq<ChatView>)
    ensures
        as_map(a + b) == if b.len() == 0 {
            as_map(a)
        } else {
            as_map(a + b.drop_last()).insert(b.last().id, b.last())
        },
{
    if b.len() == 0 {
        assert(a + b == a);
    } else {
        assert((a + b).drop_last() == a + b.drop_last());
        assert((a + b).last() == b.last());
    }
}

/// Read as a set, a registry that observed `seen` holds for each identity
/// the last record that it was given.
pub proof fn lemma_absorb_all_as_map(s: Seq<ChatView>, seen: Seq<ChatView>)
    requires
        unique_ids(s),
    ensures
        as_map(absorb_all(s, seen)) == as_map(s + seen),
    decreases seen.len(),
{
    lemma_as_map_concat(s, seen);
    if seen.len() > 0 {
        lemma_absorb_all_as_map(s, seen.drop_last());
        lemma_absorb_all_unique(s, seen.drop_last());
        lemma_absorb_as_map(absorb_all(s, seen.drop_last()), seen.last());
    }
}

/// What `dedup` promises: identities apart, and for each identity its last record.
pub proof fn lemma_dedup(s: Seq<ChatView>)
    ensures
        unique_ids(dedup(s)),
        as_map(dedup(s)) == as_map(s),
        forall|id: int| knows(dedup(s), id) <==> knows(s, id),
{
    let e = Seq::<ChatView>::empty();
    lemma_absorb_all_unique(e, s);
    lemma_absorb_all_as_map(e, s);
    assert(e + s == s);
    assert forall|id: int| knows(dedup(s), id) <==> knows(s, id) by {
        lemma_as_map_knows(dedup(s), id);
        lemma_as_map_knows(s, id);
    }
}

/// A run of chats whose identities differ from each other and from those of
/// the registry joins it as it is.
pub proof fn lemma_absorb_all_fresh(s: Seq<ChatView>, seen: Seq<ChatView>)
    requires
        unique_ids(s + seen),
    ensures
        absorb_all(s, seen) == s + seen,
    decreases seen.len(),
{
    if seen.len() == 0 {
        assert(s + seen == s);
    } else {
        let whole = s + seen;
        let front = s + seen.drop_last();
        assert(front == whole.drop_last());
        assert forall|i: int, j: int| 0 <= i < j < front.len() implies front[i].id != front[j].id by {
            assert(front[i] == whole[i] && front[j] == whole[j]);
        }
        lemma_absorb_all_fresh(s, seen.drop_last());
        assert forall|j: int| 0 <= j < front.len() implies front[j].id != seen.last().id by {
            assert(front[j] == whole[j]);
            assert(whole[whole.len() - 1] == seen.last());
        }
        lemma_position_is(front, seen.last().id, front.len() as int);
        assert(front.push(seen.last()) == whole);
    }
}

/// A registry is its own `dedup`.
pub proof fn lemma_dedup_unique(s: Seq<ChatView>)
    requires
        unique_ids(s),
    ensures
        dedup(s) == s,
{
    assert(Seq::<ChatView>::empty() + s == s);
    lemma_absorb_all_fresh(Seq::empty(), s);
}

/// A registry that observed `seen` knows what it knew and what it saw.
pub proof fn lemma_absorb_all_knows(s: Seq<ChatView>, seen: Seq<ChatView>, id: int)
    ensures
        knows(absorb_all(s, seen), id) <==> knows(s, id) || knows(seen, id),
    decreases seen.len(),
{
    if seen.len() > 0 {
        let front = seen.drop_last();
        lemma_absorb_all_knows(s, front, id);
        lemma_absorb_knows(absorb_all(s, front), seen.last(), id);
        if knows(front, id) {
            let k = choose|k: int| 0 <= k < front.len() && front[k].id == id;
            assert(seen[k].id == id);
        }
        if knows(seen, id) && id != seen.last().id {
            let k = choose|k: int| 0 <= k < seen.len() && seen[k].id == id;
            assert(front[k].id == id);
        }
        if id == seen.last().id {
            assert(seen[seen.len() - 1].id == id);
        }
    }
}

/// Observing a chat that the registry knows moves no record: the length
/// and the identity at each place stay.
pub proof fn lemma_absorb_known(s: Seq<ChatView>, c: ChatView)
    requires
        knows(s, c.id),
    ensures
        absorb(s, c) == s.update(position(s, c.id), c),
        absorb(s, c).len() == s.len(),
        forall|i: int| 0 <= i < s.len() ==> (#[trigger] absorb(s, c)[i]).id == s[i].id,
{
    lemma_position(s, c.id);
}

/// The records by identity of a concatenation, looked up: the second part
/// decides wherever it knows the identity.
pub proof fn lemma_as_map_concat_at(a: Seq<ChatView>, b: Seq<ChatView>, id: int)
    requires
        knows(a + b, id),
    ensures
        as_map(a + b)[id] == if knows(b, id) {
            as_map(b)[id]
        } else {
            as_map(a)[id]
        },
    decreases b.len(),
{
    lemma_as_map_concat(a, b);
    if b.len() > 0 {
        let front = b.drop_last();
        if id != b.last().id {
            if knows(b, id) {
                let k = choose|k: int| 0 <= k < b.len() && b[k].id == id;
                assert(front[k].id == id);
            }
            if knows(front, id) {
                let k = choose|k: int| 0 <= k < front.len() && front[k].id == id;
                assert(b[k].id == id);
            }
            let k = choose|k: int| 0 <= k < (a + b).len() && (a + b)[k].id == id;
            assert((a + front)[k].id == id);
            lemma_as_map_concat_at(a, front, id);
        } else {
            assert(b[b.len() - 1].id == id);
        }
    }
}

/// Observing again what the registry holds the last record of changes nothing.
proof fn lemma_absorb_all_again(d: Seq<ChatView>, seen: Seq<ChatView>, n: int)
    requires
        unique_ids(d),
        0 <= n <= seen.len(),
        forall|j: int| 0 <= j < seen.len() ==> knows(d, #[trigger] seen[j].id),
    ensures
        absorb_all(d, seen.take(n)).len() == d.len(),
        forall|i: int|
            0 <= i < d.len() ==> #[trigger] absorb_all(d, seen.take(n))[i] == if knows(
                seen.take(n),
                d[i].id,
            ) {
                as_map(seen.take(n))[d[i].id]
            } else {
                d[i]
            },
    decreases n,
{
    let now = seen.take(n);
    if n > 0 {
        let before = seen.take(n - 1);
        let c = seen[n - 1];
        assert(now.drop_last() == before);
        assert(now.last() == c);
        lemma_absorb_all_again(d, seen, n - 1);
        let s = absorb_all(d, before);
        assert forall|i: int| 0 <= i < d.len() implies (#[trigger] s[i]).id == d[i].id by {
            if knows(before, d[i].id) {
                lemma_as_map_holds(before, d[i].id);
            }
        }
        assert(unique_ids(s));
        assert(knows(d, seen[n - 1].id));
        let at = choose|k: int| 0 <= k < d.len() && d[k].id == c.id;
        assert(s[at].id == c.id);
        lemma_absorb_known(s, c);
        lemma_position_is(s, c.id, at);
        let t = absorb_all(d, now);
        assert(t == s.update(at, c));
        assert forall|i: int| 0 <= i < d.len() implies #[trigger] t[i] == if knows(now, d[i].id) {
            as_map(now)[d[i].id]
        } else {
            d[i]
        } by {
            if i == at {
                assert(now[n - 1].id == d[i].id);
            } else {
                assert(d[i].id != c.id);
                if knows(before, d[i].id) {
                    let k = choose|k: int| 0 <= k < before.len() && before[k].id == d[i].id;
                    assert(now[k].id == d[i].id);
                }
                if knows(now, d[i].id) {
                    let k = choose|k: int| 0 <= k < now.len() && now[k].id == d[i].id;
                    assert(before[k].id == d[i].id);
                }
            }
        }
    } else {
        assert forall|i: int| 0 <= i < d.len() implies !knows(now, d[i].id) by {}
    }
}

/// Under an identity that occurs, `as_map` holds a record of that identity.
pub proof fn lemma_as_map_holds(s: Seq<ChatView>, id: int)
    requires
        knows(s, id),
    ensures
        as_map(s).dom().contains(id),
        as_map(s)[id].id == id,
    decreases s.len(),
{
    lemma_as_map_knows(s, id);
    if s.len() > 0 && id != s.last().id {
        let k = choose|k: int| 0 <= k < s.len() && s[k].id == id;
        assert(s.drop_last()[k].id == id);
        lemma_as_map_holds(s.drop_last(), id);
    }
}

/// Merging the same observations a second time changes nothing.
pub proof fn lemma_merge_idempotent(stored: Seq<ChatView>, seen: Seq<ChatView>)
    ensures
        dedup(dedup(stored + seen) + seen) == dedup(stored + seen),
{
    let d = dedup(stored + seen);
    lemma_dedup(stored + seen);
    lemma_dedup_unique(d);
    lemma_absorb_all_concat(Seq::empty(), d, seen);
    assert forall|j: int| 0 <= j < seen.len() implies knows(d, #[trigger] seen[j].id) by {
        assert((stored + seen)[stored.len() + j].id == seen[j].id);
        assert(knows(stored + seen, seen[j].id));
    }
    lemma_absorb_all_again(d, seen, seen.len() as int);
    assert(seen.take(seen.len() as int) == seen);
    let again = absorb_all(d, seen);
    assert forall|i: int| 0 <= i < d.len() implies again[i] == d[i] by {
        if knows(seen, d[i].id) {
            lemma_as_map_unique(d, i);
            assert(knows(stored + seen, d[i].id));
            lemma_as_map_concat_at(stored, seen, d[i].id);
        }
    }
    assert(again =~= d);
}

/// Merging loses no chat and invents none: the merged registry knows an
/// identity exactly if the stored one or an observation has it.
pub proof fn lemma_merge_knows(stored: Seq<ChatView>, seen: Seq<ChatView>, id: int)
    ensures
        knows(dedup(stored + seen), id) <==> knows(stored, id) || knows(seen, id),
{
    lemma_absorb_all_concat(Seq::empty(), stored, seen);
    lemma_absorb_all_knows(dedup(stored), seen, id);
    lemma_dedup(stored);
}

/// Where the chat `id` stands among `records`: the index of its first record,
/// or the length where there is none.
pub fn find(records: &Vec<Chat>, id: i64) -> (at: usize)
    ensures
        at == position(entries(records@), id as int),
{
    let mut at: usize = 0;
    while at < records.len() && records[at].id != id
        invariant
            at <= records.len(),
            forall|j: int| 0 <= j < at ==> entries(records@)[j].id != id,
        decreases records.len() - at,
    {
        at += 1;
    }
    proof {
        lemma_position_is(entries(records@), id as int, at as int);
    }
    at
}

/// Takes one observed chat into the registry.
pub fn observe(records: &mut Vec<Chat>, chat: Chat)
    ensures
        entries(final(records)@) == absorb(entries(old(records)@), chat@),
{
    let at = find(records, chat.id);
    if at < records.len() {
        records[at] = chat;
    } else {
        records.push(chat);
    }
    assert(entries(records@) =~= absorb(entries(old(records)@), chat@));
}

/// Takes a run of observed chats into the registry, in their order.
pub fn observe_all(records: &mut Vec<Chat>, seen: Vec<Chat>)
    ensures
        entries(final(records)@) == absorb_all(entries(old(records)@), entries(seen@)),
{
    let ghost all = seen@;
    for chat in it: seen
        invariant
            it.seq() == all,
            entries(records@) == absorb_all(entries(old(records)@), entries(all.take(it.index()))),
    {
        assert(entries(all.take(it.index() + 1)).drop_last() == entries(all.take(it.index())));
        observe(records, chat);
    }
    assert(all.take(all.len() as int) == all);
}

/// The registry that follows from the stored one and the chats observed
/// since: one record for each identity, the last one that was given.
pub fn merge(registry: Vec<Chat>, observed: Vec<Chat>) -> (merged: Vec<Chat>)
    ensures
        entries(merged@) == dedup(entries(registry@) + entries(observed@)),
        unique_ids(entries(merged@)),
        as_map(entries(merged@)) == as_map(entries(registry@) + entries(observed@)),
{
    let mut merged: Vec<Chat> = Vec::new();
    let ghost stored = entries(registry@);
    let ghost seen = entries(observed@);
    observe_all(&mut merged, registry);
    observe_all(&mut merged, observed);
    proof {
        assert(entries(Seq::<Chat>::empty()) == Seq::<ChatView>::empty());
        lemma_absorb_all_concat(Seq::empty(), stored, seen);
        lemma_dedup(stored + seen);
    }
    merged
}

} // verus!
