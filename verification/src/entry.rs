//! Anime on the user's "watching" list, as the program lists and sorts them.
use crate::paint::owo_cyan;
use crate::text::{decimal_text, text_precedes};
use crate::weekday::{weekday_from_tags, Weekday};
use vstd::prelude::*;

verus! {

/// An anime that the user is currently watching.
#[derive(Clone, Debug)]
pub struct Entry {
    pub title: String,
    pub id: usize,
    pub watched_episodes: usize,
    /// Zero when the number of episodes is not known.
    pub total_episodes: usize,
    /// The day it airs on, when its first tag names one.
    pub weekday: Option<Weekday>,
}

/// One anime of a page of the list, as the list API describes it.
pub struct ListNode {
    pub title: String,
    pub id: usize,
    pub num_episodes: usize,
    pub num_episodes_watched: usize,
    pub tags: Vec<String>,
}

/// The entry that a node of the list API describes.
pub open spec fn entry_of(n: ListNode) -> Entry {
    Entry {
        title: n.title,
        id: n.id,
        watched_episodes: n.num_episodes_watched,
        total_episodes: n.num_episodes,
        weekday: crate::weekday::tagged_weekday(n.tags@),
    }
}

/// How an entry is shown in a list: the watched count in cyan, in brackets,
/// then the title.
pub open spec fn entry_label(e: Entry) -> Seq<char> {
    seq!['['] + crate::paint::owo_foreground(crate::paint::cyan_code(), crate::text::decimal(e.watched_episodes as nat)) + seq![']', ' ']
        + e.title@
}

impl Entry {
    /// Makes the entry of an anime from its node in the list API: its
    /// title, id and episode counts, and the airing day its tags record.
    pub fn from_node(node: ListNode) -> (e: Entry)
        ensures
            e == entry_of(node),
            e.title == node.title,
            e.id == node.id,
            e.watched_episodes == node.num_episodes_watched,
            e.total_episodes == node.num_episodes,
            e.weekday == crate::weekday::tagged_weekday(node.tags@),
    {
        let weekday = weekday_from_tags(&node.tags);
        Entry {
            title: node.title,
            id: node.id,
            watched_episodes: node.num_episodes_watched,
            total_episodes: node.num_episodes,
            weekday,
        }
    }

    /// The text that shows the entry: "[" watched count in cyan "] " title.
    pub fn label(&self) -> (r: String)
        ensures
            r@ == entry_label(*self),
    {
        let count = decimal_text(self.watched_episodes);
        let mut r = String::from_str("[");
        r.append(owo_cyan(count.as_str()).as_str());
        r.append("] ");
        r.append(self.title.as_str());
        proof {
            reveal_strlit("[");
            reveal_strlit("] ");
        }
        r
    }
}

/// What to do after a page of the list was read.
pub enum PageRequest {
    /// Read the next page, at this address.
    FetchPage(String),
    /// The list is complete.
    Finished,
}

/// Adds the anime of one page of the list to the entries read so far, and
/// says whether another page follows: the page's link to the next one.
pub fn collect_page(entries: &mut Vec<Entry>, nodes: Vec<ListNode>, next: Option<String>) -> (r:
    PageRequest)
    ensures
        final(entries)@ == old(entries)@ + nodes@.map_values(|n: ListNode| entry_of(n)),
        match next {
            Some(url) => r matches PageRequest::FetchPage(u) && u == url,
            None => r is Finished,
        },
{
    let ghost start = entries@;
    let ghost all = nodes@;
    let mut rest = nodes;
    let ghost mut k: int = 0;
    assert(all.skip(0) =~= all);
    while rest.len() > 0
        invariant
            0 <= k <= all.len(),
            rest@ == all.skip(k),
            entries@ == start + all.take(k).map_values(|n: ListNode| entry_of(n)),
        decreases rest@.len(),
    {
        let node = rest.remove(0);
        assert(node == all[k]);
        assert(rest@ =~= all.skip(k + 1));
        entries.push(Entry::from_node(node));
        proof {
            assert(all.take(k + 1).map_values(|n: ListNode| entry_of(n)) =~= all.take(k).map_values(
                |n: ListNode| entry_of(n),
            ).push(entry_of(all[k])));
            k = k + 1;
        }
    }
    assert(all.take(k) =~= all);
    match next {
        Some(url) => PageRequest::FetchPage(url),
        None => PageRequest::Finished,
    }
}

/// Whether no later entry's title comes before an earlier one's.
pub open spec fn sorted_by_title(s: Seq<Entry>) -> bool {
    forall|i: int, j: int| 0 <= i < j < s.len() ==> !crate::text::text_less(#[trigger] s[j].title@, #[trigger] s[i].title@)
}

/// The entries that bear a given title, in their order.
pub open spec fn titled(s: Seq<Entry>, t: Seq<char>) -> Seq<Entry> {
    s.filter(has_title(t))
}

/// Whether an entry bears a given title.
pub open spec fn has_title(t: Seq<char>) -> spec_fn(Entry) -> bool {
    |e: Entry| e.title@ == t
}

/// Inserting an entry into a run of entries before all those whose title
/// differs from its own keeps, for each title, the entries of that title in
/// order, with the new one last among its own.
proof fn lemma_insert_titled(out: Seq<Entry>, p: int, e: Entry, t: Seq<char>)
    requires
        0 <= p <= out.len(),
        forall|j: int| p <= j < out.len() ==> out[j].title@ != e.title@,
    ensures
        titled(out.take(p) + seq![e] + out.skip(p), t) == titled(out, t) + titled(seq![e], t),
{
    let pred = has_title(t);
    let a = out.take(p);
    let b = out.skip(p);
    assert(out =~= a + b);
    Seq::filter_distributes_over_add(a, b, pred);
    Seq::filter_distributes_over_add(a + seq![e], b, pred);
    Seq::filter_distributes_over_add(a, seq![e], pred);
    reveal_with_fuel(Seq::filter, 2);
    if e.title@ == t {
        assert forall|j: int| 0 <= j < b.len() implies !pred(b[j]) by {
            assert(b[j] == out[p + j]);
        }
        b.lemma_all_neg_filter_empty(pred);
        assert(b.filter(pred) =~= Seq::<Entry>::empty());
    } else {
        assert(seq![e].filter(pred) =~= Seq::<Entry>::empty());
    }
    assert(titled(out.take(p) + seq![e] + out.skip(p), t) =~= titled(out, t) + titled(seq![e], t));
}

/// Sorts entries by title, keeping entries of equal title in their order
/// (what `sort_by` with `String::cmp` on the titles does): the result is
/// sorted, and for each title it holds the entries of that title in the order
/// they came in.
pub fn sort_by_title(entries: Vec<Entry>) -> (r: Vec<Entry>)
    ensures
        sorted_by_title(r@),
        forall|t: Seq<char>| #[trigger] titled(r@, t) == titled(entries@, t),
        r@.len() == entries@.len(),
{
    let ghost orig = entries@;
    let mut input = entries;
    let mut out: Vec<Entry> = Vec::new();
    let ghost mut k: int = 0;
    assert(orig.skip(0) =~= orig);
    while input.len() > 0
        invariant
            0 <= k <= orig.len(),
            input@ == orig.skip(k),
            sorted_by_title(out@),
            out@.len() == k,
            forall|t: Seq<char>| #[trigger] titled(out@, t) == titled(orig.take(k), t),
        decreases input@.len(),
    {
        let e = input.remove(0);
        assert(e == orig[k]);
        assert(input@ =~= orig.skip(k + 1));
        let mut p: usize = 0;
        while p < out.len()
            invariant
                0 <= p <= out@.len(),
                forall|j: int| 0 <= j < p ==> !crate::text::text_less(e.title@, #[trigger] out@[j].title@),
            ensures
                0 <= p <= out@.len(),
                forall|j: int| 0 <= j < p ==> !crate::text::text_less(e.title@, #[trigger] out@[j].title@),
                p < out@.len() ==> crate::text::text_less(e.title@, out@[p as int].title@),
            decreases out@.len() - p,
        {
            if text_precedes(e.title.as_str(), out[p].title.as_str()) {
                break;
            }
            p = p + 1;
        }
        let ghost old_out = out@;
        proof {
            if p < old_out.len() {
                assert(crate::text::text_less(e.title@, old_out[p as int].title@));
            }
            assert forall|j: int| p <= j < old_out.len() implies crate::text::text_less(
                e.title@,
                #[trigger] old_out[j].title@,
            ) by {
                if j > p {
                    assert(!crate::text::text_less(old_out[j].title@, old_out[p as int].title@));
                    crate::text::lemma_text_less_total(old_out[j].title@, old_out[p as int].title@);
                    if old_out[j].title@ != old_out[p as int].title@ {
                        crate::text::lemma_text_less_transitive(
                            e.title@,
                            old_out[p as int].title@,
                            old_out[j].title@,
                        );
                    }
                }
            }
            assert forall|j: int| p <= j < old_out.len() implies old_out[j].title@ != e.title@ by {
                if old_out[j].title@ == e.title@ {
                    crate::text::lemma_text_less_irreflexive(e.title@);
                }
            }
        }
        out.insert(p, e);
        proof {
            let new_out = out@;
            assert(new_out =~= old_out.take(p as int) + seq![e] + old_out.skip(p as int));
            assert forall|t: Seq<char>| #[trigger] titled(new_out, t) == titled(orig.take(k + 1), t) by {
                lemma_insert_titled(old_out, p as int, e, t);
                assert(orig.take(k + 1) =~= orig.take(k) + seq![e]);
                Seq::filter_distributes_over_add(orig.take(k), seq![e], has_title(t));
            }
            assert forall|i: int, j: int| 0 <= i < j < new_out.len() implies !crate::text::text_less(
                #[trigger] new_out[j].title@,
                #[trigger] new_out[i].title@,
            ) by {
                if i < p && j < p {
                    assert(new_out[i] == old_out[i] && new_out[j] == old_out[j]);
                } else if i < p && j == p {
                    assert(new_out[i] == old_out[i]);
                } else if i < p && j > p {
                    assert(new_out[i] == old_out[i] && new_out[j] == old_out[j - 1]);
                    if crate::text::text_less(old_out[j - 1].title@, old_out[i].title@) {
                    }
                } else if i == p {
                    assert(new_out[j] == old_out[j - 1]);
                    if crate::text::text_less(old_out[j - 1].title@, e.title@) {
                        crate::text::lemma_text_less_transitive(old_out[j - 1].title@, e.title@, old_out[j - 1].title@);
                        crate::text::lemma_text_less_irreflexive(old_out[j - 1].title@);
                    }
                } else {
                    assert(new_out[i] == old_out[i - 1] && new_out[j] == old_out[j - 1]);
                }
            }
            k = k + 1;
        }
    }
    assert(orig.take(k) =~= orig);
    out
}

/// The entries of a title in a run that starts with a given entry.
proof fn lemma_titled_cons(x: Entry, rest: Seq<Entry>, t: Seq<char>)
    ensures
        titled(seq![x] + rest, t) == if x.title@ == t {
            seq![x] + titled(rest, t)
        } else {
            titled(rest, t)
        },
{
    Seq::filter_distributes_over_add(seq![x], rest, has_title(t));
    reveal_with_fuel(Seq::filter, 2);
    assert(seq![x].drop_last() =~= Seq::<Entry>::empty());
    if x.title@ == t {
        assert(seq![x].filter(has_title(t)) =~= seq![x]);
    } else {
        assert(seq![x].filter(has_title(t)) =~= Seq::<Entry>::empty());
    }
}

/// An entry of a run is among the entries of its title.
proof fn lemma_titled_has(s: Seq<Entry>, i: int)
    requires
        0 <= i < s.len(),
    ensures
        titled(s, s[i].title@).contains(s[i]),
{
    broadcast use vstd::seq_lib::group_filter_ensures;

    s.lemma_filter_contains(has_title(s[i].title@), i);
}

/// A run sorted by title stays sorted without its first entry.
proof fn lemma_sorted_drop_first(s: Seq<Entry>)
    requires
        sorted_by_title(s),
        s.len() > 0,
    ensures
        sorted_by_title(s.drop_first()),
{
    let r = s.drop_first();
    assert forall|i: int, j: int| 0 <= i < j < r.len() implies !crate::text::text_less(
        #[trigger] r[j].title@,
        #[trigger] r[i].title@,
    ) by {
        assert(r[i] == s[i + 1] && r[j] == s[j + 1]);
    }
}

/// In a run sorted by title, no entry's title comes before the first one's.
proof fn lemma_first_is_least(s: Seq<Entry>, e: Entry)
    requires
        sorted_by_title(s),
        s.contains(e),
    ensures
        !crate::text::text_less(e.title@, s[0].title@),
{
    let j = choose|j: int| 0 <= j < s.len() && s[j] == e;
    if j > 0 {
        assert(!crate::text::text_less(s[j].title@, s[0].title@));
    } else {
        crate::text::lemma_text_less_irreflexive(e.title@);
    }
}

/// A sorted run is fixed by its entries of each title: two runs sorted by
/// title that hold, for every title, the same entries of that title in the
/// same order are equal. So sorting gives the same result for any order of
/// the input that keeps the order among entries of equal title.
pub proof fn lemma_sorted_by_title_unique(a: Seq<Entry>, b: Seq<Entry>)
    requires
        sorted_by_title(a),
        sorted_by_title(b),
        forall|t: Seq<char>| #[trigger] titled(a, t) == titled(b, t),
    ensures
        a == b,
    decreases a.len(),
{
    broadcast use vstd::seq_lib::group_filter_ensures;

    if a.len() == 0 || b.len() == 0 {
        if a.len() > 0 {
            lemma_titled_has(a, 0);
            assert(titled(b, a[0].title@) =~= Seq::<Entry>::empty()) by {
                reveal(Seq::filter);
            }
            assert(titled(a, a[0].title@).len() > 0);
        } else if b.len() > 0 {
            lemma_titled_has(b, 0);
            assert(titled(a, b[0].title@) =~= Seq::<Entry>::empty()) by {
                reveal(Seq::filter);
            }
            assert(titled(b, b[0].title@).len() > 0);
        }
        assert(a =~= b);
    } else {
        let x = a[0];
        let y = b[0];
        let ar = a.drop_first();
        let br = b.drop_first();
        assert(a =~= seq![x] + ar);
        assert(b =~= seq![y] + br);
        // The two runs start with entries of the same title.
        lemma_titled_has(a, 0);
        lemma_titled_has(b, 0);
        assert(titled(a, x.title@) == titled(b, x.title@));
        assert(titled(a, y.title@) == titled(b, y.title@));
        b.lemma_filter_contains_rev(has_title(x.title@), x);
        a.lemma_filter_contains_rev(has_title(y.title@), y);
        lemma_first_is_least(b, x);
        lemma_first_is_least(a, y);
        crate::text::lemma_text_less_total(x.title@, y.title@);
        assert(x.title@ == y.title@);
        // The first entry of that title is the first entry of each run.
        lemma_titled_cons(x, ar, x.title@);
        lemma_titled_cons(y, br, x.title@);
        assert(titled(a, x.title@)[0] == x);
        assert(titled(b, x.title@)[0] == y);
        assert(x == y);
        assert forall|t: Seq<char>| #[trigger] titled(ar, t) == titled(br, t) by {
            lemma_titled_cons(x, ar, t);
            lemma_titled_cons(y, br, t);
            if x.title@ == t {
                assert(titled(ar, t) =~= titled(a, t).drop_first());
                assert(titled(br, t) =~= titled(b, t).drop_first());
            }
        }
        lemma_sorted_drop_first(a);
        lemma_sorted_drop_first(b);
        lemma_sorted_by_title_unique(ar, br);
    }
}

/// Whether no two entries of a run bear the same title.
pub open spec fn distinct_titles(s: Seq<Entry>) -> bool {
    forall|i: int, j: int| 0 <= i < j < s.len() ==> #[trigger] s[i].title@ != #[trigger] s[j].title@
}

/// With distinct titles, a title has at most one entry.
proof fn lemma_titled_at_most_one(s: Seq<Entry>, t: Seq<char>)
    requires
        distinct_titles(s),
    ensures
        titled(s, t).len() <= 1,
    decreases s.len(),
{
    broadcast use vstd::seq_lib::group_filter_ensures;

    if s.len() > 0 {
        let rest = s.drop_last();
        assert forall|i: int, j: int| 0 <= i < j < rest.len() implies #[trigger] rest[i].title@
            != #[trigger] rest[j].title@ by {
            assert(rest[i] == s[i] && rest[j] == s[j]);
        }
        lemma_titled_at_most_one(rest, t);
        reveal(Seq::filter);
        let f = titled(rest, t);
        if s.last().title@ == t && f.len() > 0 {
            assert(has_title(t)(f[0]));
            assert(f.contains(f[0]));
            rest.lemma_filter_contains_rev(has_title(t), f[0]);
            let k = choose|k: int| 0 <= k < rest.len() && rest[k] == f[0];
            assert(s[k].title@ == s[s.len() - 1].title@);
        }
    }
}

/// Two runs with the same entries, each with distinct titles, hold the same
/// entries of each title.
pub proof fn lemma_same_entries_same_titled(a: Seq<Entry>, b: Seq<Entry>, t: Seq<char>)
    requires
        a.to_multiset() == b.to_multiset(),
        distinct_titles(a),
        distinct_titles(b),
    ensures
        titled(a, t) == titled(b, t),
{
    broadcast use vstd::seq_lib::group_filter_ensures;
    broadcast use vstd::seq_lib::group_to_multiset_ensures;

    lemma_titled_at_most_one(a, t);
    lemma_titled_at_most_one(b, t);
    let fa = titled(a, t);
    let fb = titled(b, t);
    if fa.len() == 1 {
        assert(fa.contains(fa[0]));
        a.lemma_filter_contains_rev(has_title(t), fa[0]);
        assert(a.to_multiset().count(fa[0]) > 0);
        assert(b.contains(fa[0]));
        let k = choose|k: int| 0 <= k < b.len() && b[k] == fa[0];
        assert(has_title(t)(fa[0]));
        b.lemma_filter_contains(has_title(t), k);
        assert(fb.contains(fa[0]));
        assert(fb =~= fa);
    } else if fb.len() == 1 {
        assert(fb.contains(fb[0]));
        b.lemma_filter_contains_rev(has_title(t), fb[0]);
        assert(b.to_multiset().count(fb[0]) > 0);
        assert(a.contains(fb[0]));
        let k = choose|k: int| 0 <= k < a.len() && a[k] == fb[0];
        assert(has_title(t)(fb[0]));
        a.lemma_filter_contains(has_title(t), k);
        assert(fa.contains(fb[0]));
        assert(false);
    } else {
        assert(fa =~= fb);
    }
}

/// An entry keeps the node's title, id and counts, and its airing day is the
/// one its tags record, whatever its counts: nodes with the same tags get
/// the same airing day.
pub proof fn lemma_entry_of_node(n: ListNode, m: ListNode)
    ensures
        entry_of(n).title == n.title,
        entry_of(n).id == n.id,
        entry_of(n).watched_episodes == n.num_episodes_watched,
        entry_of(n).total_episodes == n.num_episodes,
        entry_of(n).weekday == crate::weekday::tagged_weekday(n.tags@),
        n.tags@ == m.tags@ ==> entry_of(n).weekday == entry_of(m).weekday,
{
}

} // verus!
