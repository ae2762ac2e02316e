//! The order in which the entries of a journal are listed.
//!
//! Daily entries come first, the newest date leading; titled entries follow,
//! by title without regard to case. Entries that the order does not tell apart
//! stay in the order in which the directory gave them.

use vstd::prelude::*;
use vstd::seq_lib::*;
use crate::entry::{
    classify, entry_of_name, is_markdown_name, text_of, EntryType, JournalEntry, JournalEntryView,
};
use crate::error::StoreError;
use crate::text::{
    lemma_lex_asymmetric, lemma_lex_not_before_transitive, lemma_lex_transitive, lex_before,
    lowercase_of, text_before, to_lowercase,
};

verus! {

/// Dates in ascending order: an absent date before any present one, present
/// dates by their text.
pub open spec fn date_before(a: Option<Seq<char>>, b: Option<Seq<char>>) -> bool {
    match (a, b) {
        (None, Some(_)) => true,
        (Some(x), Some(y)) => lex_before(x, y),
        _ => false,
    }
}

/// `a` has to stand before `b` in a listing.
pub open spec fn listed_before(a: JournalEntryView, b: JournalEntryView) -> bool {
    match (a.entry_type, b.entry_type) {
        (EntryType::Daily, EntryType::Daily) => date_before(b.date, a.date),
        (EntryType::Daily, EntryType::Titled) => true,
        (EntryType::Titled, EntryType::Daily) => false,
        (EntryType::Titled, EntryType::Titled) => lex_before(
            lowercase_of(a.title),
            lowercase_of(b.title),
        ),
    }
}

/// The order leaves the place of `a` and `b` relative to each other open.
pub open spec fn tied(a: JournalEntryView, b: JournalEntryView) -> bool {
    !listed_before(a, b) && !listed_before(b, a)
}

/// The entries that the order does not tell apart from `e`.
pub open spec fn tied_with(e: JournalEntryView) -> spec_fn(JournalEntryView) -> bool {
    |x: JournalEntryView| tied(e, x)
}

/// No entry stands behind one that it has to stand before.
pub open spec fn in_listing_order(s: Seq<JournalEntryView>) -> bool {
    forall|i: int, j: int| 0 <= i < j < s.len() ==> !listed_before(s[j], s[i])
}

/// `listing` is the listing of `found`: the same entries, in listing order,
/// and those that the order does not tell apart in the order of `found`.
pub open spec fn is_listing_of(
    listing: Seq<JournalEntryView>,
    found: Seq<JournalEntryView>,
) -> bool {
    &&& in_listing_order(listing)
    &&& listing.to_multiset() == found.to_multiset()
    &&& forall|e: JournalEntryView| #[trigger]
        listing.filter(tied_with(e)) == found.filter(tied_with(e))
}

/// The entries of a sequence, each by its view.
pub open spec fn views(entries: Seq<JournalEntry>) -> Seq<JournalEntryView> {
    entries.map_values(|e: JournalEntry| e@)
}

/// The entry that a file of this name holds, if it is a Markdown file.
pub open spec fn entry_if_markdown(name: String) -> Option<JournalEntryView> {
    if is_markdown_name(name@) {
        Some(entry_of_name(name@))
    } else {
        None
    }
}

/// The entries held by the files of these names, in the order of the names.
/// A name that does not end in `.md` gives none.
pub open spec fn entries_of_names(names: Seq<String>) -> Seq<JournalEntryView> {
    names.filter_map(|name: String| entry_if_markdown(name))
}

/// Every entry of the sequence is what its own file name says it is.
pub open spec fn all_entries(s: Seq<JournalEntryView>) -> bool {
    forall|i: int| 0 <= i < s.len() ==> (#[trigger] s[i]).is_entry()
}

/// Of two entries at most one has to stand before the other.
pub proof fn lemma_listed_asymmetric(a: JournalEntryView, b: JournalEntryView)
    ensures
        !(listed_before(a, b) && listed_before(b, a)),
{
    match (a.date, b.date) {
        (Some(x), Some(y)) => lemma_lex_asymmetric(x, y),
        _ => {},
    }
    lemma_lex_asymmetric(lowercase_of(a.title), lowercase_of(b.title));
}

/// What stands before an entry stands before all that the entry stands before.
pub proof fn lemma_listed_transitive(a: JournalEntryView, b: JournalEntryView, c: JournalEntryView)
    requires
        listed_before(a, b),
        listed_before(b, c),
    ensures
        listed_before(a, c),
{
    match (a.entry_type, b.entry_type, c.entry_type) {
        (EntryType::Daily, EntryType::Daily, EntryType::Daily) => {
            match (a.date, b.date, c.date) {
                (Some(x), Some(y), Some(z)) => lemma_lex_transitive(z, y, x),
                _ => {},
            }
        },
        (EntryType::Titled, EntryType::Titled, EntryType::Titled) => {
            lemma_lex_transitive(
                lowercase_of(a.title),
                lowercase_of(b.title),
                lowercase_of(c.title),
            );
        },
        _ => {},
    }
}

/// An entry that need not stand before a second one, which in turn need not
/// stand before a third, need not stand before the third.
pub proof fn lemma_not_listed_transitive(
    a: JournalEntryView,
    b: JournalEntryView,
    c: JournalEntryView,
)
    requires
        !listed_before(a, b),
        !listed_before(b, c),
    ensures
        !listed_before(a, c),
{
    match (a.entry_type, b.entry_type, c.entry_type) {
        (EntryType::Daily, EntryType::Daily, EntryType::Daily) => {
            match (a.date, b.date, c.date) {
                (Some(x), Some(y), Some(z)) => lemma_lex_not_before_transitive(z, y, x),
                _ => {},
            }
        },
        (EntryType::Titled, EntryType::Titled, EntryType::Titled) => {
            lemma_lex_not_before_transitive(
                lowercase_of(a.title),
                lowercase_of(b.title),
                lowercase_of(c.title),
            );
        },
        _ => {},
    }
}

/// Putting `x` behind the entries that have to stand before it, and in front
/// of all others, turns the listing of `found` into the listing of `x`
/// followed by `found`.
proof fn lemma_insert_keeps_listing(
    listing: Seq<JournalEntryView>,
    found: Seq<JournalEntryView>,
    x: JournalEntryView,
    pos: int,
)
    requires
        is_listing_of(listing, found),
        0 <= pos <= listing.len(),
        forall|i: int| 0 <= i < pos ==> listed_before(listing[i], x),
        pos < listing.len() ==> !listed_before(listing[pos], x),
    ensures
        is_listing_of(listing.insert(pos, x), seq![x] + found),
{
    let grown = listing.insert(pos, x);
    let head = listing.take(pos);
    let tail = listing.skip(pos);
    assert forall|i: int, j: int| 0 <= i < j < grown.len() implies !listed_before(
        grown[j],
        grown[i],
    ) by {
        if j == pos {
            lemma_listed_asymmetric(listing[i], x);
        } else if j > pos && i == pos {
            if j - 1 > pos {
                lemma_not_listed_transitive(listing[j - 1], listing[pos], x);
            }
        }
    }
    assert(grown.to_multiset() == (seq![x] + found).to_multiset()) by {
        to_multiset_insert(listing, pos, x);
        to_multiset_insert(found, 0, x);
        assert(found.insert(0, x) =~= seq![x] + found);
    }
    assert forall|e: JournalEntryView| #[trigger]
        grown.filter(tied_with(e)) == (seq![x] + found).filter(tied_with(e)) by {
        let p = tied_with(e);
        assert(listing.filter(p) == found.filter(p));
        assert(grown =~= head + (seq![x] + tail));
        assert(listing =~= head + tail);
        Seq::filter_distributes_over_add(head, seq![x] + tail, p);
        Seq::filter_distributes_over_add(head, tail, p);
        tail.lemma_filter_prepend(x, p);
        found.lemma_filter_prepend(x, p);
        if p(x) {
            assert forall|i: int| 0 <= i < head.len() implies !p(#[trigger] head[i]) by {
                if tied(e, head[i]) {
                    lemma_not_listed_transitive(head[i], e, x);
                }
            }
            assert(head.all(|y: JournalEntryView| !p(y)));
            head.lemma_all_neg_filter_empty(p);
            assert(head.filter(p) =~= Seq::empty());
            assert(grown.filter(p) =~= seq![x] + tail.filter(p));
            assert(listing.filter(p) =~= tail.filter(p));
        } else {
            assert(grown.filter(p) =~= head.filter(p) + tail.filter(p));
            assert((seq![x] + found).filter(p) =~= found.filter(p));
        }
    }
}

/// How a listing reads from top to bottom: once a titled entry has come, no
/// daily entry follows; daily entries never go from an older date to a newer
/// one; titled entries never go back in the order of their titles in lower
/// case.
pub proof fn lemma_listing_reads(s: Seq<JournalEntryView>, i: int, j: int)
    requires
        in_listing_order(s),
        0 <= i < j < s.len(),
    ensures
        s[i].entry_type == EntryType::Titled ==> s[j].entry_type == EntryType::Titled,
        s[i].entry_type == EntryType::Daily && s[j].entry_type == EntryType::Daily
            ==> !date_before(s[i].date, s[j].date),
        s[i].entry_type == EntryType::Titled && s[j].entry_type == EntryType::Titled
            ==> !lex_before(lowercase_of(s[j].title), lowercase_of(s[i].title)),
{
    assert(!listed_before(s[j], s[i]));
}

/// Two listings of the same entries are the same listing: what
/// [`is_listing_of`] asks leaves no choice.
pub proof fn lemma_listing_unique(
    a: Seq<JournalEntryView>,
    b: Seq<JournalEntryView>,
    found: Seq<JournalEntryView>,
)
    requires
        is_listing_of(a, found),
        is_listing_of(b, found),
    ensures
        a == b,
{
    lemma_same_listing(a, b);
}

proof fn lemma_same_listing(a: Seq<JournalEntryView>, b: Seq<JournalEntryView>)
    requires
        in_listing_order(a),
        in_listing_order(b),
        a.to_multiset() == b.to_multiset(),
        forall|e: JournalEntryView| #[trigger] a.filter(tied_with(e)) == b.filter(tied_with(e)),
    ensures
        a == b,
    decreases a.len(),
{
    to_multiset_len(a);
    to_multiset_len(b);
    if a.len() == 0 {
        assert(a =~= b);
    } else {
        let e = a[0];
        let p = tied_with(e);
        let ta = a.drop_first();
        let tb = b.drop_first();
        assert(a =~= seq![a[0]] + ta);
        assert(b =~= seq![b[0]] + tb);
        assert(p(e)) by {
            lemma_listed_asymmetric(e, e);
        }
        assert(p(b[0])) by {
            // each head occurs in the other listing, at its head or behind it
            assert(a.contains(e));
            assert(b.contains(b[0]));
            to_multiset_contains(a, e);
            to_multiset_contains(b, e);
            to_multiset_contains(a, b[0]);
            to_multiset_contains(b, b[0]);
            let m = choose|m: int| 0 <= m < b.len() && b[m] == e;
            let k = choose|k: int| 0 <= k < a.len() && a[k] == b[0];
        }
        ta.lemma_filter_prepend(a[0], p);
        tb.lemma_filter_prepend(b[0], p);
        assert(a.filter(p) == b.filter(p));
        assert(a.filter(p)[0] == a[0]);
        assert(b.filter(p)[0] == b[0]);
        assert(a[0] == b[0]);
        assert(ta.to_multiset() == tb.to_multiset()) by {
            to_multiset_remove(a, 0);
            to_multiset_remove(b, 0);
            assert(a.remove(0) =~= ta);
            assert(b.remove(0) =~= tb);
        }
        assert forall|f: JournalEntryView| #[trigger]
            ta.filter(tied_with(f)) == tb.filter(tied_with(f)) by {
            let q = tied_with(f);
            ta.lemma_filter_prepend(a[0], q);
            tb.lemma_filter_prepend(b[0], q);
            assert(a.filter(q) == b.filter(q));
            if q(a[0]) {
                assert(ta.filter(q) =~= a.filter(q).skip(1));
                assert(tb.filter(q) =~= b.filter(q).skip(1));
            } else {
                assert(ta.filter(q) =~= a.filter(q));
                assert(tb.filter(q) =~= b.filter(q));
            }
        }
        lemma_same_listing(ta, tb);
    }
}

/// The entries that a directory scan gives are each what their file name says.
pub proof fn lemma_names_give_entries(names: Seq<String>)
    ensures
        all_entries(entries_of_names(names)),
    decreases names.len(),
{
    if names.len() > 0 {
        lemma_names_give_entries(names.drop_last());
    }
}

/// Listing neither adds an entry nor changes one: where every entry found is
/// what its file name says, so is every entry listed.
pub proof fn lemma_listing_keeps_entries(
    listing: Seq<JournalEntryView>,
    found: Seq<JournalEntryView>,
)
    requires
        is_listing_of(listing, found),
        all_entries(found),
    ensures
        all_entries(listing),
{
    assert forall|i: int| 0 <= i < listing.len() implies (#[trigger] listing[i]).is_entry() by {
        assert(listing.contains(listing[i]));
        to_multiset_contains(listing, listing[i]);
        to_multiset_contains(found, listing[i]);
        let k = choose|k: int| 0 <= k < found.len() && found[k] == listing[i];
        assert(found[k].is_entry());
    }
}

fn date_precedes(a: &Option<String>, b: &Option<String>) -> (r: bool)
    ensures
        r == date_before(text_of(*a), text_of(*b)),
{
    match (a, b) {
        (None, Some(_)) => true,
        (Some(x), Some(y)) => text_before(x.as_str(), y.as_str()),
        _ => false,
    }
}

/// Whether `a` has to stand before `b` in a listing.
pub fn comes_before(a: &JournalEntry, b: &JournalEntry) -> (r: bool)
    ensures
        r == listed_before(a@, b@),
{
    match (a.entry_type, b.entry_type) {
        (EntryType::Daily, EntryType::Daily) => date_precedes(&b.date, &a.date),
        (EntryType::Daily, EntryType::Titled) => true,
        (EntryType::Titled, EntryType::Daily) => false,
        (EntryType::Titled, EntryType::Titled) => {
            let x = to_lowercase(a.title.as_str());
            let y = to_lowercase(b.title.as_str());
            text_before(x.as_str(), y.as_str())
        },
    }
}

/// The place in a listing at which `entry` goes: behind every entry that has
/// to stand before it, and in front of all others.
fn insertion_point(listing: &Vec<JournalEntry>, entry: &JournalEntry) -> (pos: usize)
    requires
        in_listing_order(views(listing@)),
    ensures
        pos <= listing.len(),
        forall|i: int| 0 <= i < pos ==> listed_before(listing@[i]@, entry@),
        pos < listing.len() ==> !listed_before(listing@[pos as int]@, entry@),
{
    let mut low: usize = 0;
    let mut high: usize = listing.len();
    while low < high
        invariant
            low <= high <= listing.len(),
            in_listing_order(views(listing@)),
            forall|i: int| 0 <= i < low ==> listed_before(listing@[i]@, entry@),
            forall|i: int| high <= i < listing.len() ==> !listed_before(listing@[i]@, entry@),
        decreases high - low,
    {
        let middle = low + (high - low) / 2;
        if comes_before(&listing[middle], entry) {
            proof {
                assert forall|i: int| 0 <= i < middle + 1 implies listed_before(
                    listing@[i]@,
                    entry@,
                ) by {
                    if i < middle && !listed_before(listing@[i]@, entry@) {
                        assert(!listed_before(
                            views(listing@)[middle as int],
                            views(listing@)[i],
                        ));
                        lemma_not_listed_transitive(listing@[middle as int]@, listing@[i]@, entry@);
                    }
                }
            }
            low = middle + 1;
        } else {
            proof {
                assert forall|i: int| middle <= i < listing.len() implies !listed_before(
                    listing@[i]@,
                    entry@,
                ) by {
                    if i > middle {
                        assert(!listed_before(
                            views(listing@)[i],
                            views(listing@)[middle as int],
                        ));
                        lemma_not_listed_transitive(listing@[i]@, listing@[middle as int]@, entry@);
                    }
                }
            }
            high = middle;
        }
    }
    low
}

/// Puts entries into listing order.
pub fn sort_entries(entries: Vec<JournalEntry>) -> (sorted: Vec<JournalEntry>)
    ensures
        is_listing_of(views(sorted@), views(entries@)),
{
    let ghost all = entries@;
    let mut rest = entries;
    let mut sorted: Vec<JournalEntry> = Vec::new();
    proof {
        assert(views(sorted@) =~= views(all.skip(all.len() as int)));
        assert(rest@ =~= all.take(rest.len() as int));
    }
    while rest.len() > 0
        invariant
            rest.len() <= all.len(),
            rest@ == all.take(rest.len() as int),
            is_listing_of(views(sorted@), views(all.skip(rest.len() as int))),
        decreases rest.len(),
    {
        let ghost before = views(sorted@);
        let ghost found = views(all.skip(rest.len() as int));
        let entry = rest.pop().unwrap();
        let pos = insertion_point(&sorted, &entry);
        proof {
            lemma_insert_keeps_listing(before, found, entry@, pos as int);
            assert(views(sorted@.insert(pos as int, entry)) =~= before.insert(pos as int, entry@));
            assert(views(all.skip(rest.len() as int)) =~= seq![entry@] + found);
            assert(rest@ =~= all.take(rest.len() as int));
        }
        sorted.insert(pos, entry);
    }
    proof {
        assert(all.skip(0) =~= all);
    }
    sorted
}

/// The entries held by the files of these names, in the order of the names.
pub fn collect_entries(names: &Vec<String>) -> (found: Vec<JournalEntry>)
    ensures
        views(found@) == entries_of_names(names@),
{
    let mut found: Vec<JournalEntry> = Vec::new();
    let mut i: usize = 0;
    proof {
        assert(names@.take(0) =~= Seq::empty());
        assert(views(found@) =~= entries_of_names(names@.take(0)));
    }
    while i < names.len()
        invariant
            i <= names.len(),
            views(found@) == entries_of_names(names@.take(i as int)),
        decreases names.len() - i,
    {
        let ghost so_far = views(found@);
        proof {
            names@.lemma_filter_map_take_succ(|name: String| entry_if_markdown(name), i as int);
        }
        match classify(names[i].as_str()) {
            Some(entry) => {
                proof {
                    assert(views(found@.push(entry)) =~= so_far + seq![entry@]);
                }
                found.push(entry);
            },
            None => {
                proof {
                    assert(so_far + Seq::<JournalEntryView>::empty() =~= so_far);
                }
            },
        }
        i += 1;
    }
    proof {
        assert(names@.take(names.len() as int) =~= names@);
    }
    found
}

/// Lists a journal directory from what scanning it gave: the names of its
/// files, in the order in which the file system handed them out, or the reason
/// why the directory could not be read.
pub fn list_journal_entries(scan: Result<Vec<String>, String>) -> (r: Result<
    Vec<JournalEntry>,
    StoreError,
>)
    ensures
        match scan {
            Ok(names) => r matches Ok(listing) && is_listing_of(
                views(listing@),
                entries_of_names(names@),
            ) && forall|i: int| 0 <= i < listing.len() ==> (#[trigger] listing[i]).wf(),
            Err(cause) => r == Err::<Vec<JournalEntry>, StoreError>(
                StoreError::ReadDirFailed(cause),
            ),
        },
{
    match scan {
        Ok(names) => {
            let listing = sort_entries(collect_entries(&names));
            proof {
                lemma_names_give_entries(names@);
                lemma_listing_keeps_entries(views(listing@), entries_of_names(names@));
                assert forall|i: int| 0 <= i < listing.len() implies (#[trigger] listing[i]).wf() by {
                    assert(views(listing@)[i].is_entry());
                }
            }
            Ok(listing)
        },
        Err(cause) => Err(StoreError::ReadDirFailed(cause)),
    }
}

} // verus!
