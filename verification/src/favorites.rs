//! The list of liked records: no record twice, first liked first.
//!
//! Two records are the same when they agree in every field. Records that
//! share an address and differ in their breeds are different records, and
//! both can be liked; unliking goes by the address alone and removes both.

use crate::record::{record_views, records_copy, AnimalRecord, RecordView};
use vstd::prelude::*;
use vstd::string::StringExecFns;

verus! {

/// A list after a record is liked: unchanged where the record is already in
/// it, else the record appended.
pub open spec fn liked(s: Seq<RecordView>, r: RecordView) -> Seq<RecordView> {
    if s.contains(r) {
        s
    } else {
        s.push(r)
    }
}

/// A list after an address is unliked: the entries with another address, in
/// their order.
pub open spec fn unliked(s: Seq<RecordView>, url: Seq<char>) -> Seq<RecordView> {
    s.filter(|e: RecordView| e.url != url)
}

/// Whether some entry of the list has this address.
pub open spec fn has_url(s: Seq<RecordView>, url: Seq<char>) -> bool {
    exists|i: int| 0 <= i < s.len() && (#[trigger] s[i]).url == url
}

/// Liked records in the order in which they were liked, each at most once.
pub struct FavoritesList {
    items: Vec<AnimalRecord>,
}

impl View for FavoritesList {
    type V = Seq<RecordView>;

    closed spec fn view(&self) -> Seq<RecordView> {
        record_views(self.items@)
    }
}

impl FavoritesList {
    #[verifier::type_invariant]
    spec fn distinct(self) -> bool {
        record_views(self.items@).no_duplicates()
    }

    /// The empty list.
    pub fn new() -> (r: Self)
        ensures
            r@ == Seq::<RecordView>::empty(),
    {
        let r = FavoritesList { items: Vec::new() };
        assert(record_views(r.items@) =~= Seq::<RecordView>::empty());
        r
    }

    /// How many records are liked.
    pub fn len(&self) -> (n: usize)
        ensures
            n == self@.len(),
    {
        self.items.len()
    }

    /// Whether a record equal to `record` in every field is in the list.
    pub fn contains(&self, record: &AnimalRecord) -> (b: bool)
        ensures
            b == self@.contains(record@),
    {
        let mut i: usize = 0;
        while i < self.items.len()
            invariant
                i <= self.items.len(),
                forall|k: int| 0 <= k < i ==> self.items@[k]@ != record@,
            decreases self.items.len() - i,
        {
            if self.items[i].same(record) {
                assert(self@[i as int] == record@);
                return true;
            }
            i += 1;
        }
        false
    }

    /// Likes a record: it joins the end of the list unless a record equal to
    /// it in every field is there already.
    pub fn like(&mut self, record: AnimalRecord)
        ensures
            final(self)@ == liked(old(self)@, record@),
            final(self)@.no_duplicates(),
            final(self)@.to_multiset().count(record@) == 1,
    {
        proof {
            use_type_invariant(&*self);
            lemma_like_holds_once(self@, record@);
        }
        if !self.contains(&record) {
            let ghost before = self@;
            let ghost added = record@;
            let mut taken = FavoritesList::new();
            std::mem::swap(self, &mut taken);
            let mut items = taken.items;
            assert(before.push(added).no_duplicates());
            assert(record_views(items@.push(record)) =~= before.push(added));
            items.push(record);
            self.items = items;
        }
    }

    /// Unlikes an address: every entry with this address leaves, whatever
    /// its breeds; the others keep their order.
    pub fn unlike(&mut self, url: &str)
        ensures
            final(self)@ == unliked(old(self)@, url@),
            final(self)@.no_duplicates(),
            !has_url(final(self)@, url@),
            !has_url(old(self)@, url@) ==> final(self)@ == old(self)@,
    {
        proof {
            use_type_invariant(&*self);
            lemma_unlike_removes_all(self@, url@);
            if !has_url(self@, url@) {
                lemma_unlike_absent(self@, url@);
            }
        }
        let target = String::from_str(url);
        let ghost keep = |e: RecordView| e.url != url@;
        let ghost before = self@;
        let mut taken = FavoritesList::new();
        std::mem::swap(self, &mut taken);
        let items = taken.items;
        let ghost all = items@;
        let mut kept: Vec<AnimalRecord> = Vec::new();
        proof {
            assert(before.take(0) =~= Seq::<RecordView>::empty());
            assert(Seq::<RecordView>::empty().filter(keep) =~= Seq::<RecordView>::empty()) by {
                reveal(Seq::filter);
            }
            assert(record_views(kept@) =~= Seq::<RecordView>::empty());
        }
        for record in it: items
            invariant
                it.seq() == all,
                before == record_views(all),
                keep == (|e: RecordView| e.url != url@),
                target@ == url@,
                record_views(kept@) == before.take(it.index() as int).filter(keep),
        {
            let ghost prefix = before.take(it.index() as int);
            let ghost entry = record@;
            proof {
                assert(before.take(it.index() + 1) =~= prefix.push(entry));
                prefix.lemma_filter_push(entry, keep);
            }
            if record.url != target {
                assert(record_views(kept@.push(record)) =~= record_views(kept@).push(entry));
                kept.push(record);
            }
        }
        proof {
            assert(before.take(all.len() as int) =~= before);
            lemma_filter_distinct(before, keep);
        }
        self.items = kept;
    }

    /// A copy of the liked records, first liked first.
    pub fn list(&self) -> (r: Vec<AnimalRecord>)
        ensures
            record_views(r@) == self@,
            self@.no_duplicates(),
    {
        proof {
            use_type_invariant(self);
        }
        records_copy(&self.items)
    }
}

/// Filtering a list without duplicates leaves a list without duplicates.
pub proof fn lemma_filter_distinct(s: Seq<RecordView>, keep: spec_fn(RecordView) -> bool)
    requires
        s.no_duplicates(),
    ensures
        s.filter(keep).no_duplicates(),
    decreases s.len(),
{
    reveal(Seq::filter);
    if s.len() > 0 {
        let front = s.drop_last();
        lemma_filter_distinct(front, keep);
        if keep(s.last()) {
            let f = front.filter(keep);
            assert forall|k: int| 0 <= k < f.len() implies f[k] != s.last() by {
                assert(f.contains(f[k]));
                front.lemma_filter_contains_rev(keep, f[k]);
                let j = choose|j: int| 0 <= j < front.len() && front[j] == f[k];
                assert(s[j] == f[k]);
            }
        }
    }
}

/// A record that was just liked is in the list exactly once, whether or not
/// it was there before.
pub proof fn lemma_like_holds_once(s: Seq<RecordView>, r: RecordView)
    requires
        s.no_duplicates(),
    ensures
        liked(s, r).no_duplicates(),
        liked(s, r).to_multiset().count(r) == 1,
{
    let t = liked(s, r);
    if !s.contains(r) {
        assert(t[s.len() as int] == r);
    }
    assert(t.contains(r));
    t.to_multiset_ensures();
    t.lemma_multiset_has_no_duplicates();
}

/// Liking the same record a second time changes nothing: the list, and so
/// its length, stays as the first like left it.
pub proof fn lemma_like_twice(s: Seq<RecordView>, r: RecordView)
    ensures
        liked(liked(s, r), r) == liked(s, r),
        liked(liked(s, r), r).len() == liked(s, r).len(),
{
    let t = liked(s, r);
    if !s.contains(r) {
        assert(t[s.len() as int] == r);
    }
    assert(t.contains(r));
}

/// After an address is unliked no entry has it, whatever breeds the
/// entries with that address held, and every entry with another address is
/// still there.
pub proof fn lemma_unlike_removes_all(s: Seq<RecordView>, url: Seq<char>)
    ensures
        !has_url(unliked(s, url), url),
        forall|e: RecordView| s.contains(e) && e.url != url ==> unliked(s, url).contains(e),
        forall|e: RecordView| unliked(s, url).contains(e) ==> s.contains(e),
{
    let keep = |e: RecordView| e.url != url;
    let t = s.filter(keep);
    assert forall|i: int| 0 <= i < t.len() implies (#[trigger] t[i]).url != url by {
        s.lemma_filter_pred(keep, i);
    }
    assert forall|e: RecordView| s.contains(e) && e.url != url implies t.contains(e) by {
        let j = choose|j: int| 0 <= j < s.len() && s[j] == e;
        s.lemma_filter_contains(keep, j);
    }
    assert forall|e: RecordView| t.contains(e) implies s.contains(e) by {
        s.lemma_filter_contains_rev(keep, e);
    }
}

/// Unliking an address that no entry has leaves the list as it was.
pub proof fn lemma_unlike_absent(s: Seq<RecordView>, url: Seq<char>)
    requires
        !has_url(s, url),
    ensures
        unliked(s, url) == s,
    decreases s.len(),
{
    reveal(Seq::filter);
    let keep = |e: RecordView| e.url != url;
    if s.len() > 0 {
        let front = s.drop_last();
        assert forall|i: int| 0 <= i < front.len() implies (#[trigger] front[i]).url != url by {
            assert(s[i].url != url);
        }
        lemma_unlike_absent(front, url);
        assert(s.last() == s[s.len() - 1]);
        assert(s.last().url != url);
        assert(front.filter(keep).push(s.last()) =~= s);
    } else {
        assert(s.filter(keep) =~= s);
    }
}

} // verus!
