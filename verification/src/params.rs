//! Shared request/response shapes: timestamps, metadata, range filters,
//! expansion directives, expandable references, list envelopes, and the
//! deletion confirmation marker.

use crate::encoding::pair_views;
use crate::strutil::str_eq;
use vstd::prelude::*;

verus! {

/// Seconds since the Unix epoch.
pub type Timestamp = i64;

/// First value stored under key `k`, if any.
pub open spec fn spec_lookup(entries: Seq<(Seq<char>, Seq<char>)>, k: Seq<char>) -> Option<
    Seq<char>,
>
    decreases entries.len(),
{
    if entries.len() == 0 {
        None
    } else if entries[0].0 == k {
        Some(entries[0].1)
    } else {
        spec_lookup(entries.drop_first(), k)
    }
}

/// Unordered, user-defined string-to-string annotations on a resource.
/// Keys are unique; order carries no meaning.
pub struct Metadata {
    entries: Vec<(String, String)>,
}

impl View for Metadata {
    type V = Seq<(Seq<char>, Seq<char>)>;

    closed spec fn view(&self) -> Seq<(Seq<char>, Seq<char>)> {
        pair_views(self.entries@)
    }
}

impl Metadata {
    /// Every key appears at most once.
    pub open spec fn wf(&self) -> bool {
        forall|i: int, j: int|
            0 <= i < j < self@.len() ==> (#[trigger] self@[i].0) != (#[trigger] self@[j].0)
    }

    pub fn new() -> (r: Metadata)
        ensures
            r@ =~= Seq::<(Seq<char>, Seq<char>)>::empty(),
            r.wf(),
    {
        Metadata { entries: Vec::new() }
    }

    /// True when some entry stores `k`.
    pub fn contains_key(&self, k: &str) -> (r: bool)
        ensures
            r == (spec_lookup(self@, k@) is Some),
    {
        let n = self.entries.len();
        let mut i: usize = 0;
        proof {
            assert(self@.skip(0) =~= self@);
        }
        while i < n
            invariant
                i <= n,
                n == self.entries@.len(),
                self@ == pair_views(self.entries@),
                spec_lookup(self@, k@) == spec_lookup(self@.skip(i as int), k@),
            decreases n - i,
        {
            proof {
                assert(self@.skip(i as int)[0] == self@[i as int]);
                assert(self@.skip(i as int).drop_first() =~= self@.skip(i + 1));
            }
            if str_eq(self.entries[i].0.as_str(), k) {
                return true;
            }
            i += 1;
        }
        proof {
            assert(self@.skip(n as int) =~= Seq::<(Seq<char>, Seq<char>)>::empty());
        }
        false
    }

    /// The value stored under `k`, if any.
    pub fn get(&self, k: &str) -> (r: Option<String>)
        ensures
            match r {
                Some(v) => spec_lookup(self@, k@) == Some(v@),
                None => spec_lookup(self@, k@) is None,
            },
    {
        let n = self.entries.len();
        let mut i: usize = 0;
        proof {
            assert(self@.skip(0) =~= self@);
        }
        while i < n
            invariant
                i <= n,
                n == self.entries@.len(),
                self@ == pair_views(self.entries@),
                spec_lookup(self@, k@) == spec_lookup(self@.skip(i as int), k@),
            decreases n - i,
        {
            proof {
                assert(self@.skip(i as int)[0] == self@[i as int]);
                assert(self@.skip(i as int).drop_first() =~= self@.skip(i + 1));
            }
            if str_eq(self.entries[i].0.as_str(), k) {
                return Some(self.entries[i].1.clone());
            }
            i += 1;
        }
        proof {
            assert(self@.skip(n as int) =~= Seq::<(Seq<char>, Seq<char>)>::empty());
        }
        None
    }

    /// Adds an entry under a key not present yet, keeping keys unique.
    pub fn insert(&mut self, k: String, v: String)
        requires
            old(self).wf(),
            spec_lookup(old(self)@, k@) is None,
        ensures
            final(self)@ =~= old(self)@.push((k@, v@)),
            final(self).wf(),
    {
        proof {
            lemma_lookup_none_means_absent(self@, k@);
        }
        let ghost kk = k@;
        let ghost vv = v@;
        self.entries.push((k, v));
        proof {
            assert(self@ =~= old(self)@.push((kk, vv)));
        }
    }

    /// Read-only access to the entries, for encoders.
    pub fn entries(&self) -> (r: &Vec<(String, String)>)
        ensures
            pair_views(r@) == self@,
    {
        &self.entries
    }
}

/// When lookup finds nothing, no entry stores the key.
pub proof fn lemma_lookup_none_means_absent(entries: Seq<(Seq<char>, Seq<char>)>, k: Seq<char>)
    requires
        spec_lookup(entries, k) is None,
    ensures
        forall|i: int| 0 <= i < entries.len() ==> (#[trigger] entries[i].0) != k,
    decreases entries.len(),
{
    if entries.len() > 0 {
        lemma_lookup_none_means_absent(entries.drop_first(), k);
        assert forall|i: int| 0 <= i < entries.len() implies (#[trigger] entries[i].0) != k by {
            if i > 0 {
                assert(entries.drop_first()[i - 1] == entries[i]);
            }
        }
    }
}

/// When lookup finds something, some entry stores the key.
pub proof fn lemma_lookup_some_means_present(entries: Seq<(Seq<char>, Seq<char>)>, k: Seq<char>)
    requires
        spec_lookup(entries, k) is Some,
    ensures
        exists|i: int| 0 <= i < entries.len() && (#[trigger] entries[i].0) == k,
    decreases entries.len(),
{
    if entries.len() > 0 && entries[0].0 != k {
        lemma_lookup_some_means_present(entries.drop_first(), k);
        let j = choose|j: int|
            0 <= j < entries.drop_first().len() && (#[trigger] entries.drop_first()[j].0) == k;
        assert(entries[j + 1].0 == k);
    }
}

/// A directive asking the server to inline the named nested objects instead
/// of returning bare identifiers. An empty list is omitted from the encoded
/// request entirely.
pub struct Expand {
    pub expand: Vec<String>,
}

impl Expand {
    pub fn new() -> (r: Expand)
        ensures
            r.expand@.len() == 0,
    {
        Expand { expand: Vec::new() }
    }

    /// True when no expansion was requested.
    pub fn is_empty(&self) -> (r: bool)
        ensures
            r == (self.expand@.len() == 0),
    {
        self.expand.len() == 0
    }
}

/// Optional lower/upper bounds over a timestamp field.
#[derive(Clone, Copy)]
pub struct RangeBounds {
    pub gt: Option<Timestamp>,
    pub gte: Option<Timestamp>,
    pub lt: Option<Timestamp>,
    pub lte: Option<Timestamp>,
}

impl RangeBounds {
    pub fn new() -> (r: RangeBounds)
        ensures
            r.gt is None && r.gte is None && r.lt is None && r.lte is None,
    {
        RangeBounds { gt: None, gte: None, lt: None, lte: None }
    }
}

/// A filter over a timestamp field: either an exact match or a set of
/// optional bounds.
#[derive(Clone, Copy)]
pub enum RangeQuery {
    Exact(Timestamp),
    Bounds(RangeBounds),
}

/// A value that is either a bare identifier or the fully expanded object,
/// depending on whether the caller requested expansion. Requests always
/// send just the identifier form.
pub enum Expandable<I, T> {
    Id(I),
    Object(Box<T>),
}

/// The confirmation shape returned only by delete operations: the deleted
/// object's identifier with an explicit flag, so "successfully deleted"
/// is distinguishable from a never-deleted resource.
pub struct Deleted<I> {
    pub deleted: bool,
    pub id: I,
}

/// One page of a paginated listing: the items in order, the authoritative
/// "has more" flag, an optional total-count hint, and the listing URL.
pub struct List<T> {
    pub data: Vec<T>,
    pub has_more: bool,
    pub total_count: Option<u64>,
    pub url: String,
}

} // verus!
