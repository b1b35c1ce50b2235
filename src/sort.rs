use vstd::prelude::*;

verus! {

/// Order of the search results, cycled through by the sort toggle.
#[derive(Debug, Clone, Copy, PartialEq, Eq, Hash, Structural)]
pub enum SortKey {
    Alphabetical,
    Relevance,
    Downloads,
    RecentDownloads,
    RecentUpdates,
    NewlyAdded,
}

/// The key after `s` in the cycle, wrapping from the last to the first.
pub open spec fn next_sort(s: SortKey) -> SortKey {
    match s {
        SortKey::Alphabetical => SortKey::Relevance,
        SortKey::Relevance => SortKey::Downloads,
        SortKey::Downloads => SortKey::RecentDownloads,
        SortKey::RecentDownloads => SortKey::RecentUpdates,
        SortKey::RecentUpdates => SortKey::NewlyAdded,
        SortKey::NewlyAdded => SortKey::Alphabetical,
    }
}

/// The key before `s` in the cycle, wrapping from the first to the last.
pub open spec fn previous_sort(s: SortKey) -> SortKey {
    match s {
        SortKey::Alphabetical => SortKey::NewlyAdded,
        SortKey::Relevance => SortKey::Alphabetical,
        SortKey::Downloads => SortKey::Relevance,
        SortKey::RecentDownloads => SortKey::Downloads,
        SortKey::RecentUpdates => SortKey::RecentDownloads,
        SortKey::NewlyAdded => SortKey::RecentUpdates,
    }
}

/// The name under which the key is shown.
pub open spec fn sort_name(s: SortKey) -> Seq<char> {
    match s {
        SortKey::Alphabetical => "Alphabetical"@,
        SortKey::Relevance => "Relevance"@,
        SortKey::Downloads => "Downloads"@,
        SortKey::RecentDownloads => "RecentDownloads"@,
        SortKey::RecentUpdates => "RecentUpdates"@,
        SortKey::NewlyAdded => "NewlyAdded"@,
    }
}

impl SortKey {
    /// The name under which the key is shown.
    pub fn name(&self) -> (r: &'static str)
        ensures
            r@ == sort_name(*self),
    {
        match self {
            SortKey::Alphabetical => "Alphabetical",
            SortKey::Relevance => "Relevance",
            SortKey::Downloads => "Downloads",
            SortKey::RecentDownloads => "RecentDownloads",
            SortKey::RecentUpdates => "RecentUpdates",
            SortKey::NewlyAdded => "NewlyAdded",
        }
    }

    /// The next key in the cycle, or the previous one when `forward` is false.
    pub fn cycled(self, forward: bool) -> (r: SortKey)
        ensures
            r == if forward {
                next_sort(self)
            } else {
                previous_sort(self)
            },
    {
        if forward {
            match self {
                SortKey::Alphabetical => SortKey::Relevance,
                SortKey::Relevance => SortKey::Downloads,
                SortKey::Downloads => SortKey::RecentDownloads,
                SortKey::RecentDownloads => SortKey::RecentUpdates,
                SortKey::RecentUpdates => SortKey::NewlyAdded,
                SortKey::NewlyAdded => SortKey::Alphabetical,
            }
        } else {
            match self {
                SortKey::Alphabetical => SortKey::NewlyAdded,
                SortKey::Relevance => SortKey::Alphabetical,
                SortKey::Downloads => SortKey::Relevance,
                SortKey::RecentDownloads => SortKey::Downloads,
                SortKey::RecentUpdates => SortKey::RecentDownloads,
                SortKey::NewlyAdded => SortKey::RecentUpdates,
            }
        }
    }
}

/// Stepping back undoes stepping forward, and six steps forward come back to
/// the start.
pub proof fn lemma_sort_cycle(s: SortKey)
    ensures
        previous_sort(next_sort(s)) == s,
        next_sort(previous_sort(s)) == s,
        next_sort(next_sort(next_sort(next_sort(next_sort(next_sort(s)))))) == s,
{
}

} // verus!
