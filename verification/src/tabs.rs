//! Which tab and page the tabs adapter acts on.

use vstd::prelude::*;

verus! {

/// A tab as the adapter looks it up: its context key and the route
/// segments of its pages, in order.
pub struct TabPages {
    pub context_key: String,
    pub route_segments: Vec<String>,
}

/// Position of the first tab in `tabs` whose context key is `key`.
pub open spec fn tab_position(tabs: Seq<TabPages>, key: Seq<char>, i: int) -> Option<int>
    decreases tabs.len() - i,
{
    if i < 0 || i >= tabs.len() {
        None
    } else if tabs[i].context_key@ == key {
        Some(i)
    } else {
        tab_position(tabs, key, i + 1)
    }
}

/// Position, from `i` on, of the first of `segments` equal to `segment`.
pub open spec fn segment_position(segments: Seq<String>, segment: Seq<char>, i: int) -> Option<int>
    decreases segments.len() - i,
{
    if i < 0 || i >= segments.len() {
        None
    } else if segments[i]@ == segment {
        Some(i)
    } else {
        segment_position(segments, segment, i + 1)
    }
}

proof fn lemma_segment_position_bounds(segments: Seq<String>, segment: Seq<char>, i: int)
    ensures
        segment_position(segments, segment, i) matches Some(j) ==> i <= j < segments.len(),
    decreases segments.len() - i,
{
    if 0 <= i < segments.len() {
        lemma_segment_position_bounds(segments, segment, i + 1);
    }
}

proof fn lemma_tab_position_bounds(tabs: Seq<TabPages>, key: Seq<char>, i: int)
    ensures
        tab_position(tabs, key, i) matches Some(j) ==> i <= j < tabs.len(),
    decreases tabs.len() - i,
{
    if 0 <= i < tabs.len() {
        lemma_tab_position_bounds(tabs, key, i + 1);
    }
}

fn find_segment(segments: &Vec<String>, segment: &str) -> (r: Option<usize>)
    ensures
        r matches Some(i) ==> segment_position(segments@, segment@, 0) == Some(i as int),
        r is None ==> segment_position(segments@, segment@, 0) is None,
{
    let mut i: usize = 0;
    while i < segments.len()
        invariant
            i <= segments.len(),
            segment_position(segments@, segment@, 0) == segment_position(segments@, segment@, i as int),
        decreases segments.len() - i,
    {
        if crate::text::str_eq(segments[i].as_str(), segment) {
            return Some(i);
        }
        i = i + 1;
    }
    None
}

/// Index of the tab whose context key is `key` (the first such tab).
pub fn active_tab_index(tabs: &Vec<TabPages>, key: &str) -> (r: Option<usize>)
    ensures
        r matches Some(i) ==> tab_position(tabs@, key@, 0) == Some(i as int),
        r is None ==> tab_position(tabs@, key@, 0) is None,
        r matches Some(i) ==> i < tabs@.len(),
{
    let mut i: usize = 0;
    while i < tabs.len()
        invariant
            i <= tabs.len(),
            tab_position(tabs@, key@, 0) == tab_position(tabs@, key@, i as int),
        decreases tabs.len() - i,
    {
        if crate::text::str_eq(tabs[i].context_key.as_str(), key) {
            return Some(i);
        }
        i = i + 1;
    }
    None
}

/// The tab with context key `key` (the first such tab) and the index of its
/// page with route segment `segment` (the first such page). Later tabs with
/// the same key are not searched.
pub fn tab_page_index(tabs: &Vec<TabPages>, key: &str, segment: &str) -> (r: Option<(usize, usize)>)
    ensures
        r matches Some((t, p)) ==> tab_position(tabs@, key@, 0) == Some(t as int) && t < tabs@.len()
            && segment_position(tabs@[t as int].route_segments@, segment@, 0) == Some(p as int),
        r is None ==> (match tab_position(tabs@, key@, 0) {
            Some(t) => segment_position(tabs@[t].route_segments@, segment@, 0) is None,
            None => true,
        }),
{
    proof {
        lemma_tab_position_bounds(tabs@, key@, 0);
        if let Some(t) = tab_position(tabs@, key@, 0) {
            lemma_segment_position_bounds(tabs@[t].route_segments@, segment@, 0);
        }
    }
    match active_tab_index(tabs, key) {
        Some(t) => match find_segment(&tabs[t].route_segments, segment) {
            Some(p) => Some((t, p)),
            None => None,
        },
        None => None,
    }
}

/// The active tab is the first tab whose context key equals the requested
/// key exactly: a tab whose key only begins like it, or differs from it in
/// any way, is never taken; when no tab has the key, there is none.
pub proof fn law_active_tab_has_exactly_the_key(tabs: Seq<TabPages>, key: Seq<char>)
    ensures
        tab_position(tabs, key, 0) matches Some(i) ==> 0 <= i < tabs.len() && tabs[i].context_key@ == key
            && forall|j: int| 0 <= j < i ==> #[trigger] tabs[j].context_key@ != key,
        tab_position(tabs, key, 0) is None ==> forall|j: int| 0 <= j < tabs.len() ==> #[trigger] tabs[j].context_key@
            != key,
{
    lemma_tab_position_first(tabs, key, 0);
}

proof fn lemma_tab_position_first(tabs: Seq<TabPages>, key: Seq<char>, i: int)
    requires
        0 <= i,
    ensures
        tab_position(tabs, key, i) matches Some(k) ==> i <= k < tabs.len() && tabs[k].context_key@ == key
            && forall|j: int| i <= j < k ==> #[trigger] tabs[j].context_key@ != key,
        tab_position(tabs, key, i) is None ==> forall|j: int| i <= j < tabs.len() ==> #[trigger] tabs[j].context_key@
            != key,
    decreases tabs.len() - i,
{
    if i < tabs.len() {
        lemma_tab_position_first(tabs, key, i + 1);
    }
}

/// The page found is the first page of the tab whose route segment equals
/// the requested segment exactly; when none does, there is none.
pub proof fn law_page_has_exactly_the_segment(segments: Seq<String>, segment: Seq<char>)
    ensures
        segment_position(segments, segment, 0) matches Some(i) ==> 0 <= i < segments.len() && segments[i]@
            == segment && forall|j: int| 0 <= j < i ==> #[trigger] segments[j]@ != segment,
        segment_position(segments, segment, 0) is None ==> forall|j: int| 0 <= j < segments.len() ==> #[trigger] segments[j]@
            != segment,
{
    lemma_segment_position_first(segments, segment, 0);
}

proof fn lemma_segment_position_first(segments: Seq<String>, segment: Seq<char>, i: int)
    requires
        0 <= i,
    ensures
        segment_position(segments, segment, i) matches Some(k) ==> i <= k < segments.len() && segments[k]@ == segment
            && forall|j: int| i <= j < k ==> #[trigger] segments[j]@ != segment,
        segment_position(segments, segment, i) is None ==> forall|j: int| i <= j < segments.len() ==> #[trigger] segments[j]@
            != segment,
    decreases segments.len() - i,
{
    if i < segments.len() {
        lemma_segment_position_first(segments, segment, i + 1);
    }
}

} // verus!
