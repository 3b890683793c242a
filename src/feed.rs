//! Per-feed deduplication and cursor pagination.
use vstd::prelude::*;
use crate::post::{normalize_item, normalized_item, NormalizedPost, PostModel, RawFeedItem};

verus! {

/// The smallest page size the remote service accepts.
pub const MIN_LIMIT: u8 = 1;

/// The largest page size the remote service accepts.
pub const MAX_LIMIT: u8 = 100;

/// The three paginated streams, each with its own dedup history.
#[derive(Clone, Copy, Debug, PartialEq, Eq, Structural)]
pub enum FeedKind {
    Timeline,
    Search,
    AuthorFeed,
}

/// The identifiers a feed has already emitted since its last reset.
pub struct FeedState {
    seen: Vec<String>,
}

/// A page handed to the interface: new items in remote order, and the cursor that
/// continues the feed (empty at its end).
pub struct Page {
    pub items: Vec<NormalizedPost>,
    pub next_cursor: String,
}

pub struct PageModel {
    pub items: Seq<PostModel>,
    pub next_cursor: Seq<char>,
}

/// What to ask the remote service for.
pub struct PageRequest {
    pub limit: u8,
    /// `None` asks for the first page.
    pub cursor: Option<String>,
    /// True for a fresh load, false for a continuation.
    pub init: bool,
}

impl View for FeedState {
    type V = Set<Seq<char>>;

    closed spec fn view(&self) -> Set<Seq<char>> {
        Set::new(|u: Seq<char>| exists|i: int| 0 <= i < self.seen@.len() && #[trigger] self.seen@[i]@ == u)
    }
}

impl View for Page {
    type V = PageModel;

    open spec fn view(&self) -> PageModel {
        PageModel {
            items: self.items@.map_values(|p: NormalizedPost| p@),
            next_cursor: self.next_cursor@,
        }
    }
}

/// The page size sent for a requested `limit`: kept when the service accepts it; a size
/// that a byte can hold but the service would not take is clamped to the nearest accepted
/// bound; one that a byte cannot hold is brought to the minimum.
pub open spec fn coerced_limit(limit: int) -> int {
    if (MIN_LIMIT as int) <= limit && limit <= (MAX_LIMIT as int) {
        limit
    } else if (MAX_LIMIT as int) < limit && limit <= u8::MAX as int {
        MAX_LIMIT as int
    } else {
        MIN_LIMIT as int
    }
}

/// The identifiers of the items of a remote page.
pub open spec fn item_uris(items: Seq<RawFeedItem>) -> Set<Seq<char>> {
    Set::new(|u: Seq<char>| exists|i: int| 0 <= i < items.len() && #[trigger] items[i].post.uri@ == u)
}

/// The items of a remote page that a feed which has seen `seen` emits, normalised, in
/// remote order: each identifier the first time it comes, never one seen before.
pub open spec fn admitted(seen: Set<Seq<char>>, items: Seq<RawFeedItem>) -> Seq<PostModel>
    decreases items.len(),
{
    if items.len() == 0 {
        Seq::empty()
    } else {
        let prefix = items.drop_last();
        let before = admitted(seen, prefix);
        if seen.union(item_uris(prefix)).contains(items.last().post.uri@) {
            before
        } else {
            before.push(normalized_item(items.last()))
        }
    }
}

/// The cursor that continues a feed after a remote page with `cursor`: empty at its end.
pub open spec fn next_cursor_of(cursor: Option<String>) -> Seq<char> {
    match cursor {
        Some(c) => c@,
        None => Seq::empty(),
    }
}

/// The cursor a request carries for a given cursor: none for the empty one, which asks
/// for the first page, else that cursor verbatim.
pub open spec fn requested_cursor(cursor: Seq<char>) -> Option<Seq<char>> {
    if cursor.len() == 0 {
        None
    } else {
        Some(cursor)
    }
}

pub open spec fn model_uris(posts: Seq<PostModel>) -> Seq<Seq<char>> {
    posts.map_values(|p: PostModel| p.uri)
}

/// Every identifier that `admitted` emits is new to `seen`, comes from the page, and
/// comes once.
pub proof fn lemma_admitted_fresh(seen: Set<Seq<char>>, items: Seq<RawFeedItem>)
    ensures
        model_uris(admitted(seen, items)).no_duplicates(),
        forall|i: int|
            0 <= i < admitted(seen, items).len() ==> !seen.contains(
                #[trigger] admitted(seen, items)[i].uri,
            ) && item_uris(items).contains(admitted(seen, items)[i].uri),
    decreases items.len(),
{
    if items.len() > 0 {
        let prefix = items.drop_last();
        lemma_admitted_fresh(seen, prefix);
        let before = admitted(seen, prefix);
        assert forall|u: Seq<char>| item_uris(prefix).contains(u) implies #[trigger] item_uris(items).contains(u) by {
            let i = choose|i: int| 0 <= i < prefix.len() && #[trigger] prefix[i].post.uri@ == u;
            assert(items[i] == prefix[i]);
        }
        assert(items[items.len() - 1].post.uri@ == items.last().post.uri@);
        let now = admitted(seen, items);
        if !seen.union(item_uris(prefix)).contains(items.last().post.uri@) {
            let u = items.last().post.uri@;
            assert(now == before.push(normalized_item(items.last())));
            assert(now[before.len() as int].uri == u);
            assert(model_uris(now) =~= model_uris(before).push(u));
            assert forall|i: int, j: int|
                0 <= i < model_uris(now).len() && 0 <= j < model_uris(now).len() && i != j
                implies model_uris(now)[i] != model_uris(now)[j] by {
                if i < before.len() && j < before.len() {
                    assert(model_uris(before)[i] == model_uris(now)[i]);
                    assert(model_uris(before)[j] == model_uris(now)[j]);
                } else if i < before.len() {
                    assert(before[i] == now[i]);
                    assert(item_uris(prefix).contains(before[i].uri));
                } else {
                    assert(before[j] == now[j]);
                    assert(item_uris(prefix).contains(before[j].uri));
                }
            }
            assert forall|i: int| 0 <= i < now.len() implies !seen.contains(#[trigger] now[i].uri)
                && item_uris(items).contains(now[i].uri) by {
                if i < before.len() {
                    assert(before[i] == now[i]);
                    assert(item_uris(prefix).contains(before[i].uri));
                }
            }
        }
    }
}

/// Two successive pages of one feed, the second taken after the first, never hold the
/// same identifier twice between them, nor one that the feed had emitted before.
pub proof fn lemma_pages_never_repeat(
    seen: Set<Seq<char>>,
    first: Seq<RawFeedItem>,
    second: Seq<RawFeedItem>,
)
    ensures
        ({
            let both = model_uris(admitted(seen, first)) + model_uris(
                admitted(seen.union(item_uris(first)), second),
            );
            &&& both.no_duplicates()
            &&& forall|i: int| 0 <= i < both.len() ==> !seen.contains(#[trigger] both[i])
        }),
{
    let first_page = admitted(seen, first);
    let seen1 = seen.union(item_uris(first));
    let second_page = admitted(seen1, second);
    lemma_admitted_fresh(seen, first);
    lemma_admitted_fresh(seen1, second);
    let a = model_uris(first_page);
    let b = model_uris(second_page);
    let both = a + b;
    assert forall|i: int, j: int| 0 <= i < both.len() && 0 <= j < both.len() && i != j
        implies both[i] != both[j] by {
        if i < a.len() && j < a.len() {
            assert(a[i] == both[i] && a[j] == both[j]);
        } else if i >= a.len() && j >= a.len() {
            assert(b[i - a.len()] == both[i] && b[j - a.len()] == both[j]);
        } else if i < a.len() {
            assert(first_page[i].uri == both[i]);
            assert(second_page[j - a.len()].uri == both[j]);
            assert(item_uris(first).contains(first_page[i].uri));
        } else {
            assert(first_page[j].uri == both[j]);
            assert(second_page[i - a.len()].uri == both[i]);
            assert(item_uris(first).contains(first_page[j].uri));
        }
    }
    assert forall|i: int| 0 <= i < both.len() implies !seen.contains(#[trigger] both[i]) by {
        if i < a.len() {
            assert(first_page[i].uri == both[i]);
        } else {
            assert(second_page[i - a.len()].uri == both[i]);
        }
    }
}

/// A page's next cursor, fed into the following request, continues the feed exactly
/// where the remote service left it; it is empty, the end of the feed, exactly when the
/// remote service gave no cursor or an empty one.
pub proof fn lemma_cursor_round_trip(remote: Option<String>)
    ensures
        next_cursor_of(remote).len() == 0 <==> (remote is None || remote->Some_0@.len() == 0),
        remote is Some && remote->Some_0@.len() > 0 ==> requested_cursor(next_cursor_of(remote))
            == Some(remote->Some_0@),
        next_cursor_of(remote).len() == 0 ==> requested_cursor(next_cursor_of(remote)) is None,
{
}

/// The page size sent for a requested `limit`.
pub fn coerce_limit(limit: i32) -> (r: u8)
    ensures
        r as int == coerced_limit(limit as int),
        MIN_LIMIT <= r <= MAX_LIMIT,
{
    if MIN_LIMIT as i32 <= limit && limit <= MAX_LIMIT as i32 {
        limit as u8
    } else if MAX_LIMIT as i32 <= limit && limit <= u8::MAX as i32 {
        MAX_LIMIT
    } else {
        MIN_LIMIT
    }
}

/// The request for a page: an empty cursor asks for the first page and marks a fresh
/// load; any other cursor is passed on as it is.
pub fn page_request(limit: i32, cursor: String) -> (r: PageRequest)
    ensures
        r.limit as int == coerced_limit(limit as int),
        r.init == (cursor@.len() == 0),
        r.init ==> r.cursor is None,
        !r.init ==> r.cursor == Some(cursor),
        match r.cursor {
            Some(c) => requested_cursor(cursor@) == Some(c@),
            None => requested_cursor(cursor@) is None,
        },
{
    let limit = coerce_limit(limit);
    if cursor.as_str().is_empty() {
        PageRequest { limit, cursor: None, init: true }
    } else {
        PageRequest { limit, cursor: Some(cursor), init: false }
    }
}

impl FeedState {
    /// A feed that has emitted nothing.
    pub fn new() -> (r: FeedState)
        ensures
            r@ == Set::<Seq<char>>::empty(),
    {
        let r = FeedState { seen: Vec::new() };
        proof {
            assert(r@ =~= Set::<Seq<char>>::empty());
        }
        r
    }

    /// Forgets every identifier, as on a pull-to-refresh.
    pub fn reset(&mut self)
        ensures
            final(self)@ == Set::<Seq<char>>::empty(),
    {
        self.seen = Vec::new();
        proof {
            assert(self@ =~= Set::<Seq<char>>::empty());
        }
    }

    /// Whether `uri` was emitted since the last reset.
    pub fn contains(&self, uri: &String) -> (r: bool)
        ensures
            r == self@.contains(uri@),
    {
        let mut i: usize = 0;
        while i < self.seen.len()
            invariant
                i <= self.seen@.len(),
                forall|j: int| 0 <= j < i ==> self.seen@[j]@ != uri@,
            decreases self.seen@.len() - i,
        {
            if self.seen[i] == *uri {
                return true;
            }
            i = i + 1;
        }
        false
    }

    /// Records `uri` as emitted.
    pub fn insert(&mut self, uri: String)
        ensures
            final(self)@ == old(self)@.insert(uri@),
    {
        let ghost before = self.seen@;
        self.seen.push(uri);
        proof {
            assert forall|u: Seq<char>| self@.contains(u) == old(self)@.insert(uri@).contains(u) by {
                if old(self)@.contains(u) {
                    let i = choose|i: int| 0 <= i < before.len() && #[trigger] before[i]@ == u;
                    assert(self.seen@[i]@ == u);
                }
                if self@.contains(u) {
                    let i = choose|i: int| 0 <= i < self.seen@.len() && #[trigger] self.seen@[i]@ == u;
                    if i < before.len() {
                        assert(before[i]@ == u);
                    }
                }
                if u == uri@ {
                    assert(self.seen@[before.len() as int]@ == u);
                }
            }
            assert(self@ =~= old(self)@.insert(uri@));
        }
    }

    /// Takes a remote page into this feed: each item whose identifier the feed has
    /// emitted before, or that came earlier in the same page, is skipped; every other is
    /// recorded and normalised. Items keep the remote order.
    pub fn take_page(&mut self, items: Vec<RawFeedItem>, cursor: Option<String>) -> (page: Page)
        ensures
            page@.items == admitted(old(self)@, items@),
            page@.next_cursor == next_cursor_of(cursor),
            final(self)@ == old(self)@.union(item_uris(items@)),
    {
        let ghost seen0 = self@;
        let ghost all = items@;
        let mut rest = items;
        let mut out: Vec<NormalizedPost> = Vec::new();
        proof {
            assert(all.subrange(0, 0) =~= Seq::<RawFeedItem>::empty());
            assert(item_uris(Seq::<RawFeedItem>::empty()) =~= Set::<Seq<char>>::empty());
            assert(seen0.union(Set::<Seq<char>>::empty()) =~= seen0);
        }
        while rest.len() > 0
            invariant
                rest@.len() <= all.len(),
                rest@ == all.subrange(all.len() - rest@.len(), all.len() as int),
                out@.map_values(|p: NormalizedPost| p@) == admitted(
                    seen0,
                    all.subrange(0, all.len() - rest@.len()),
                ),
                self@ == seen0.union(item_uris(all.subrange(0, all.len() - rest@.len()))),
            decreases rest@.len(),
        {
            let ghost done = all.len() - rest@.len();
            let ghost before = out@;
            let ghost seen_before = self@;
            let item = rest.remove(0);
            proof {
                let next = all.subrange(0, done + 1);
                assert(next.drop_last() =~= all.subrange(0, done));
                assert(next.last() == item);
                assert(item_uris(next) =~= item_uris(all.subrange(0, done)).insert(item.post.uri@)) by {
                    assert forall|u: Seq<char>| #[trigger] item_uris(next).contains(u) implies item_uris(all.subrange(0, done)).insert(item.post.uri@).contains(u) by {
                        let i = choose|i: int| 0 <= i < next.len() && #[trigger] next[i].post.uri@ == u;
                        if i < done {
                            assert(all.subrange(0, done)[i] == next[i]);
                        }
                    }
                    assert forall|u: Seq<char>| #[trigger] item_uris(all.subrange(0, done)).contains(u) implies item_uris(next).contains(u) by {
                        let i = choose|i: int| 0 <= i < done && #[trigger] all.subrange(0, done)[i].post.uri@ == u;
                        assert(next[i] == all.subrange(0, done)[i]);
                    }
                    assert(next[done].post.uri@ == item.post.uri@);
                }
                assert(rest@ =~= all.subrange(all.len() - rest@.len(), all.len() as int));
            }
            if self.contains(&item.post.uri) {
            } else {
                let uri = item.post.uri.clone();
                self.insert(uri);
                let p = normalize_item(item);
                out.push(p);
                proof {
                    assert(out@.map_values(|p: NormalizedPost| p@) =~= before.map_values(
                        |p: NormalizedPost| p@,
                    ).push(p@));
                }
            }
            proof {
                assert(self@ =~= seen0.union(item_uris(all.subrange(0, done + 1))));
            }
        }
        proof {
            assert(all.subrange(0, all.len() as int) =~= all);
        }
        let next_cursor = match cursor {
            Some(c) => c,
            None => String::new(),
        };
        Page { items: out, next_cursor }
    }
}

} // verus!
