//! The state kept by the owner of the interface: the live session and the three feeds,
//! changed only when a worker's completion is committed on the owner's thread.
use vstd::prelude::*;
use crate::error::BackendError;
use crate::feed::{admitted, item_uris, next_cursor_of, FeedKind, FeedState, Page};
use crate::post::RawFeedItem;
use crate::profile::Profile;

verus! {

/// An authenticated handle to the remote service and the actor it speaks for.
pub struct Session<A> {
    pub agent: A,
    pub did: String,
}

/// A page as the remote service returned it.
pub struct RemotePage {
    pub items: Vec<RawFeedItem>,
    pub cursor: Option<String>,
}

/// What a worker hands back to the owner's thread.
pub enum Completion<A> {
    /// A persisted session was restored, or not.
    Restored(Result<Session<A>, BackendError>),
    /// Sign-in, its persistence and the profile lookup finished, or one failed.
    SignedIn(Result<(Session<A>, Profile), BackendError>),
    /// The persisted session was removed (a failure to remove it is not reported).
    SignedOut,
    /// A page of `kind` was fetched, or not; `init` marks a fresh load.
    PageFetched { kind: FeedKind, init: bool, result: Result<RemotePage, BackendError> },
}

/// What the owner reports to the interface after a commit.
pub enum Event {
    Initialized { did: String },
    InitializationFailed { failure: BackendError },
    SignedIn { profile: Profile },
    SignInFailed { failure: BackendError },
    SignedOut,
    PageFetched { kind: FeedKind, init: bool, page: Page },
    PageFetchFailed { kind: FeedKind, failure: BackendError },
}

/// The live session, if any, and the dedup history of each feed.
pub struct Backend<A> {
    session: Option<Session<A>>,
    timeline: FeedState,
    search: FeedState,
    author_feed: FeedState,
}

pub struct BackendModel<A> {
    pub session: Option<Session<A>>,
    pub timeline: Set<Seq<char>>,
    pub search: Set<Seq<char>>,
    pub author_feed: Set<Seq<char>>,
}

impl<A> View for Backend<A> {
    type V = BackendModel<A>;

    closed spec fn view(&self) -> BackendModel<A> {
        BackendModel {
            session: self.session,
            timeline: self.timeline@,
            search: self.search@,
            author_feed: self.author_feed@,
        }
    }
}

/// The dedup history of the feed `kind`.
pub open spec fn feed_of<A>(m: BackendModel<A>, kind: FeedKind) -> Set<Seq<char>> {
    match kind {
        FeedKind::Timeline => m.timeline,
        FeedKind::Search => m.search,
        FeedKind::AuthorFeed => m.author_feed,
    }
}

/// `m` with the history of `kind` replaced by `seen`.
pub open spec fn with_feed<A>(m: BackendModel<A>, kind: FeedKind, seen: Set<Seq<char>>) -> BackendModel<A> {
    match kind {
        FeedKind::Timeline => BackendModel { timeline: seen, ..m },
        FeedKind::Search => BackendModel { search: seen, ..m },
        FeedKind::AuthorFeed => BackendModel { author_feed: seen, ..m },
    }
}

/// `m` with `session` as its session.
pub open spec fn with_session<A>(m: BackendModel<A>, session: Option<Session<A>>) -> BackendModel<A> {
    BackendModel { session, ..m }
}

/// What an action that needs a session gets: the session, or an authentication failure.
pub open spec fn session_gate<A>(m: BackendModel<A>) -> Result<Session<A>, BackendError> {
    match m.session {
        Some(s) => Ok(s),
        None => Err(BackendError::Auth),
    }
}

/// The outcome of a restore: `NotFound` when no persisted session exists, an
/// authentication failure when one exists but could not be loaded, else the session.
pub open spec fn restored<A>(file_present: bool, loaded: Option<Session<A>>) -> Result<Session<A>, BackendError> {
    if !file_present {
        Err(BackendError::NotFound)
    } else {
        match loaded {
            Some(s) => Ok(s),
            None => Err(BackendError::Auth),
        }
    }
}

/// The outcome of a sign-in whose credentials were authenticated: usable only when they
/// were also saved.
pub open spec fn persisted<A>(agent: A, did: String, saved: bool) -> Result<Session<A>, BackendError> {
    if saved {
        Ok(Session { agent, did })
    } else {
        Err(BackendError::Auth)
    }
}

/// Decides a restore from whether the persisted file was there and what loading it gave.
pub fn restore_outcome<A>(file_present: bool, loaded: Option<Session<A>>) -> (r: Result<Session<A>, BackendError>)
    ensures
        r == restored(file_present, loaded),
{
    if !file_present {
        Err(BackendError::NotFound)
    } else {
        match loaded {
            Some(s) => Ok(s),
            None => Err(BackendError::Auth),
        }
    }
}

/// Decides a sign-in after authentication from whether its credentials were saved.
pub fn persisted_session<A>(agent: A, did: String, saved: bool) -> (r: Result<Session<A>, BackendError>)
    ensures
        r == persisted(agent, did, saved),
{
    if saved {
        Ok(Session { agent, did })
    } else {
        Err(BackendError::Auth)
    }
}

/// After a sign-out no action can get a session, and a restore, the persisted file being
/// gone, finds nothing.
pub proof fn lemma_sign_out_excludes<A>(m: BackendModel<A>, loaded: Option<Session<A>>)
    ensures
        session_gate(with_session(m, None)) == Err::<Session<A>, BackendError>(BackendError::Auth),
        restored(false, loaded) == Err::<Session<A>, BackendError>(BackendError::NotFound),
{
}

impl<A> Backend<A> {
    /// No session, and feeds that have emitted nothing.
    pub fn new() -> (r: Backend<A>)
        ensures
            r@.session is None,
            r@.timeline == Set::<Seq<char>>::empty(),
            r@.search == Set::<Seq<char>>::empty(),
            r@.author_feed == Set::<Seq<char>>::empty(),
    {
        Backend {
            session: None,
            timeline: FeedState::new(),
            search: FeedState::new(),
            author_feed: FeedState::new(),
        }
    }

    /// Whether initialisation should try to restore a session: only when none is live.
    pub fn needs_restore(&self) -> (r: bool)
        ensures
            r == (self@.session is None),
    {
        self.session.is_none()
    }

    /// The session an action runs with; an authentication failure when there is none.
    pub fn session(&self) -> (r: Result<&Session<A>, BackendError>)
        ensures
            r is Ok <==> self@.session is Some,
            r is Ok ==> *r->Ok_0 == self@.session->Some_0,
            r is Err ==> r->Err_0 == BackendError::Auth,
    {
        match &self.session {
            Some(s) => Ok(s),
            None => Err(BackendError::Auth),
        }
    }

    /// Clears the dedup history of `kind`, as on a pull-to-refresh.
    pub fn reset_feed(&mut self, kind: FeedKind)
        ensures
            final(self)@ == with_feed(old(self)@, kind, Set::<Seq<char>>::empty()),
    {
        match kind {
            FeedKind::Timeline => self.timeline.reset(),
            FeedKind::Search => self.search.reset(),
            FeedKind::AuthorFeed => self.author_feed.reset(),
        }
    }

    fn take_page(&mut self, kind: FeedKind, items: Vec<RawFeedItem>, cursor: Option<String>) -> (page: Page)
        ensures
            page@.items == admitted(feed_of(old(self)@, kind), items@),
            page@.next_cursor == next_cursor_of(cursor),
            final(self)@ == with_feed(
                old(self)@,
                kind,
                feed_of(old(self)@, kind).union(item_uris(items@)),
            ),
    {
        match kind {
            FeedKind::Timeline => self.timeline.take_page(items, cursor),
            FeedKind::Search => self.search.take_page(items, cursor),
            FeedKind::AuthorFeed => self.author_feed.take_page(items, cursor),
        }
    }

    /// Commits a worker's completion: a restored or signed-in session becomes the live
    /// one, a sign-out drops it, a fetched page goes through its feed's dedup history.
    /// A failure changes nothing. Returns the event to report.
    pub fn commit(&mut self, c: Completion<A>) -> (e: Event)
        ensures
            match c {
                Completion::Restored(Ok(s)) => final(self)@ == with_session(old(self)@, Some(s))
                    && (e matches Event::Initialized { did } && did == s.did),
                Completion::Restored(Err(f)) => final(self)@ == old(self)@
                    && e == (Event::InitializationFailed { failure: f }),
                Completion::SignedIn(Ok((s, p))) => final(self)@ == with_session(old(self)@, Some(s))
                    && e == (Event::SignedIn { profile: p }),
                Completion::SignedIn(Err(f)) => final(self)@ == old(self)@
                    && e == (Event::SignInFailed { failure: f }),
                Completion::SignedOut => final(self)@ == with_session(old(self)@, None)
                    && e == Event::SignedOut,
                Completion::PageFetched { kind, init, result: Ok(rp) } => final(self)@ == with_feed(
                    old(self)@,
                    kind,
                    feed_of(old(self)@, kind).union(item_uris(rp.items@)),
                ) && (e matches Event::PageFetched { kind: k, init: i, page }
                    && k == kind && i == init
                    && page@.items == admitted(feed_of(old(self)@, kind), rp.items@)
                    && page@.next_cursor == next_cursor_of(rp.cursor)),
                Completion::PageFetched { kind, init, result: Err(f) } => final(self)@ == old(self)@
                    && e == (Event::PageFetchFailed { kind, failure: f }),
            },
    {
        match c {
            Completion::Restored(Ok(s)) => {
                let did = s.did.clone();
                self.session = Some(s);
                Event::Initialized { did }
            },
            Completion::Restored(Err(f)) => Event::InitializationFailed { failure: f },
            Completion::SignedIn(Ok((s, p))) => {
                self.session = Some(s);
                Event::SignedIn { profile: p }
            },
            Completion::SignedIn(Err(f)) => Event::SignInFailed { failure: f },
            Completion::SignedOut => {
                self.session = None;
                Event::SignedOut
            },
            Completion::PageFetched { kind, init, result: Ok(rp) } => {
                let page = self.take_page(kind, rp.items, rp.cursor);
                Event::PageFetched { kind, init, page }
            },
            Completion::PageFetched { kind, init, result: Err(f) } => Event::PageFetchFailed {
                kind,
                failure: f,
            },
        }
    }
}

} // verus!
