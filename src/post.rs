//! Post view normalisation: heterogeneous remote post shapes to one flat record.
use vstd::prelude::*;

verus! {

/// A post author as the remote service reports it; the optional fields may be absent.
pub struct RawAuthor {
    pub did: String,
    pub handle: String,
    pub display_name: Option<String>,
    pub avatar: Option<String>,
}

/// One embed of a quoted post, by the discriminant of the remote union.
pub enum RawQuotedEmbed {
    Images { thumbs: Vec<String> },
    External,
    Video,
    Record,
    RecordWithMedia,
    Unrecognized,
}

/// A quoted post that the remote service could show.
pub struct RawQuotedPost {
    pub uri: String,
    pub author: RawAuthor,
    pub text: Option<String>,
    pub indexed_at: String,
    pub embeds: Option<Vec<RawQuotedEmbed>>,
}

/// The embed union of a post, by its discriminant.
pub enum RawEmbed {
    Images { thumbs: Vec<String> },
    External { uri: String, title: String, description: String, thumb: Option<String> },
    Video { playlist: String, thumbnail: Option<String> },
    /// A quoted record; `None` when it is not a post that can be shown
    /// (deleted, blocked, detached, or another kind of record).
    Record { quoted: Option<RawQuotedPost> },
    RecordWithMedia,
    Unrecognized,
}

/// A post as the remote service reports it.
pub struct RawPost {
    pub uri: String,
    pub cid: String,
    pub author: RawAuthor,
    /// The text of the post record, where the record could be read.
    pub text: Option<String>,
    pub indexed_at: String,
    pub reply_count: Option<i64>,
    pub like_count: Option<i64>,
    pub repost_count: Option<i64>,
    pub quote_count: Option<i64>,
    pub embed: Option<RawEmbed>,
    /// The record uri of the viewer's like, if the viewer liked the post.
    pub viewer_like: Option<String>,
}

/// Why a post appears in a feed.
pub enum RawReason {
    Repost { by_handle: String, by_display_name: Option<String> },
    Pin,
    Unrecognized,
}

/// One entry of a remote feed page.
pub struct RawFeedItem {
    pub post: RawPost,
    pub reason: Option<RawReason>,
}

pub struct Author {
    pub did: String,
    pub handle: String,
    pub display_name: String,
    pub avatar: String,
}

pub enum QuotedEmbed {
    Images { thumbs: Vec<String> },
    Other,
}

pub struct QuotedPost {
    pub uri: String,
    pub author: Author,
    pub text: String,
    pub posted_at: String,
    pub embeds: Vec<QuotedEmbed>,
}

/// The embed of a normalised post: exactly one of five states.
pub enum Embed {
    Empty,
    Images { thumbs: Vec<String> },
    External { uri: String, title: String, description: String, thumb: String },
    Video { playlist: String, thumb: String },
    /// A quoted post, absent when the quoted content cannot be shown.
    Quote { post: Option<QuotedPost> },
}

/// The flat, display-ready record of a post.
pub struct NormalizedPost {
    pub uri: String,
    pub cid: String,
    pub author: Author,
    pub text: String,
    pub posted_at: String,
    pub reply_count: i64,
    pub like_count: i64,
    /// Reposts and quotes together.
    pub quote_and_repost_count: i128,
    pub embed: Embed,
    /// The record uri of the viewer's like; empty if not liked.
    pub viewer_like_uri: String,
    pub reposted_by: String,
}

pub struct AuthorModel {
    pub did: Seq<char>,
    pub handle: Seq<char>,
    pub display_name: Seq<char>,
    pub avatar: Seq<char>,
}

pub enum QuotedEmbedModel {
    Images { thumbs: Seq<Seq<char>> },
    Other,
}

pub struct QuotedPostModel {
    pub uri: Seq<char>,
    pub author: AuthorModel,
    pub text: Seq<char>,
    pub posted_at: Seq<char>,
    pub embeds: Seq<QuotedEmbedModel>,
}

pub enum EmbedModel {
    Empty,
    Images { thumbs: Seq<Seq<char>> },
    External { uri: Seq<char>, title: Seq<char>, description: Seq<char>, thumb: Seq<char> },
    Video { playlist: Seq<char>, thumb: Seq<char> },
    Quote { post: Option<QuotedPostModel> },
}

pub struct PostModel {
    pub uri: Seq<char>,
    pub cid: Seq<char>,
    pub author: AuthorModel,
    pub text: Seq<char>,
    pub posted_at: Seq<char>,
    pub reply_count: int,
    pub like_count: int,
    pub quote_and_repost_count: int,
    pub embed: EmbedModel,
    pub viewer_like_uri: Seq<char>,
    pub reposted_by: Seq<char>,
}

pub open spec fn strings_view(v: Vec<String>) -> Seq<Seq<char>> {
    v@.map_values(|s: String| s@)
}

impl View for Author {
    type V = AuthorModel;

    open spec fn view(&self) -> AuthorModel {
        AuthorModel {
            did: self.did@,
            handle: self.handle@,
            display_name: self.display_name@,
            avatar: self.avatar@,
        }
    }
}

impl View for QuotedEmbed {
    type V = QuotedEmbedModel;

    open spec fn view(&self) -> QuotedEmbedModel {
        match self {
            QuotedEmbed::Images { thumbs } => QuotedEmbedModel::Images { thumbs: strings_view(*thumbs) },
            QuotedEmbed::Other => QuotedEmbedModel::Other,
        }
    }
}

impl View for QuotedPost {
    type V = QuotedPostModel;

    open spec fn view(&self) -> QuotedPostModel {
        QuotedPostModel {
            uri: self.uri@,
            author: self.author@,
            text: self.text@,
            posted_at: self.posted_at@,
            embeds: self.embeds@.map_values(|e: QuotedEmbed| e@),
        }
    }
}

impl View for Embed {
    type V = EmbedModel;

    open spec fn view(&self) -> EmbedModel {
        match self {
            Embed::Empty => EmbedModel::Empty,
            Embed::Images { thumbs } => EmbedModel::Images { thumbs: strings_view(*thumbs) },
            Embed::External { uri, title, description, thumb } => EmbedModel::External {
                uri: uri@,
                title: title@,
                description: description@,
                thumb: thumb@,
            },
            Embed::Video { playlist, thumb } => EmbedModel::Video { playlist: playlist@, thumb: thumb@ },
            Embed::Quote { post } => EmbedModel::Quote {
                post: match post {
                    Some(q) => Some(q@),
                    None => None,
                },
            },
        }
    }
}

impl View for NormalizedPost {
    type V = PostModel;

    open spec fn view(&self) -> PostModel {
        PostModel {
            uri: self.uri@,
            cid: self.cid@,
            author: self.author@,
            text: self.text@,
            posted_at: self.posted_at@,
            reply_count: self.reply_count as int,
            like_count: self.like_count as int,
            quote_and_repost_count: self.quote_and_repost_count as int,
            embed: self.embed@,
            viewer_like_uri: self.viewer_like_uri@,
            reposted_by: self.reposted_by@,
        }
    }
}

/// An absent text reads as the empty string.
pub open spec fn text_or_empty(o: Option<String>) -> Seq<char> {
    match o {
        Some(s) => s@,
        None => Seq::empty(),
    }
}

/// An absent count reads as zero.
pub open spec fn count_or_zero(o: Option<i64>) -> int {
    match o {
        Some(n) => n as int,
        None => 0,
    }
}

pub open spec fn normalized_author(a: RawAuthor) -> AuthorModel {
    AuthorModel {
        did: a.did@,
        handle: a.handle@,
        display_name: text_or_empty(a.display_name),
        avatar: text_or_empty(a.avatar),
    }
}

/// Only image sets are kept among a quoted post's embeds; any other takes an `Other` slot.
pub open spec fn normalized_quoted_embed(e: RawQuotedEmbed) -> QuotedEmbedModel {
    match e {
        RawQuotedEmbed::Images { thumbs } => QuotedEmbedModel::Images { thumbs: strings_view(thumbs) },
        _ => QuotedEmbedModel::Other,
    }
}

pub open spec fn normalized_quoted_embeds(v: Seq<RawQuotedEmbed>) -> Seq<QuotedEmbedModel> {
    v.map_values(|e: RawQuotedEmbed| normalized_quoted_embed(e))
}

pub open spec fn normalized_quote(q: RawQuotedPost) -> QuotedPostModel {
    QuotedPostModel {
        uri: q.uri@,
        author: normalized_author(q.author),
        text: text_or_empty(q.text),
        posted_at: q.indexed_at@,
        embeds: match q.embeds {
            Some(v) => normalized_quoted_embeds(v@),
            None => Seq::empty(),
        },
    }
}

/// The embed chosen by the discriminant; unknown kinds, and a record with media, give none.
pub open spec fn normalized_embed(e: Option<RawEmbed>) -> EmbedModel {
    match e {
        Some(RawEmbed::Images { thumbs }) => EmbedModel::Images { thumbs: strings_view(thumbs) },
        Some(RawEmbed::External { uri, title, description, thumb }) => EmbedModel::External {
            uri: uri@,
            title: title@,
            description: description@,
            thumb: text_or_empty(thumb),
        },
        Some(RawEmbed::Video { playlist, thumbnail }) => EmbedModel::Video {
            playlist: playlist@,
            thumb: text_or_empty(thumbnail),
        },
        Some(RawEmbed::Record { quoted }) => EmbedModel::Quote {
            post: match quoted {
                Some(q) => Some(normalized_quote(q)),
                None => None,
            },
        },
        _ => EmbedModel::Empty,
    }
}

/// The normalised record of `raw`, shown as reposted by `reposted_by` (empty if it was not).
pub open spec fn normalized(raw: RawPost, reposted_by: Seq<char>) -> PostModel {
    PostModel {
        uri: raw.uri@,
        cid: raw.cid@,
        author: normalized_author(raw.author),
        text: text_or_empty(raw.text),
        posted_at: raw.indexed_at@,
        reply_count: count_or_zero(raw.reply_count),
        like_count: count_or_zero(raw.like_count),
        quote_and_repost_count: count_or_zero(raw.repost_count) + count_or_zero(raw.quote_count),
        embed: normalized_embed(raw.embed),
        viewer_like_uri: text_or_empty(raw.viewer_like),
        reposted_by,
    }
}

/// The label of a feed item's reason: the reposter's display name if it has one, else
/// its handle; empty for any other reason.
pub open spec fn repost_label(reason: Option<RawReason>) -> Seq<char> {
    match reason {
        Some(RawReason::Repost { by_handle, by_display_name }) => match by_display_name {
            Some(name) => name@,
            None => by_handle@,
        },
        _ => Seq::empty(),
    }
}

pub open spec fn normalized_item(item: RawFeedItem) -> PostModel {
    normalized(item.post, repost_label(item.reason))
}

/// With every optional field absent, the record still comes out: empty texts, zero
/// counts, and no embed.
pub proof fn lemma_normalize_defaults(raw: RawPost, reposted_by: Seq<char>)
    requires
        raw.author.display_name is None,
        raw.author.avatar is None,
        raw.text is None,
        raw.reply_count is None,
        raw.like_count is None,
        raw.repost_count is None,
        raw.quote_count is None,
        raw.embed is None,
        raw.viewer_like is None,
    ensures
        ({
            let r = normalized(raw, reposted_by);
            &&& r.author.display_name.len() == 0
            &&& r.author.avatar.len() == 0
            &&& r.text.len() == 0
            &&& r.reply_count == 0
            &&& r.like_count == 0
            &&& r.quote_and_repost_count == 0
            &&& r.embed == EmbedModel::Empty
            &&& r.viewer_like_uri.len() == 0
        }),
{
}

/// The combined figure is the sum of the reported repost and quote counts, each zero
/// when absent.
pub proof fn lemma_engagement_sum(raw: RawPost, reposted_by: Seq<char>)
    ensures
        normalized(raw, reposted_by).quote_and_repost_count == count_or_zero(raw.repost_count)
            + count_or_zero(raw.quote_count),
        raw.repost_count is None && raw.quote_count is None ==> normalized(
            raw,
            reposted_by,
        ).quote_and_repost_count == 0,
{
}

pub(crate) fn or_empty(o: Option<String>) -> (r: String)
    ensures
        r@ == text_or_empty(o),
{
    match o {
        Some(s) => s,
        None => String::new(),
    }
}

fn or_zero(o: Option<i64>) -> (r: i64)
    ensures
        r as int == count_or_zero(o),
{
    match o {
        Some(n) => n,
        None => 0,
    }
}

fn normalize_author(a: RawAuthor) -> (r: Author)
    ensures
        r@ == normalized_author(a),
{
    Author {
        did: a.did,
        handle: a.handle,
        display_name: or_empty(a.display_name),
        avatar: or_empty(a.avatar),
    }
}

fn normalize_quoted_embeds(v: Vec<RawQuotedEmbed>) -> (r: Vec<QuotedEmbed>)
    ensures
        r@.map_values(|e: QuotedEmbed| e@) == normalized_quoted_embeds(v@),
{
    let ghost all = v@;
    let mut rest = v;
    let mut out: Vec<QuotedEmbed> = Vec::new();
    while rest.len() > 0
        invariant
            rest@.len() <= all.len(),
            rest@ == all.subrange(all.len() - rest@.len(), all.len() as int),
            out@.map_values(|e: QuotedEmbed| e@) == normalized_quoted_embeds(
                all.subrange(0, all.len() - rest@.len()),
            ),
        decreases rest@.len(),
    {
        let ghost done = all.len() - rest@.len();
        let ghost before = out@;
        let e = rest.remove(0);
        let q = match e {
            RawQuotedEmbed::Images { thumbs } => QuotedEmbed::Images { thumbs },
            _ => QuotedEmbed::Other,
        };
        out.push(q);
        proof {
            assert(all.subrange(0, done + 1) =~= all.subrange(0, done).push(all[done]));
            assert(out@.map_values(|e: QuotedEmbed| e@) =~= before.map_values(
                |e: QuotedEmbed| e@,
            ).push(q@));
            assert(normalized_quoted_embeds(all.subrange(0, done + 1)) =~= normalized_quoted_embeds(
                all.subrange(0, done),
            ).push(normalized_quoted_embed(all[done])));
            assert(rest@ =~= all.subrange(all.len() - rest@.len(), all.len() as int));
        }
    }
    proof {
        assert(all.subrange(0, all.len() as int) =~= all);
    }
    out
}

fn normalize_quote(q: RawQuotedPost) -> (r: QuotedPost)
    ensures
        r@ == normalized_quote(q),
{
    let embeds = match q.embeds {
        Some(v) => normalize_quoted_embeds(v),
        None => Vec::new(),
    };
    let r = QuotedPost {
        uri: q.uri,
        author: normalize_author(q.author),
        text: or_empty(q.text),
        posted_at: q.indexed_at,
        embeds,
    };
    proof {
        assert(r@.embeds =~= normalized_quote(q).embeds);
    }
    r
}

fn normalize_embed(e: Option<RawEmbed>) -> (r: Embed)
    ensures
        r@ == normalized_embed(e),
{
    match e {
        Some(RawEmbed::Images { thumbs }) => Embed::Images { thumbs },
        Some(RawEmbed::External { uri, title, description, thumb }) => Embed::External {
            uri,
            title,
            description,
            thumb: or_empty(thumb),
        },
        Some(RawEmbed::Video { playlist, thumbnail }) => Embed::Video {
            playlist,
            thumb: or_empty(thumbnail),
        },
        Some(RawEmbed::Record { quoted }) => Embed::Quote {
            post: match quoted {
                Some(q) => Some(normalize_quote(q)),
                None => None,
            },
        },
        _ => Embed::Empty,
    }
}

/// Flattens `raw` into the display record. Never fails: absent optional fields read as
/// empty strings and zero counts, and the embed is chosen by its discriminant.
pub fn normalize(raw: RawPost, reposted_by: String) -> (r: NormalizedPost)
    ensures
        r@ == normalized(raw, reposted_by@),
{
    let reposts = or_zero(raw.repost_count);
    let quotes = or_zero(raw.quote_count);
    NormalizedPost {
        uri: raw.uri,
        cid: raw.cid,
        author: normalize_author(raw.author),
        text: or_empty(raw.text),
        posted_at: raw.indexed_at,
        reply_count: or_zero(raw.reply_count),
        like_count: or_zero(raw.like_count),
        quote_and_repost_count: reposts as i128 + quotes as i128,
        embed: normalize_embed(raw.embed),
        viewer_like_uri: or_empty(raw.viewer_like),
        reposted_by,
    }
}

/// The "reposted by" label of a feed item.
pub fn reposted_by_label(reason: Option<RawReason>) -> (r: String)
    ensures
        r@ == repost_label(reason),
{
    match reason {
        Some(RawReason::Repost { by_handle, by_display_name }) => match by_display_name {
            Some(name) => name,
            None => by_handle,
        },
        _ => String::new(),
    }
}

/// Normalises one feed item, labelled by its reason.
pub fn normalize_item(item: RawFeedItem) -> (r: NormalizedPost)
    ensures
        r@ == normalized_item(item),
{
    let label = reposted_by_label(item.reason);
    normalize(item.post, label)
}

} // verus!
