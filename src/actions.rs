//! The decisions around single remote actions: the identifiers they carry, the posts a
//! lookup yields, and the all-or-nothing assembly of a post with images.
use vstd::prelude::*;
use atrium_api::types::string::{Cid, Did};
use crate::error::BackendError;
use crate::post::{normalize, normalized, NormalizedPost, PostModel, RawPost};

verus! {

#[verifier::external_type_specification]
#[verifier::external_body]
pub struct ExDid(Did);

#[verifier::external_type_specification]
#[verifier::external_body]
pub struct ExCid(Cid);

pub open spec fn is_ascii_alnum(c: char) -> bool {
    ('a' <= c && c <= 'z') || ('A' <= c && c <= 'Z') || ('0' <= c && c <= '9')
}

pub open spec fn is_did_tail_char(c: char) -> bool {
    is_ascii_alnum(c) || c == '.' || c == '_' || c == '-'
}

pub open spec fn is_did_body_char(c: char) -> bool {
    is_did_tail_char(c) || c == ':' || c == '%'
}

/// The DID syntax: `did:`, a method of lower-case letters, `:`, then one or more of
/// letters, digits and `._:%-`, not ending in `:` or `%`; at most 2048 characters.
pub open spec fn did_syntax(s: Seq<char>) -> bool {
    &&& s.len() <= 2048
    &&& s.len() >= 4 && s[0] == 'd' && s[1] == 'i' && s[2] == 'd' && s[3] == ':'
    &&& exists|m: int|
        4 < m && m + 1 < s.len() && #[trigger] s[m] == ':'
            && (forall|i: int| 4 <= i < m ==> 'a' <= #[trigger] s[i] && s[i] <= 'z')
            && (forall|i: int| m < i < s.len() ==> is_did_body_char(#[trigger] s[i]))
    &&& is_did_tail_char(s.last())
}

/// Whether the text is a CID that the content-identifier library accepts.
pub uninterp spec fn cid_parses(s: Seq<char>) -> bool;

/// The path of the text read as an absolute URL; `None` where it is not one.
pub uninterp spec fn url_path_of(s: Seq<char>) -> Option<Seq<char>>;

/// Relies on atrium_api's `Did::new`: it accepts exactly the strings of at most 2048
/// bytes that match `^did:[a-z]+:[a-zA-Z0-9._:%-]*[a-zA-Z0-9._-]$`.
#[verifier::external_body]
fn parse_did(s: String) -> (r: Option<Did>)
    ensures
        r is Some <==> did_syntax(s@),
{
    Did::new(s).ok()
}

/// Relies on atrium_api's `Cid::from_str`: whether it succeeds depends on the text alone.
#[verifier::external_body]
fn parse_cid(s: &str) -> (r: Option<Cid>)
    ensures
        r is Some <==> cid_parses(s@),
{
    s.parse::<Cid>().ok()
}

/// Relies on url's `Url::parse` and `Url::path`: the path of an absolute URL, a function
/// of the text alone.
#[verifier::external_body]
fn url_path(s: &str) -> (r: Option<String>)
    ensures
        match r {
            Some(p) => url_path_of(s@) == Some(p@),
            None => url_path_of(s@) is None,
        },
{
    url::Url::parse(s).ok().map(|u| u.path().to_string())
}

/// The actor identifier a request names: the text as a DID, or a validation failure.
pub fn actor_did(did: String) -> (r: Result<Did, BackendError>)
    ensures
        r is Ok <==> did_syntax(did@),
        r is Err ==> r->Err_0 == BackendError::Validation,
{
    match parse_did(did) {
        Some(d) => Ok(d),
        None => Err(BackendError::Validation),
    }
}

/// The post a like refers to.
pub struct LikeSubject {
    pub uri: String,
    pub cid: Cid,
}

/// The subject of a like of the post `uri` with content identifier `cid`.
pub fn like_subject(uri: String, cid: String) -> (r: Result<LikeSubject, BackendError>)
    ensures
        r is Ok <==> cid_parses(cid@),
        r is Ok ==> r->Ok_0.uri == uri,
        r is Err ==> r->Err_0 == BackendError::Validation,
{
    match parse_cid(cid.as_str()) {
        Some(c) => Ok(LikeSubject { uri, cid: c }),
        None => Err(BackendError::Validation),
    }
}

/// Whether every image uri reads as a URL with a path.
pub open spec fn all_paths(uris: Seq<String>) -> bool {
    forall|i: int| 0 <= i < uris.len() ==> (#[trigger] url_path_of(uris[i]@)) is Some
}

/// The file paths of the image uris, in order, where each has one.
pub open spec fn paths_of(uris: Seq<String>) -> Seq<Seq<char>> {
    uris.map_values(|u: String| url_path_of(u@)->Some_0)
}

/// The file path of each image uri, in order; if any is not a URL, the post with
/// attachments cannot be made and nothing is returned but the failure.
pub fn image_paths(uris: &Vec<String>) -> (r: Result<Vec<String>, BackendError>)
    ensures
        r is Ok <==> all_paths(uris@),
        r is Ok ==> r->Ok_0@.map_values(|p: String| p@) == paths_of(uris@),
        r is Err ==> r->Err_0 == BackendError::Partial,
{
    let mut out: Vec<String> = Vec::new();
    let mut i: usize = 0;
    while i < uris.len()
        invariant
            i <= uris@.len(),
            forall|j: int| 0 <= j < i ==> (#[trigger] url_path_of(uris@[j]@)) is Some,
            out@.map_values(|p: String| p@) == paths_of(uris@.subrange(0, i as int)),
        decreases uris@.len() - i,
    {
        let ghost before = out@;
        match url_path(uris[i].as_str()) {
            Some(p) => {
                out.push(p);
                proof {
                    assert(uris@.subrange(0, i + 1) =~= uris@.subrange(0, i as int).push(uris@[i as int]));
                    assert(out@.map_values(|p: String| p@) =~= before.map_values(|p: String| p@).push(
                        out@[i as int]@,
                    ));
                    assert(paths_of(uris@.subrange(0, i + 1)) =~= paths_of(
                        uris@.subrange(0, i as int),
                    ).push(url_path_of(uris@[i as int]@)->Some_0));
                }
            },
            None => {
                return Err(BackendError::Partial);
            },
        }
        i = i + 1;
    }
    proof {
        assert(uris@.subrange(0, uris@.len() as int) =~= uris@);
    }
    Ok(out)
}

/// Whether every upload succeeded.
pub open spec fn all_uploaded<B>(uploads: Seq<Result<B, BackendError>>) -> bool {
    forall|i: int| 0 <= i < uploads.len() ==> (#[trigger] uploads[i]) is Ok
}

/// The uploaded blob references, in order.
pub open spec fn uploaded<B>(uploads: Seq<Result<B, BackendError>>) -> Seq<B> {
    uploads.map_values(|u: Result<B, BackendError>| u->Ok_0)
}

/// A post ready to be created: its text, and its image set if it has images.
pub struct PostPlan<B> {
    pub text: String,
    pub images: Option<Vec<B>>,
}

/// A post is made only when every image upload succeeded; then it refers to each blob in
/// order, and has no image set when it has no images.
pub fn plan_post<B>(text: String, uploads: Vec<Result<B, BackendError>>) -> (r: Result<PostPlan<B>, BackendError>)
    ensures
        r is Ok <==> all_uploaded(uploads@),
        r is Err ==> r->Err_0 == BackendError::Partial,
        r is Ok ==> r->Ok_0.text == text,
        r is Ok && uploads@.len() == 0 ==> r->Ok_0.images is None,
        r is Ok && uploads@.len() > 0 ==> r->Ok_0.images is Some && r->Ok_0.images->Some_0@
            == uploaded(uploads@),
{
    let ghost all = uploads@;
    let empty = uploads.len() == 0;
    let mut rest = uploads;
    let mut blobs: Vec<B> = Vec::new();
    while rest.len() > 0
        invariant
            rest@.len() <= all.len(),
            rest@ == all.subrange(all.len() - rest@.len(), all.len() as int),
            all == uploads@,
            all_uploaded(all.subrange(0, all.len() - rest@.len())),
            blobs@ == uploaded(all.subrange(0, all.len() - rest@.len())),
        decreases rest@.len(),
    {
        let ghost done = all.len() - rest@.len();
        let ghost before = blobs@;
        let u = rest.remove(0);
        proof {
            assert(u == all[done]);
            assert(rest@ =~= all.subrange(all.len() - rest@.len(), all.len() as int));
            assert(all.subrange(0, done + 1) =~= all.subrange(0, done).push(u));
        }
        match u {
            Ok(b) => {
                blobs.push(b);
                proof {
                    assert(blobs@ =~= uploaded(all.subrange(0, done + 1)));
                    assert forall|i: int| 0 <= i < done + 1 implies (#[trigger] all.subrange(0, done + 1)[i]) is Ok by {
                        if i < done {
                            assert(all.subrange(0, done + 1)[i] == all.subrange(0, done)[i]);
                        }
                    }
                }
            },
            Err(_) => {
                proof {
                    assert(all[done] is Err);
                }
                return Err(BackendError::Partial);
            },
        }
    }
    proof {
        assert(all.subrange(0, all.len() as int) =~= all);
    }
    if empty {
        Ok(PostPlan { text, images: None })
    } else {
        Ok(PostPlan { text, images: Some(blobs) })
    }
}

/// A post with attachments none of whose uploads may fail: one failed upload, wherever it
/// stands, means no post.
pub proof fn lemma_failed_upload_aborts<B>(uploads: Seq<Result<B, BackendError>>, i: int)
    requires
        0 <= i < uploads.len(),
        uploads[i] is Err,
    ensures
        !all_uploaded(uploads),
{
}

/// The post a lookup by uri yields: the first returned, or a remote failure if none was.
pub fn first_post(posts: Vec<RawPost>) -> (r: Result<NormalizedPost, BackendError>)
    ensures
        r is Ok <==> posts@.len() > 0,
        r is Ok ==> r->Ok_0@ == normalized(posts@[0], Seq::empty()),
        r is Err ==> r->Err_0 == BackendError::Remote,
{
    let mut posts = posts;
    if posts.len() == 0 {
        Err(BackendError::Remote)
    } else {
        let p = posts.remove(0);
        Ok(normalize(p, String::new()))
    }
}

/// A reply in a thread: a post, or one that cannot be shown.
pub enum RawReply {
    Post(RawPost),
    NotFound,
    Blocked,
    Unrecognized,
}

/// The thread a post lookup returns.
pub enum RawThread {
    Post { replies: Option<Vec<RawReply>> },
    NotFound,
    Blocked,
    Unrecognized,
}

/// The replies that can be shown, normalised, in order.
pub open spec fn reply_posts(replies: Seq<RawReply>) -> Seq<PostModel>
    decreases replies.len(),
{
    if replies.len() == 0 {
        Seq::empty()
    } else {
        let before = reply_posts(replies.drop_last());
        match replies.last() {
            RawReply::Post(p) => before.push(normalized(p, Seq::empty())),
            _ => before,
        }
    }
}

/// The replies of a thread: a remote failure unless the thread is a post with a reply
/// list; else each reply that is a post, normalised, in order.
pub fn thread_replies(thread: RawThread) -> (r: Result<Vec<NormalizedPost>, BackendError>)
    ensures
        r is Ok <==> (thread matches RawThread::Post { replies: Some(_) }),
        r is Err ==> r->Err_0 == BackendError::Remote,
        r is Ok ==> (thread matches RawThread::Post { replies: Some(v) } && r->Ok_0@.map_values(
            |p: NormalizedPost| p@,
        ) == reply_posts(v@)),
{
    match thread {
        RawThread::Post { replies: Some(v) } => {
            let ghost all = v@;
            let mut rest = v;
            let mut out: Vec<NormalizedPost> = Vec::new();
            while rest.len() > 0
                invariant
                    rest@.len() <= all.len(),
                    rest@ == all.subrange(all.len() - rest@.len(), all.len() as int),
                    out@.map_values(|p: NormalizedPost| p@) == reply_posts(
                        all.subrange(0, all.len() - rest@.len()),
                    ),
                decreases rest@.len(),
            {
                let ghost done = all.len() - rest@.len();
                let ghost before = out@;
                let reply = rest.remove(0);
                proof {
                    let next = all.subrange(0, done + 1);
                    assert(next.drop_last() =~= all.subrange(0, done));
                    assert(next.last() == reply);
                    assert(rest@ =~= all.subrange(all.len() - rest@.len(), all.len() as int));
                }
                match reply {
                    RawReply::Post(p) => {
                        let n = normalize(p, String::new());
                        out.push(n);
                        proof {
                            assert(out@.map_values(|p: NormalizedPost| p@) =~= before.map_values(
                                |p: NormalizedPost| p@,
                            ).push(n@));
                        }
                    },
                    _ => {},
                }
            }
            proof {
                assert(all.subrange(0, all.len() as int) =~= all);
            }
            Ok(out)
        },
        _ => Err(BackendError::Remote),
    }
}

} // verus!
