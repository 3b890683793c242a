use bluedog::actions::{actor_did, first_post, image_paths, like_subject, plan_post, thread_replies, RawReply, RawThread};
use bluedog::error::BackendError;
use bluedog::post::{RawAuthor, RawPost};
use bluedog::profile::{normalize_profile, Profile, RawProfile, RawViewerState};
use bluedog::resources::load;
use bluedog::session::{persisted_session, restore_outcome, Backend, Completion, Event, Session};

fn session(did: &str) -> Session<u32> {
    Session { agent: 7, did: did.to_string() }
}

fn profile(did: &str) -> Profile {
    normalize_profile(RawProfile {
        did: did.to_string(),
        handle: "me.example".to_string(),
        display_name: None,
        avatar: None,
        banner: None,
        followers_count: None,
        follows_count: None,
        posts_count: None,
        description: None,
        viewer: None,
    })
}

fn raw_post(uri: &str) -> RawPost {
    RawPost {
        uri: uri.to_string(),
        cid: "c".to_string(),
        author: RawAuthor { did: "did:plc:x".to_string(), handle: "x".to_string(), display_name: None, avatar: None },
        text: None,
        indexed_at: "t".to_string(),
        reply_count: None,
        like_count: None,
        repost_count: None,
        quote_count: None,
        embed: None,
        viewer_like: None,
    }
}

#[test]
fn sign_out_then_actions_fail_and_restore_finds_nothing() {
    let mut backend: Backend<u32> = Backend::new();
    assert_eq!(backend.session().err(), Some(BackendError::Auth));
    let ev = backend.commit(Completion::SignedIn(Ok((session("did:plc:me"), profile("did:plc:me")))));
    assert!(matches!(ev, Event::SignedIn { .. }));
    assert_eq!(backend.session().ok().map(|s| s.did.clone()), Some("did:plc:me".to_string()));
    assert!(!backend.needs_restore());
    assert!(matches!(backend.commit(Completion::SignedOut), Event::SignedOut));
    assert_eq!(backend.session().err(), Some(BackendError::Auth));
    assert!(backend.needs_restore());
    let restored = restore_outcome::<u32>(false, None);
    assert_eq!(restored.err(), Some(BackendError::NotFound));
}

#[test]
fn restore_outcomes() {
    assert_eq!(restore_outcome::<u32>(true, None).err(), Some(BackendError::Auth));
    let ok = restore_outcome(true, Some(session("did:plc:r"))).ok().unwrap();
    assert_eq!(ok.did, "did:plc:r");
    let mut backend: Backend<u32> = Backend::new();
    match backend.commit(Completion::Restored(Ok(ok))) {
        Event::Initialized { did } => assert_eq!(did, "did:plc:r"),
        _ => panic!("expected initialisation"),
    }
    assert!(backend.session().is_ok());
}

#[test]
fn failed_sign_in_keeps_no_session() {
    let mut backend: Backend<u32> = Backend::new();
    match backend.commit(Completion::SignedIn(Err(BackendError::Auth))) {
        Event::SignInFailed { failure } => assert_eq!(failure, BackendError::Auth),
        _ => panic!("expected a failure"),
    }
    assert!(backend.session().is_err());
    match backend.commit(Completion::Restored(Err(BackendError::NotFound))) {
        Event::InitializationFailed { failure } => assert_eq!(failure, BackendError::NotFound),
        _ => panic!("expected a failure"),
    }
}

#[test]
fn unsaved_sign_in_is_not_usable() {
    assert_eq!(persisted_session(1u32, "did:plc:a".to_string(), false).err(), Some(BackendError::Auth));
    let s = persisted_session(1u32, "did:plc:a".to_string(), true).ok().unwrap();
    assert_eq!(s.agent, 1);
    assert_eq!(s.did, "did:plc:a");
}

#[test]
fn second_upload_fails_no_post() {
    let uploads: Vec<Result<&str, BackendError>> = vec![Ok("blob-1"), Err(BackendError::Remote)];
    let plan = plan_post("hello".to_string(), uploads);
    assert_eq!(plan.err(), Some(BackendError::Partial));
}

#[test]
fn all_uploads_succeed() {
    let uploads: Vec<Result<&str, BackendError>> = vec![Ok("blob-1"), Ok("blob-2")];
    let plan = plan_post("hello".to_string(), uploads).ok().unwrap();
    assert_eq!(plan.text, "hello");
    assert_eq!(plan.images, Some(vec!["blob-1", "blob-2"]));
    let none = plan_post::<&str>("plain".to_string(), Vec::new()).ok().unwrap();
    assert_eq!(none.images, None);
}

#[test]
fn image_paths_from_file_uris() {
    let uris = vec!["file:///home/u/a.jpg".to_string(), "file:///tmp/b%20c.png".to_string()];
    let paths = image_paths(&uris).ok().unwrap();
    assert_eq!(paths, vec!["/home/u/a.jpg", "/tmp/b%20c.png"]);
    let bad = vec!["file:///ok.jpg".to_string(), "not a url".to_string()];
    assert_eq!(image_paths(&bad).err(), Some(BackendError::Partial));
}

#[test]
fn actor_dids() {
    assert!(actor_did("did:plc:abc123".to_string()).is_ok());
    assert!(actor_did("did:web:example.com".to_string()).is_ok());
    assert_eq!(actor_did("alice.example".to_string()).err(), Some(BackendError::Validation));
    assert_eq!(actor_did("did:plc:".to_string()).err(), Some(BackendError::Validation));
    assert_eq!(actor_did("did:PLC:abc".to_string()).err(), Some(BackendError::Validation));
    assert_eq!(actor_did("did:plc:abc:".to_string()).err(), Some(BackendError::Validation));
}

#[test]
fn like_subjects() {
    let cid = "bafyreidfayvfuwqa7qlnopdjiqrxzs6blmoeu4rujcjtnci5beludirz2a";
    let s = like_subject("at://p/1".to_string(), cid.to_string()).ok().unwrap();
    assert_eq!(s.uri, "at://p/1");
    assert_eq!(s.cid.as_ref().to_string(), cid);
    assert_eq!(like_subject("at://p/1".to_string(), "zzz".to_string()).err(), Some(BackendError::Validation));
}

#[test]
fn first_post_of_lookup() {
    assert_eq!(first_post(Vec::new()).err(), Some(BackendError::Remote));
    let p = first_post(vec![raw_post("at://1"), raw_post("at://2")]).ok().unwrap();
    assert_eq!(p.uri, "at://1");
    assert_eq!(p.reposted_by, "");
}

#[test]
fn replies_of_thread() {
    let t = RawThread::Post {
        replies: Some(vec![RawReply::Post(raw_post("at://r1")), RawReply::NotFound, RawReply::Blocked, RawReply::Post(raw_post("at://r2"))]),
    };
    let got: Vec<String> = thread_replies(t).ok().unwrap().into_iter().map(|p| p.uri).collect();
    assert_eq!(got, vec!["at://r1", "at://r2"]);
    assert_eq!(thread_replies(RawThread::Post { replies: None }).err(), Some(BackendError::Remote));
    assert_eq!(thread_replies(RawThread::NotFound).err(), Some(BackendError::Remote));
}

#[test]
fn profile_defaults_and_values() {
    let p = profile("did:plc:me");
    assert_eq!(p.display_name, "");
    assert_eq!(p.following_uri, "");
    assert_eq!(p.followers_count, None);
    let q = normalize_profile(RawProfile {
        did: "did:plc:o".to_string(),
        handle: "o".to_string(),
        display_name: Some("O".to_string()),
        avatar: Some("a".to_string()),
        banner: Some("b".to_string()),
        followers_count: Some(10),
        follows_count: Some(0),
        posts_count: Some(5),
        description: Some("d".to_string()),
        viewer: Some(RawViewerState { following: Some("at://follow/1".to_string()) }),
    });
    assert_eq!(q.display_name, "O");
    assert_eq!(q.banner, "b");
    assert_eq!(q.followers_count, Some(10));
    assert_eq!(q.follows_count, Some(0));
    assert_eq!(q.following_uri, "at://follow/1");
    let r = normalize_profile(RawProfile {
        did: "did:plc:o".to_string(),
        handle: "o".to_string(),
        display_name: None,
        avatar: None,
        banner: None,
        followers_count: None,
        follows_count: None,
        posts_count: None,
        description: None,
        viewer: Some(RawViewerState { following: None }),
    });
    assert_eq!(r.following_uri, "");
}

#[test]
fn resource_table() {
    let files = load();
    assert_eq!(files.len(), 12);
    assert_eq!(files[0], "qml/Main.qml");
    assert_eq!(files[11], "qml/UserProfilePage.qml");
}
