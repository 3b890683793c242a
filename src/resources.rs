//! The interface resources bundled with the application.
use vstd::prelude::*;

verus! {

/// The bundled interface files, by path under the resource root `/`.
pub open spec fn resource_files() -> Seq<Seq<char>> {
    seq![
        "qml/Main.qml"@,
        "qml/MediaPickerPage.qml"@,
        "qml/PostDetailPage.qml"@,
        "qml/PostPage.qml"@,
        "qml/QuotePost.qml"@,
        "qml/SearchPage.qml"@,
        "qml/SettingsPage.qml"@,
        "qml/SignInPage.qml"@,
        "qml/TimelinePage.qml"@,
        "qml/TimelinePost.qml"@,
        "qml/TimelinePostContent.qml"@,
        "qml/UserProfilePage.qml"@,
    ]
}

/// The table of bundled interface files to register, in order; the first is the page
/// the application opens with.
pub fn load() -> (r: Vec<&'static str>)
    ensures
        r@.map_values(|s: &'static str| s@) == resource_files(),
{
    let r: Vec<&'static str> = vec![
        "qml/Main.qml",
        "qml/MediaPickerPage.qml",
        "qml/PostDetailPage.qml",
        "qml/PostPage.qml",
        "qml/QuotePost.qml",
        "qml/SearchPage.qml",
        "qml/SettingsPage.qml",
        "qml/SignInPage.qml",
        "qml/TimelinePage.qml",
        "qml/TimelinePost.qml",
        "qml/TimelinePostContent.qml",
        "qml/UserProfilePage.qml",
    ];
    proof {
        assert(r@.map_values(|s: &'static str| s@) =~= resource_files());
    }
    r
}

} // verus!
