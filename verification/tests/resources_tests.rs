use vst3_skeleton::factory::PLUGIN_NAME;
use vst3_skeleton::resources::{
    bundle_resource_path, bundle_resource_url, join_path, macos_candidates, path_to_file_url,
    windows_candidates, PathStyle, ResourceCandidate,
};

#[test]
fn file_url_uses_forward_slashes() {
    assert_eq!(path_to_file_url("C:\\Program Files\\x.html"), "file:///C:/Program Files/x.html");
    assert_eq!(path_to_file_url("/Library/a b/ü.html"), "file:////Library/a b/ü.html");
    assert_eq!(path_to_file_url(""), "file:///");
}

#[test]
fn join_inserts_one_separator() {
    assert_eq!(join_path(PathStyle::Windows, "C:\\A", "b"), "C:\\A\\b");
    assert_eq!(join_path(PathStyle::Windows, "C:\\A\\", "b"), "C:\\A\\b");
    assert_eq!(join_path(PathStyle::Windows, "C:/A/", "b"), "C:/A/b");
    assert_eq!(join_path(PathStyle::Unix, "/a", "b"), "/a/b");
    assert_eq!(join_path(PathStyle::Unix, "/a/", "b"), "/a/b");
    assert_eq!(join_path(PathStyle::Unix, "", "b"), "b");
    assert_eq!(join_path(PathStyle::Unix, "a\\", "b"), "a\\/b");
}

#[test]
fn bundle_path_layout() {
    assert_eq!(
        bundle_resource_path(PathStyle::Unix, "/VST3", "Gain", "index.html"),
        "/VST3/Gain.vst3/Contents/Resources/index.html"
    );
}

#[test]
fn windows_candidate_paths() {
    let c = windows_candidates(PLUGIN_NAME, "index.html", Some("C:\\Program Files"), Some("C:\\Users\\me\\AppData\\Local"));
    assert_eq!(
        c,
        vec![
            "C:\\Program Files\\Common Files\\VST3\\Vst3Skeleton.vst3\\Contents\\Resources\\index.html".to_string(),
            "C:\\Users\\me\\AppData\\Local\\Programs\\Common\\VST3\\Vst3Skeleton.vst3\\Contents\\Resources\\index.html".to_string(),
        ]
    );
    let c = windows_candidates(PLUGIN_NAME, "index.html", None, Some("D:\\L"));
    assert_eq!(c, vec!["D:\\L\\Programs\\Common\\VST3\\Vst3Skeleton.vst3\\Contents\\Resources\\index.html".to_string()]);
    assert!(windows_candidates(PLUGIN_NAME, "index.html", None, None).is_empty());
}

#[test]
fn macos_candidate_paths() {
    let c = macos_candidates(PLUGIN_NAME, "index.html", Some("/Users/me"));
    assert_eq!(
        c,
        vec![
            "/Library/Audio/Plug-Ins/VST3/Vst3Skeleton.vst3/Contents/Resources/index.html".to_string(),
            "/Users/me/Library/Audio/Plug-Ins/VST3/Vst3Skeleton.vst3/Contents/Resources/index.html".to_string(),
        ]
    );
    assert_eq!(macos_candidates(PLUGIN_NAME, "index.html", None).len(), 1);
}

#[test]
fn first_existing_candidate_wins() {
    let cands = vec![
        ResourceCandidate { path: "C:\\a\\index.html".to_string(), exists: false },
        ResourceCandidate { path: "C:\\b\\index.html".to_string(), exists: true },
        ResourceCandidate { path: "C:\\c\\index.html".to_string(), exists: true },
    ];
    assert_eq!(bundle_resource_url(&cands, "index.html"), "file:///C:/b/index.html");
}

#[test]
fn no_existing_candidate_gives_resource() {
    let cands = vec![ResourceCandidate { path: "/x/index.html".to_string(), exists: false }];
    assert_eq!(bundle_resource_url(&cands, "index.html"), "index.html");
    assert_eq!(bundle_resource_url(&Vec::new(), "index.html"), "index.html");
}

#[test]
fn unix_join_matches_std_path_join() {
    let bases = ["", "/", "/a", "/a/", "a", "a/b", "a\\", "//x"];
    let comps = ["", "b", "b/c", "/etc", "/", "./x", "..", "x\\y"];
    for base in bases {
        for comp in comps {
            let expected = std::path::Path::new(base).join(comp);
            assert_eq!(join_path(PathStyle::Unix, base, comp), expected.to_str().unwrap(), "{base:?} + {comp:?}");
        }
    }
}

#[test]
fn windows_join_follows_root_and_prefix_rules() {
    // a component with a prefix replaces the base
    assert_eq!(join_path(PathStyle::Windows, "C:\\a", "D:\\x.html"), "D:\\x.html");
    assert_eq!(join_path(PathStyle::Windows, "C:\\a", "D:x"), "D:x");
    assert_eq!(join_path(PathStyle::Windows, "C:\\a", "\\\\srv\\share\\x"), "\\\\srv\\share\\x");
    assert_eq!(join_path(PathStyle::Windows, "C:\\a", "\\\\?\\C:\\x"), "\\\\?\\C:\\x");
    // a rooted component keeps only the base's prefix
    assert_eq!(join_path(PathStyle::Windows, "C:\\a\\b", "\\x.html"), "C:\\x.html");
    assert_eq!(join_path(PathStyle::Windows, "\\\\srv\\share\\a", "/x"), "\\\\srv\\share/x");
    assert_eq!(join_path(PathStyle::Windows, "\\\\?\\UNC\\srv\\share\\a", "\\x"), "\\\\?\\UNC\\srv\\share\\x");
    assert_eq!(join_path(PathStyle::Windows, "a\\b", "\\x"), "\\x");
    // a drive-only base takes the component without a separator
    assert_eq!(join_path(PathStyle::Windows, "C:", "x"), "C:x");
    // `\\` without a server and share is a root, not a prefix
    assert_eq!(join_path(PathStyle::Windows, "C:\\a", "\\\\"), "C:\\\\");
}

#[test]
fn absolute_resource_replaces_the_bundle_path() {
    assert_eq!(bundle_resource_path(PathStyle::Unix, "/VST3", "Gain", "/x.html"), "/x.html");
    assert_eq!(bundle_resource_path(PathStyle::Windows, "C:\\VST3", "Gain", "D:\\x.html"), "D:\\x.html");
}

#[test]
fn windows_join_rebuilds_verbatim_paths() {
    assert_eq!(join_path(PathStyle::Windows, "\\\\?\\C:\\a", "b\\..\\c"), "\\\\?\\C:\\a\\c");
    assert_eq!(join_path(PathStyle::Windows, "\\\\?\\C:\\a", ".\\x"), "\\\\?\\C:\\a\\x");
    assert_eq!(join_path(PathStyle::Windows, "\\\\?\\C:\\a", "..\\..\\x"), "\\\\?\\C:\\x");
    assert_eq!(join_path(PathStyle::Windows, "\\\\?\\C:\\a", "\\x"), "\\\\?\\C:\\x");
    assert_eq!(join_path(PathStyle::Windows, "\\\\?\\C:\\a\\", "b/c"), "\\\\?\\C:\\a\\b\\c");
    assert_eq!(join_path(PathStyle::Windows, "\\\\?\\UNC\\srv\\sh\\a", "b"), "\\\\?\\UNC\\srv\\sh\\a\\b");
    // an empty component adds a separator only
    assert_eq!(join_path(PathStyle::Windows, "\\\\?\\C:\\a", ""), "\\\\?\\C:\\a\\");
}

#[test]
fn windows_prefix_heads() {
    // `//?/` is no verbatim head: it reads as a share `//?/C:`, which replaces the base
    assert_eq!(join_path(PathStyle::Windows, "C:\\a", "//?/C:/x"), "//?/C:/x");
    // a device prefix
    assert_eq!(join_path(PathStyle::Windows, "C:\\a", "\\\\.\\COM1"), "\\\\.\\COM1");
    // a rooted component keeps a verbatim share's whole prefix of a non-verbatim base
    assert_eq!(join_path(PathStyle::Windows, "\\\\srv\\sh", "\\x"), "\\\\srv\\sh\\x");
}
