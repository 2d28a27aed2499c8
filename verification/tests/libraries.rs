use std::collections::HashMap;

use mememeow_core::community::{
    after_cache_read, load_enabled, manifest_text, CommunityError, CommunityFailure,
    CommunityInfo, CommunityManifest, EnabledFile, EnabledMemeLibs, ManifestStep,
};
use mememeow_core::fetch::AttemptOutcome;

fn sorted(libs: &EnabledMemeLibs) -> Vec<String> {
    let mut list = libs.to_list();
    list.sort();
    list
}

fn manifest() -> CommunityManifest {
    CommunityManifest {
        community_info: CommunityInfo {
            resource_url: "https://r".to_string(),
            update_url: "https://u".to_string(),
            timestamp: 42,
        },
        meme_libs: HashMap::new(),
    }
}

#[test]
fn a_new_set_is_empty() {
    let libs = EnabledMemeLibs::new();
    assert_eq!(libs.len(), 0);
    assert!(libs.to_list().is_empty());
    assert!(!libs.contains("a"));
    assert_eq!(EnabledMemeLibs::default().len(), 0);
}

#[test]
fn enabling_twice_is_enabling_once() {
    let mut libs = EnabledMemeLibs::new();
    libs.enable("a");
    libs.enable("b");
    libs.enable("a");
    assert_eq!(libs.len(), 2);
    assert!(libs.contains("a"));
    assert!(libs.contains("b"));
    assert_eq!(sorted(&libs), vec!["a".to_string(), "b".to_string()]);
}

#[test]
fn disabling_removes_the_one_library() {
    let mut libs = EnabledMemeLibs::from_list(vec!["a".to_string(), "b".to_string(), "c".to_string()]);
    libs.disable("b");
    assert_eq!(sorted(&libs), vec!["a".to_string(), "c".to_string()]);
    assert!(!libs.contains("b"));
    libs.disable("b");
    libs.disable("zzz");
    assert_eq!(libs.len(), 2);
    libs.disable("a");
    libs.disable("c");
    assert_eq!(libs.len(), 0);
}

#[test]
fn a_list_with_repetitions_gives_each_identifier_once() {
    let libs = EnabledMemeLibs::from_list(vec![
        "x".to_string(),
        "y".to_string(),
        "x".to_string(),
        "x".to_string(),
    ]);
    assert_eq!(libs.len(), 2);
    assert_eq!(sorted(&libs), vec!["x".to_string(), "y".to_string()]);
}

#[test]
fn identifiers_differ_by_case() {
    let mut libs = EnabledMemeLibs::new();
    libs.enable("abc");
    assert!(!libs.contains("ABC"));
    libs.disable("ABC");
    assert!(libs.contains("abc"));
}

#[test]
fn loading_the_file_of_enabled_libraries() {
    let (libs, rewrite) = load_enabled(EnabledFile::Missing).expect("a missing file is no error");
    assert_eq!(libs.len(), 0);
    assert!(rewrite);

    let (libs, rewrite) = load_enabled(EnabledFile::Malformed).expect("other contents are no error");
    assert_eq!(libs.len(), 0);
    assert!(!rewrite);

    let (libs, rewrite) =
        load_enabled(EnabledFile::Loaded(vec!["b".to_string(), "a".to_string()])).expect("a set");
    assert_eq!(sorted(&libs), vec!["a".to_string(), "b".to_string()]);
    assert!(!rewrite);

    let error = load_enabled(EnabledFile::Unreadable("denied".to_string())).unwrap_err();
    assert_eq!(error, CommunityError::new(CommunityFailure::EnabledRead, "denied".to_string()));
    assert_eq!(error.message(), "读取配置失败: denied");
}

#[test]
fn a_cached_manifest_is_the_answer() {
    assert_eq!(after_cache_read(Ok(manifest())), ManifestStep::UseCached(manifest()));
}

#[test]
fn any_cache_failure_leads_to_a_download() {
    for failure in [CommunityFailure::NoCacheDir, CommunityFailure::CacheMissing, CommunityFailure::CacheRead, CommunityFailure::CacheParse] {
        let error = CommunityError::new(failure, "why".to_string());
        assert_eq!(after_cache_read(Err(error)), ManifestStep::Download);
    }
}

#[test]
fn what_a_manifest_request_came_to() {
    assert_eq!(manifest_text(AttemptOutcome::Body("{}".to_string())), Ok("{}".to_string()));
    let error = manifest_text(AttemptOutcome::RequestFailed("dns".to_string())).unwrap_err();
    assert_eq!(error.message(), "下载失败: dns");
    let error = manifest_text(AttemptOutcome::BadStatus("404 Not Found".to_string())).unwrap_err();
    assert_eq!(error.failure, CommunityFailure::DownloadStatus);
    assert_eq!(error.message(), "下载失败: 状态码 404 Not Found");
    let error = manifest_text(AttemptOutcome::BodyUnreadable("eof".to_string())).unwrap_err();
    assert_eq!(error.message(), "读取内容失败: eof");
}

#[test]
fn messages_of_failures() {
    let cases = [
        (CommunityFailure::NoCacheDir, "", "无法获取系统缓存目录"),
        (CommunityFailure::NoConfigDir, "", "无法获取系统配置目录"),
        (CommunityFailure::CacheMissing, "", "缓存文件不存在"),
        (CommunityFailure::CacheDirCreate, "e", "创建缓存目录失败: e"),
        (CommunityFailure::ConfigDirCreate, "e", "创建配置目录失败: e"),
        (CommunityFailure::CacheWrite, "e", "写入缓存文件失败: e"),
        (CommunityFailure::CacheRead, "e", "读取缓存文件失败: e"),
        (CommunityFailure::CacheParse, "e", "解析缓存的JSON失败: e"),
        (CommunityFailure::Download, "e", "下载失败: e"),
        (CommunityFailure::DownloadStatus, "500", "下载失败: 状态码 500"),
        (CommunityFailure::DownloadBody, "e", "读取内容失败: e"),
        (CommunityFailure::DownloadParse, "e", "解析JSON失败: e"),
        (CommunityFailure::EnabledRead, "e", "读取配置失败: e"),
        (CommunityFailure::EnabledSerialize, "e", "序列化配置失败: e"),
        (CommunityFailure::EnabledWrite, "e", "保存配置失败: e"),
    ];
    for (failure, detail, message) in cases {
        assert_eq!(CommunityError::new(failure, detail.to_string()).message(), message);
    }
}
