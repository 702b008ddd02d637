use voice_input::model_dir::{
    config_file, dirs_fallback, dirs_fallback_windows, find_model_dir, join_path,
    model_dir_cache, model_dir_candidates,
};

const CACHE: &str = ".cache/huggingface/hub/models--Qwen--Qwen3-ASR-0.6B/snapshots/5eb144179a02acc5e5ba31e748d22b0cf3e303b0";

#[test]
fn join_inserts_one_separator() {
    assert_eq!(join_path("/home/a", "b/c", false), "/home/a/b/c");
    assert_eq!(join_path("/home/a/", "b", false), "/home/a/b");
    assert_eq!(join_path("", "b", false), "b");
    assert_eq!(join_path("a\\b", "x", false), "a\\b/x");
    assert_eq!(join_path("C:", "x", false), "C:/x");
}

#[test]
fn windows_join_plain_bases() {
    assert_eq!(join_path("C:\\Users\\u", ".cache/x", true), "C:\\Users\\u\\.cache/x");
    assert_eq!(join_path("C:\\Users\\u\\", "x", true), "C:\\Users\\u\\x");
    assert_eq!(join_path("C:/Users/u/", "x", true), "C:/Users/u/x");
    assert_eq!(join_path("\\\\server\\share", "x", true), "\\\\server\\share\\x");
    assert_eq!(join_path("", "x", true), "x");
}

#[test]
fn windows_join_after_bare_drive_adds_no_separator() {
    assert_eq!(join_path("C:", "a/b", true), "C:a/b");
    assert_eq!(join_path("d:", "x", true), "d:x");
    assert_eq!(join_path("1:", "x", true), "1:\\x");
}

#[test]
fn windows_join_rewrites_verbatim_bases() {
    assert_eq!(
        join_path("\\\\?\\C:\\Users\\u", ".cache/hub", true),
        "\\\\?\\C:\\Users\\u\\.cache\\hub"
    );
    assert_eq!(
        join_path("\\\\?\\C:\\Users\\\\u\\", "x", true),
        "\\\\?\\C:\\Users\\u\\x"
    );
    assert_eq!(join_path("\\\\?\\C:", "x", true), "\\\\?\\C:\\x");
    assert_eq!(
        join_path("\\\\?\\UNC\\srv\\share\\dir", "x/y", true),
        "\\\\?\\UNC\\srv\\share\\dir\\x\\y"
    );
    assert_eq!(join_path("\\\\?\\C:\\a/b", "x", true), "\\\\?\\C:\\a/b\\x");
}

#[test]
fn join_matches_std_path_join() {
    for (base, rel) in [("/home/a", "b"), ("/home/a/", "b"), (".", "x/y"), ("", "z"), ("q", ".cache/c")] {
        let std_joined = std::path::Path::new(base).join(rel);
        assert_eq!(join_path(base, rel, std::path::MAIN_SEPARATOR == '\\'), std_joined.to_str().unwrap());
    }
}

#[test]
fn home_from_environment() {
    assert_eq!(dirs_fallback(Some("/home/u".to_string())), "/home/u");
    assert_eq!(dirs_fallback(None), ".");
}

#[test]
fn home_from_windows_environment() {
    assert_eq!(
        dirs_fallback_windows(Some("C:\\Users\\u".to_string()), Some("D:".to_string()), Some("\\x".to_string())),
        "C:\\Users\\u"
    );
    assert_eq!(dirs_fallback_windows(None, Some("D:".to_string()), Some("\\x".to_string())), "D:\\x");
    assert_eq!(dirs_fallback_windows(None, Some("D:".to_string()), None), ".");
    assert_eq!(dirs_fallback_windows(None, None, Some("\\x".to_string())), ".");
}

#[test]
fn cache_dir_under_home() {
    assert_eq!(model_dir_cache("/home/u", false), format!("/home/u/{}", CACHE));
    assert_eq!(model_dir_cache(".", false), format!("./{}", CACHE));
    assert_eq!(model_dir_cache("C:\\Users\\u", true), format!("C:\\Users\\u\\{}", CACHE));
    assert_eq!(model_dir_cache("C:", true), format!("C:{}", CACHE));
    assert_eq!(
        model_dir_cache("\\\\?\\C:\\Users\\u", true),
        format!("\\\\?\\C:\\Users\\u\\{}", CACHE.replace('/', "\\"))
    );
}

#[test]
fn candidates_in_order() {
    let c = model_dir_candidates("/home/u", false);
    assert_eq!(c, vec![
        format!("/home/u/{}", CACHE),
        "qwen3_asr_rs/Qwen3-ASR-0.6B".to_string(),
        "qwen3_asr_rs/Qwen3-ASR-1.7B".to_string(),
    ]);
}

#[test]
fn config_file_in_dir() {
    assert_eq!(config_file("qwen3_asr_rs/Qwen3-ASR-0.6B", false), "qwen3_asr_rs/Qwen3-ASR-0.6B/config.json");
}

#[test]
fn config_file_on_windows() {
    assert_eq!(config_file("qwen3_asr_rs/Qwen3-ASR-0.6B", true), "qwen3_asr_rs/Qwen3-ASR-0.6B\\config.json");
}

#[test]
fn first_candidate_with_config_wins() {
    assert_eq!(find_model_dir("/h", &vec![true, true, true], false), Some(format!("/h/{}", CACHE)));
    assert_eq!(find_model_dir("/h", &vec![false, true, true], false), Some("qwen3_asr_rs/Qwen3-ASR-0.6B".to_string()));
    assert_eq!(find_model_dir("/h", &vec![false, false, true], false), Some("qwen3_asr_rs/Qwen3-ASR-1.7B".to_string()));
    assert_eq!(find_model_dir("/h", &vec![false, false, false], false), None);
    assert_eq!(find_model_dir("/h", &vec![], false), None);
    assert_eq!(find_model_dir("/h", &vec![false, true], false), Some("qwen3_asr_rs/Qwen3-ASR-0.6B".to_string()));
    assert_eq!(find_model_dir("C:", &vec![true], true), Some(format!("C:{}", CACHE)));
}
