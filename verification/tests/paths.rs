use qwen3_tts::error::Qwen3TtsError;
use qwen3_tts::paths::{
    choose_model_file, download_target, file_name, join, portable_path, ModelPaths,
};

#[test]
fn from_model_dir_names() {
    let p = ModelPaths::from_model_dir("/models");
    assert!(p.main_gguf.ends_with("qwen3-tts-0.6b-f16.gguf"));
    assert!(p.vocoder_gguf.ends_with("qwen3-tts-tokenizer-f16.gguf"));
}

#[test]
fn from_model_dir_joins_with_a_separator() {
    let p = ModelPaths::from_model_dir("/no/such/models");
    assert_eq!(p.main_gguf, "/no/such/models/qwen3-tts-0.6b-f16.gguf");
    assert_eq!(p.vocoder_gguf, "/no/such/models/qwen3-tts-tokenizer-f16.gguf");
    assert!(!p.main_exists());
    assert!(!p.vocoder_exists());
}

#[test]
fn resolve_prefers_present_quantized_files() {
    let main = vec![false, false, false, false, true];
    let vocoder = vec![false, true, false, false, true];
    let p = ModelPaths::resolve("dir", &main, &vocoder);
    assert_eq!(p.main_gguf, "dir/qwen3-tts-0.6b-q4_k.gguf");
    assert_eq!(p.vocoder_gguf, "dir/qwen3-tts-tokenizer-q8_0.gguf");
}

#[test]
fn resolve_falls_back_to_the_first_candidate() {
    let none = vec![false; 5];
    let p = ModelPaths::resolve("dir/", &none, &none);
    assert_eq!(p.main_gguf, "dir/qwen3-tts-0.6b-f16.gguf");
    assert_eq!(p.vocoder_gguf, "dir/qwen3-tts-tokenizer-f16.gguf");
    let all = vec![true; 5];
    assert_eq!(choose_model_file("d", "m-", &all), "d/m-f16.gguf");
    assert_eq!(choose_model_file("d", "m-", &vec![false, false, true, true, false]), "d/m-q6_k.gguf");
    assert_eq!(choose_model_file("d", "m-", &vec![false, false, false, true, false]), "d/m-q5_k.gguf");
}

#[test]
fn existence_is_looked_up_on_disk() {
    for path in ["/proc/self/exe", "/etc/passwd", "/", "/no/such/file"] {
        let p = ModelPaths::new(path.to_string(), "/no/such/file".to_string());
        assert_eq!(p.main_exists(), std::path::Path::new(path).is_file());
        assert!(!p.vocoder_exists());
        assert_eq!(p.main_gguf, path);
        let q = ModelPaths::new("/no/such/file".to_string(), path.to_string());
        assert!(!q.main_exists());
        assert_eq!(q.vocoder_exists(), std::path::Path::new(path).is_file());
    }
}

#[test]
fn joining_agrees_with_the_standard_library() {
    for dir in ["", "a", "a/", "/", "a/b", "/models"] {
        for name in ["x", "x/y", "/abs", "", "./x"] {
            let expected = std::path::Path::new(dir).join(name);
            assert_eq!(join(dir, name), expected.to_str().unwrap());
        }
    }
}

#[test]
fn file_names_agree_with_the_standard_library() {
    let paths = [
        "", "/", ".", "..", "./", "../", "a", "a/", "a//", "a/b", "a/b/", "a/.", "a/./", "a/..", "a/../",
        "./a", "././a", "/.", "/..", "/a", "//a", "a/./b/./", ".a", "a.", "...", ".../", "./.", "a/./.",
        "qwen/model.gguf", "..a", "a..",
    ];
    for path in paths {
        let expected = std::path::Path::new(path).file_name().map(|n| n.to_str().unwrap().to_string());
        assert_eq!(file_name(path), expected, "{path:?}");
    }
}

#[test]
fn downloads_stay_below_their_directory() {
    assert_eq!(download_target("sub/model.gguf", "models").unwrap(), "models/model.gguf");
    assert_eq!(download_target("../model.gguf", "models/").unwrap(), "models/model.gguf");
    assert!(matches!(download_target("..", "models"), Err(Qwen3TtsError::InvalidPath)));
    assert!(matches!(download_target("", "models"), Err(Qwen3TtsError::InvalidPath)));
}

#[test]
fn backslashes_part_paths_on_some_platforms() {
    let path = r"C:\m\sub/a.gguf";
    assert_eq!(portable_path(path, true), "C:/m/sub/a.gguf");
    assert_eq!(portable_path(path, false), path);
    assert_eq!(file_name(&portable_path(r"C:\m\a.gguf", true)).as_deref(), Some("a.gguf"));
    assert_eq!(file_name(r"C:\m\a.gguf").as_deref(), Some(r"C:\m\a.gguf"));
}
