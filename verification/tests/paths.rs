use album_tagger::paths::name_extension;

#[test]
fn extension_follows_the_last_dot() {
    assert_eq!(name_extension("a.mp3"), Some("mp3".to_string()));
    assert_eq!(name_extension("a.tar.gz"), Some("gz".to_string()));
    assert_eq!(name_extension("a."), Some("".to_string()));
    assert_eq!(name_extension("..mp3"), Some("mp3".to_string()));
    assert_eq!(name_extension("é.m4a"), Some("m4a".to_string()));
}

#[test]
fn no_extension_without_a_dot_or_with_a_leading_dot_only() {
    assert_eq!(name_extension(""), None);
    assert_eq!(name_extension("mp3"), None);
    assert_eq!(name_extension(".mp3"), None);
    assert_eq!(name_extension("."), None);
}

#[test]
fn name_extension_agrees_with_the_standard_library() {
    for name in ["a.mp3", "b.M4A", "c", ".d", "e.", "f.g.h", "m..n", "..x", "a b.c d", "é.ü"] {
        let expected = std::path::Path::new(name)
            .extension()
            .map(|e| e.to_string_lossy().into_owned());
        assert_eq!(name_extension(name), expected, "{}", name);
    }
}
