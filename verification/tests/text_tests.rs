use filehub::text::{i64_decimal, replace_all, u64_decimal};
use filehub::paths::{path_extension, path_file_name, path_file_stem, path_join, path_parent};

#[test]
fn replace_matches_std() {
    for (s, p, r) in [("aaa", "aa", "b"), ("{x}{x}", "{x}", "yy"), ("", "a", "b"), ("abc", "z", "q")] {
        assert_eq!(replace_all(s, p, r), s.replace(p, r));
    }
}

#[test]
fn decimals() {
    assert_eq!(u64_decimal(0), "0");
    assert_eq!(u64_decimal(u64::MAX), u64::MAX.to_string());
    assert_eq!(i64_decimal(-42), "-42");
    assert_eq!(i64_decimal(i64::MIN), i64::MIN.to_string());
}

#[test]
fn path_pieces() {
    assert_eq!(path_file_name("/a/b.tar.gz").as_deref(), Some("b.tar.gz"));
    assert_eq!(path_file_stem("/a/b.tar.gz").as_deref(), Some("b.tar"));
    assert_eq!(path_extension("/a/.hidden"), None);
    assert_eq!(path_parent("/a/b/").as_deref(), Some("/a"));
    assert_eq!(path_join("/a/", "b"), "/a/b");
    assert_eq!(path_join("/a", "/abs"), "/abs");
}
