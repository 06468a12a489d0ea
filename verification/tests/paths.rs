//! Tests for the path operations, run against the real client
//! library's path module.
use netidx_bridge::path;

fn s(x: &str) -> String {
    x.to_string()
}

#[test]
fn root_is_the_separator() {
    assert_eq!(path::root(), "/");
}

#[test]
fn absolute_paths_start_with_the_separator() {
    assert!(path::is_absolute(s("/a")));
    assert!(path::is_absolute(s("/")));
    assert!(!path::is_absolute(s("a/b")));
    assert!(!path::is_absolute(s("")));
}

#[test]
fn parents() {
    assert!(path::is_parent(s("/"), s("/foo/bar/baz")));
    assert!(path::is_parent(s("/foo/bar"), s("/foo/bar/baz")));
    assert!(!path::is_parent(s("/foo/bar"), s("/foo/bareth/bazeth")));
    assert!(path::is_parent(s("/foo/bar"), s("/foo/bar")));
}

#[test]
fn immediate_parents() {
    assert!(!path::is_immediate_parent(s("/"), s("/foo/bar/baz")));
    assert!(path::is_immediate_parent(s("/foo/bar"), s("/foo/bar/baz")));
    assert!(!path::is_immediate_parent(s("/foo/bar"), s("/foo/bareth/bazeth")));
    assert!(!path::is_immediate_parent(s("/foo/bar"), s("/foo/bar")));
    assert!(!path::is_immediate_parent(s("/"), s("/")));
    assert!(path::is_immediate_parent(s("/"), s("/foo")));
}

#[test]
fn strip_prefix_at_the_boundary() {
    assert_eq!(path::strip_prefix(s("/foo"), s("/foo/bar")), Some(s("bar")));
    assert_eq!(path::strip_prefix(s("/foo"), s("/foo")), Some(s("")));
    // a prefix that is not a parent strips nothing
    assert_eq!(path::strip_prefix(s("/foo"), s("/foobar")), None);
    // the root is everyone's parent, but a relative path does not
    // literally start with it
    assert_eq!(path::strip_prefix(s("/"), s("foo")), None);
    assert_eq!(path::strip_prefix(s("/"), s("/foo")), Some(s("foo")));
}

#[test]
fn longest_common_parent() {
    assert_eq!(path::lcp(s("/a/b/c"), s("/a/b/d")), "/a/b");
    assert_eq!(path::lcp(s("/a/b/c"), s("/a/b/c/d")), "/a/b/c");
    assert_eq!(path::lcp(s("/x/y"), s("/z")), "/");
}

#[test]
fn escape_round_trip() {
    assert_eq!(path::escape(s("foo/bar")), "foo\\/bar");
    assert_eq!(path::escape(s("\\hello world")), "\\\\hello world");
    assert_eq!(path::escape(s("plain")), "plain");
    assert_eq!(path::unescape(s("foo\\/bar")), "foo/bar");
    assert_eq!(path::unescape(s("\\\\hello world")), "\\hello world");
    assert_eq!(path::unescape(path::escape(s("a/b\\c"))), "a/b\\c");
}

#[test]
fn append_canonizes() {
    assert_eq!(path::append(s("/"), s("bar")), "/bar");
    assert_eq!(path::append(s("/bar"), s("baz")), "/bar/baz");
    assert_eq!(path::append(s("/bar"), s("//baz//////foo/")), "/bar/baz/foo");
    assert_eq!(path::append(s("/bar"), s("")), "/bar");
}

#[test]
fn parts_of_a_path() {
    assert_eq!(path::parts(s("/foo/bar/baz")), vec![s("foo"), s("bar"), s("baz")]);
    assert_eq!(path::parts(s("/foo\\/bar/baz")), vec![s("foo\\/bar"), s("baz")]);
    assert_eq!(path::parts(s("/foo\\\\/bar/baz")), vec![s("foo\\\\"), s("bar"), s("baz")]);
    assert!(path::parts(s("/")).is_empty());
}

#[test]
fn split_state_survives_escaped_separators() {
    // after an escaped separator the scan state is not cleared, so the
    // following separator is also taken as escaped...
    assert_eq!(path::parts(s("a\\//b")), vec![s("a\\//b")]);
    assert_eq!(path::levels(s("a\\//b")), 1);
    // ...until an ordinary character (here the second backslash) flips
    // the state back and the next separator splits again
    assert_eq!(path::parts(s("a\\/\\/b")), vec![s("a\\/\\"), s("b")]);
    // canonization sees that single-piece string as already canonical
    assert_eq!(path::append(s("a\\///b"), s("")), "a\\///b");
}

#[test]
fn unescape_inverts_escape_before_u() {
    // a backslash in front of 'u' escapes to an escaped backslash, so
    // unescaping never mistakes it for a unicode escape sequence
    assert_eq!(path::unescape(path::escape(s("\\u"))), "\\u");
    assert_eq!(path::unescape(path::escape(s("a\\u{2f}"))), "a\\u{2f}");
}

#[test]
fn dirnames_walk_down_from_the_root() {
    assert_eq!(
        path::dirnames(s("/some/path/ending/in/foo")),
        vec![
            s("/"),
            s("/some"),
            s("/some/path"),
            s("/some/path/ending"),
            s("/some/path/ending/in"),
            s("/some/path/ending/in/foo"),
        ]
    );
    assert_eq!(path::dirnames(s("/")), vec![s("/")]);
}

#[test]
fn dirnames_measures_its_first_step_in_bytes() {
    // a single multi-byte character is scanned and yielded whole,
    // where a single one-byte character already counts as exhausted
    assert_eq!(path::dirnames(s("\u{e9}")), vec![s("\u{e9}")]);
    assert!(path::dirnames(s("a")).is_empty());
    // the first step skips the byte after the separator outright
    assert_eq!(path::dirnames(s("//a")), vec![s("/"), s("//a")]);
    // multi-byte characters elsewhere in the path are walked correctly
    assert_eq!(
        path::dirnames(s("/a\u{e9}/b")),
        vec![s("/"), s("/a\u{e9}"), s("/a\u{e9}/b")]
    );
}

#[test]
fn levels_count_components() {
    assert_eq!(path::levels(s("/foo/bar/baz")), 3);
    assert_eq!(path::levels(s("/")), 0);
}

#[test]
fn dirname_and_basename() {
    assert_eq!(path::dirname(s("/foo/bar/baz")), Some(s("/foo/bar")));
    assert_eq!(path::dirname(s("/")), None);
    assert_eq!(path::dirname(s("/foo")), None);
    assert_eq!(path::dirname_with_sep(s("/foo/bar/baz")), Some(s("/foo/bar/")));
    assert_eq!(path::basename(s("/foo/bar/baz")), Some(s("baz")));
    assert_eq!(path::basename(s("foo")), Some(s("foo")));
    assert_eq!(path::basename(s("foo/bar")), Some(s("bar")));
    assert_eq!(path::basename(s("")), None);
    assert_eq!(path::basename(s("/")), None);
}

#[test]
fn separator_positions() {
    assert_eq!(path::rfind_sep(s("/foo/bar/baz")), Some(8));
    assert_eq!(path::rfind_sep(s("")), None);
    // the trailing separator is escaped, so the one before it counts
    assert_eq!(path::rfind_sep(s("/a\\/b")), Some(0));
    assert_eq!(path::find_sep(s("foo/bar/baz")), Some(3));
    assert_eq!(path::find_sep(s("")), None);
    // an escaped first separator means no result
    assert_eq!(path::find_sep(s("a\\/b")), None);
}
