//! Hierarchical path strings, as the pub/sub namespace uses them.
//!
//! Path components are separated by `/`, which may be escaped with
//! `\`; `/` and `\` are the only special characters.  The operations
//! themselves are provided by the network client library's path module;
//! this module states their behaviour over character sequences so that
//! callers have exact contracts to work with.
//!
//! Positions returned by [`rfind_sep`] and [`find_sep`] are byte
//! offsets into the UTF-8 encoding; they coincide with character
//! positions exactly when the path is ASCII, which the contracts state.
use vstd::prelude::*;
use vstd::string::string_is_ascii;
use vstd::utf8::encode_utf8;
use netidx_core::path::Path;

verus! {

/// The length of the run of consecutive escape characters `\`
/// immediately before position `i`.
pub open spec fn esc_run(s: Seq<char>, i: int) -> int
    decreases i,
{
    if i <= 0 || i > s.len() {
        0
    } else if s[i - 1] == '\\' {
        1 + esc_run(s, i - 1)
    } else {
        0
    }
}

/// Position `i` holds a path separator that is not escaped: a `/`
/// preceded by an even run of `\`.
pub open spec fn is_sep_at(s: Seq<char>, i: int) -> bool {
    0 <= i < s.len() && s[i] == '/' && esc_run(s, i) % 2 == 0
}

/// The position of the last unescaped separator, or `-1` if there is
/// none.
pub open spec fn last_sep(s: Seq<char>) -> int
    decreases s.len(),
{
    if s.len() == 0 {
        -1
    } else if is_sep_at(s, s.len() - 1) {
        s.len() - 1
    } else {
        last_sep(s.take(s.len() - 1))
    }
}

/// The position of the first `/` at or after `i`, escaped or not, or
/// `-1` if there is none.
pub open spec fn first_sep_from(s: Seq<char>, i: int) -> int
    decreases s.len() - i,
{
    if i < 0 || i >= s.len() {
        -1
    } else if s[i] == '/' {
        i
    } else {
        first_sep_from(s, i + 1)
    }
}

/// Where a forward separator search ends up: the first `/` if it is
/// unescaped, and `-1` otherwise — when the first `/` is escaped the
/// search gives up rather than look past it.
pub open spec fn find_sep_pos(s: Seq<char>) -> int {
    let i = first_sep_from(s, 0);
    if i >= 0 && esc_run(s, i) % 2 == 0 {
        i
    } else {
        -1
    }
}

/// The path without its last component: everything before the last
/// unescaped separator.  There is none when the path has no unescaped
/// separator or is `/` itself.
pub open spec fn dirname_spec(s: Seq<char>) -> Option<Seq<char>> {
    let i = last_sep(s);
    if i <= 0 {
        None
    } else {
        Some(s.take(i))
    }
}

/// Like [`dirname_spec`], but keeping the trailing separator.
pub open spec fn dirname_with_sep_spec(s: Seq<char>) -> Option<Seq<char>> {
    let i = last_sep(s);
    if i <= 0 {
        None
    } else {
        Some(s.take(i + 1))
    }
}

/// The last component of the path: everything after the last
/// unescaped separator; the whole path when it has none; nothing when
/// the path is empty or `/`.
pub open spec fn basename_spec(s: Seq<char>) -> Option<Seq<char>> {
    let i = last_sep(s);
    if i < 0 {
        if s.len() > 0 {
            Some(s)
        } else {
            None
        }
    } else if s.len() <= 1 {
        None
    } else {
        Some(s.skip(i + 1))
    }
}

/// Is `p` a parent of `o`?  The root `/` is everything's parent, and
/// every path is its own parent; otherwise `o` must extend `p` at a
/// separator boundary.
pub open spec fn is_parent_spec(p: Seq<char>, o: Seq<char>) -> bool {
    p == seq!['/'] || (o.len() >= p.len() && o.take(p.len() as int) == p && (o.len() == p.len()
        || o[p.len() as int] == '/'))
}

/// Is `p` the immediate parent of `o`: exactly one level above it?
pub open spec fn is_immediate_parent_spec(p: Seq<char>, o: Seq<char>) -> bool {
    o.len() > 0 && o != seq!['/'] && dirname_spec(o) == (if p == seq!['/'] {
        Option::<Seq<char>>::None
    } else {
        Option::<Seq<char>>::Some(p)
    })
}

/// `path` with the parent `prefix` stripped, separator included.
/// Nothing is stripped when `prefix` is not a parent of `path`, nor in
/// the one parent case where `path` does not literally start with
/// `prefix` (a relative path under the root `/`).
pub open spec fn strip_prefix_spec(prefix: Seq<char>, path: Seq<char>) -> Option<Seq<char>> {
    if !is_parent_spec(prefix, path) {
        None
    } else if !(path.len() >= prefix.len() && path.take(prefix.len() as int) == prefix) {
        None
    } else {
        let rest = path.skip(prefix.len() as int);
        if rest.len() > 0 && rest[0] == '/' {
            Some(rest.skip(1))
        } else {
            Some(rest)
        }
    }
}

/// Walk `a` upward through its parents until one is a parent of `b`;
/// `/` when even the topmost parent is not.
pub open spec fn lcp_rec(a: Seq<char>, b: Seq<char>) -> Seq<char>
    decreases a.len(),
    via lcp_rec_decreases
{
    if is_parent_spec(a, b) {
        a
    } else {
        let i = last_sep(a);
        if i <= 0 {
            seq!['/']
        } else {
            lcp_rec(a.take(i), b)
        }
    }
}

#[via_fn]
proof fn lcp_rec_decreases(a: Seq<char>, b: Seq<char>) {
    lemma_last_sep_bounds(a);
}

/// The last unescaped separator lies inside the sequence.
pub proof fn lemma_last_sep_bounds(s: Seq<char>)
    ensures
        -1 <= last_sep(s) < s.len(),
    decreases s.len(),
{
    if s.len() > 0 && !is_sep_at(s, s.len() - 1) {
        lemma_last_sep_bounds(s.take(s.len() - 1));
    }
}

/// The longest common parent of two paths: the one with the shorter
/// UTF-8 encoding is walked upward until it is a parent of the other,
/// `/` when the two are completely disjoint.
pub open spec fn lcp_spec(path0: Seq<char>, path1: Seq<char>) -> Seq<char> {
    if encode_utf8(path0).len() <= encode_utf8(path1).len() {
        lcp_rec(path0, path1)
    } else {
        lcp_rec(path1, path0)
    }
}

/// How one character is escaped: `/` and `\` get a `\` in front,
/// everything else passes through.
pub open spec fn escape_char_spec(c: char) -> Seq<char> {
    if c == '/' || c == '\\' {
        seq!['\\', c]
    } else {
        seq![c]
    }
}

/// The whole string escaped, character by character.
pub open spec fn escape_spec(s: Seq<char>) -> Seq<char>
    decreases s.len(),
{
    if s.len() == 0 {
        Seq::<char>::empty()
    } else {
        escape_char_spec(s[0]) + escape_spec(s.skip(1))
    }
}

/// No escape-initiating `\` is immediately followed by `u` — a
/// backslash initiates an escape when an even run of backslashes
/// precedes it.  Such a string uses only the plain escapes, never a
/// unicode escape sequence.
pub open spec fn plain_escapes(s: Seq<char>) -> bool {
    forall|i: int|
        0 <= i < s.len() - 1 ==> !((#[trigger] s[i]) == '\\' && s[i + 1] == 'u' && esc_run(s, i)
            % 2 == 0)
}

/// Unescaping a string that uses only plain escapes: each `\` vanishes
/// and the character after it is taken literally; a trailing `\` emits
/// nothing.
pub open spec fn unescape_simple_spec(s: Seq<char>) -> Seq<char>
    decreases s.len(),
{
    if s.len() == 0 {
        Seq::<char>::empty()
    } else if s[0] == '\\' {
        if s.len() == 1 {
            Seq::<char>::empty()
        } else {
            seq![s[1]] + unescape_simple_spec(s.skip(2))
        }
    } else {
        seq![s[0]] + unescape_simple_spec(s.skip(1))
    }
}

/// A run of escapes never reaches further back than the start.
proof fn lemma_esc_run_bound(s: Seq<char>, i: int)
    requires
        0 <= i <= s.len(),
    ensures
        0 <= esc_run(s, i) <= i,
    decreases i,
{
    if i > 0 && s[i - 1] == '\\' {
        lemma_esc_run_bound(s, i - 1);
    }
}

/// Within the first operand of a concatenation, runs of escapes are
/// those of the first operand.
proof fn lemma_esc_run_prefix(a: Seq<char>, b: Seq<char>, j: int)
    requires
        0 <= j <= a.len(),
    ensures
        esc_run(a + b, j) == esc_run(a, j),
    decreases j,
{
    if j > 0 {
        assert((a + b)[j - 1] == a[j - 1]);
        if a[j - 1] == '\\' {
            lemma_esc_run_prefix(a, b, j - 1);
        }
    }
}

/// Within the second operand, a run of escapes is the second
/// operand's own, except that a run reaching the second operand's
/// start continues into the first operand's trailing escapes.
proof fn lemma_esc_run_concat(a: Seq<char>, b: Seq<char>, i: int)
    requires
        0 <= i <= b.len(),
    ensures
        esc_run(a + b, a.len() + i) == (if esc_run(b, i) == i {
            i + esc_run(a, a.len() as int)
        } else {
            esc_run(b, i)
        }),
    decreases i,
{
    if i == 0 {
        lemma_esc_run_prefix(a, b, a.len() as int);
    } else {
        assert((a + b)[a.len() + i - 1] == b[i - 1]);
        lemma_esc_run_concat(a, b, i - 1);
        lemma_esc_run_bound(b, i - 1);
    }
}

/// Unescaping undoes escaping: the escaped form of any string uses
/// only the plain escapes (every backslash it puts in front of `u`'s
/// neighbourhood is itself escaped), and unescaping it gives the
/// string back — `unescape` is a left inverse of `escape`.
pub proof fn lemma_unescape_escape(p: Seq<char>)
    ensures
        plain_escapes(escape_spec(p)),
        unescape_simple_spec(escape_spec(p)) == p,
    decreases p.len(),
{
    if p.len() == 0 {
        assert(unescape_simple_spec(escape_spec(p)) =~= p);
    } else {
        let seg = escape_char_spec(p[0]);
        let rest = escape_spec(p.skip(1));
        let es = escape_spec(p);
        assert(es == seg + rest);
        lemma_unescape_escape(p.skip(1));
        if p[0] == '/' || p[0] == '\\' {
            assert(es[0] == '\\' && es[1] == p[0]);
            assert(es.skip(2) =~= rest);
            assert(unescape_simple_spec(es) == seq![p[0]] + unescape_simple_spec(rest));
        } else {
            assert(es[0] == p[0] && es[0] != '\\');
            assert(es.skip(1) =~= rest);
            assert(unescape_simple_spec(es) == seq![p[0]] + unescape_simple_spec(rest));
        }
        assert(seq![p[0]] + p.skip(1) =~= p);
        assert(esc_run(seg, seg.len() as int) % 2 == 0) by {
            if p[0] == '/' {
                assert(seg[1] == '/');
            } else if p[0] == '\\' {
                assert(seg[1] == '\\' && seg[0] == '\\');
                assert(esc_run(seg, 0) == 0);
                assert(esc_run(seg, 1) == 1);
                assert(esc_run(seg, 2) == 2);
            } else {
                assert(seg[0] != '\\');
            }
        }
        assert forall|i: int|
            0 <= i < es.len() - 1 implies !((#[trigger] es[i]) == '\\' && es[i + 1] == 'u'
            && esc_run(es, i) % 2 == 0) by {
            if es[i] == '\\' && es[i + 1] == 'u' {
                if i < seg.len() {
                    if seg.len() == 1 {
                        assert(es[0] == p[0] && p[0] != '\\');
                    } else if i == 0 {
                        assert(es[1] == p[0] && (p[0] == '/' || p[0] == '\\'));
                    } else {
                        assert(es[0] == '\\');
                        assert(esc_run(es, 0) == 0);
                        assert(esc_run(es, 1) == 1);
                    }
                } else {
                    let j = i - seg.len();
                    assert(es[i] == rest[j]);
                    assert(es[i + 1] == rest[j + 1]);
                    lemma_esc_run_concat(seg, rest, j);
                    assert(esc_run(es, i) % 2 == esc_run(rest, j) % 2);
                    assert(!(rest[j] == '\\' && rest[j + 1] == 'u' && esc_run(rest, j) % 2 == 0));
                }
            }
        }
    }
}

/// Splitting on unescaped separators, tracking the escape state while
/// scanning left to right; separators that split are dropped and the
/// pieces keep their escapes.  A separator leaves the escape state as
/// it stands — it does not clear it — so after an escaped separator
/// every further separator is also taken as escaped until an ordinary
/// character intervenes.
pub open spec fn split_rec(s: Seq<char>, i: int, esc: bool, cur: Seq<char>, acc: Seq<Seq<char>>) -> Seq<
    Seq<char>,
>
    decreases s.len() - i,
{
    if i < 0 || i >= s.len() {
        acc.push(cur)
    } else if s[i] == '/' {
        if esc {
            split_rec(s, i + 1, esc, cur.push(s[i]), acc)
        } else {
            split_rec(s, i + 1, esc, Seq::<char>::empty(), acc.push(cur))
        }
    } else {
        split_rec(s, i + 1, s[i] == '\\' && !esc, cur.push(s[i]), acc)
    }
}

/// The pieces of `s` between its unescaped separators.  Splitting the
/// empty string gives one empty piece.
pub open spec fn split_spec(s: Seq<char>) -> Seq<Seq<char>> {
    split_rec(s, 0, false, Seq::<char>::empty(), Seq::<Seq<char>>::empty())
}

/// The components of a path: what splitting yields, minus the empty
/// piece a leading separator produces; the root `/` has no components.
pub open spec fn parts_spec(s: Seq<char>) -> Seq<Seq<char>> {
    if s == seq!['/'] {
        Seq::<Seq<char>>::empty()
    } else if s.len() > 0 && s[0] == '/' {
        split_spec(s).skip(1)
    } else {
        split_spec(s)
    }
}

/// A canonical path has no empty component.
pub open spec fn is_canonical_spec(s: Seq<char>) -> bool {
    forall|k: int| 0 <= k < parts_spec(s).len() ==> (#[trigger] parts_spec(s)[k]).len() != 0
}

/// The components that survive canonization.
pub open spec fn nonempty_parts(s: Seq<char>) -> Seq<Seq<char>> {
    parts_spec(s).filter(|p: Seq<char>| p.len() != 0)
}

/// Components joined back together with single separators.
pub open spec fn join_parts(ps: Seq<Seq<char>>) -> Seq<char>
    decreases ps.len(),
{
    if ps.len() == 0 {
        Seq::<char>::empty()
    } else if ps.len() == 1 {
        ps[0]
    } else {
        ps[0] + seq!['/'] + join_parts(ps.skip(1))
    }
}

/// Canonizing drops empty components and collapses the separators
/// around them, keeping a leading separator if there was one.
pub open spec fn canonize_spec(s: Seq<char>) -> Seq<char> {
    if s.len() == 0 {
        Seq::<char>::empty()
    } else {
        (if s[0] == '/' {
            seq!['/']
        } else {
            Seq::<char>::empty()
        }) + join_parts(nonempty_parts(s))
    }
}

/// What constructing a path from a raw string yields: the string
/// itself when canonical, its canonization otherwise.
pub open spec fn from_spec(s: Seq<char>) -> Seq<char> {
    if is_canonical_spec(s) {
        s
    } else {
        canonize_spec(s)
    }
}

/// Appending a component: the base is canonized, a separator and the
/// new part are attached, and the result canonized again; appending
/// the empty string changes nothing beyond canonizing the base.
pub open spec fn append_spec(path: Seq<char>, other: Seq<char>) -> Seq<char> {
    let base = from_spec(path);
    if other.len() == 0 {
        base
    } else {
        from_spec(base + seq!['/'] + other)
    }
}

/// The prefixes enumerated by a forward walk over the separators of
/// `all`, starting at offset `base`, scanning the suffix `cur`.
pub open spec fn dirnames_rec(all: Seq<char>, base: int, cur: Seq<char>) -> Seq<Seq<char>>
    decreases all.len() - base,
{
    if base >= all.len() {
        Seq::<Seq<char>>::empty()
    } else {
        let p = find_sep_pos(cur);
        if p < 0 {
            seq![all]
        } else if base + p + 1 >= all.len() {
            seq![all.take(base + p)]
        } else {
            seq![all.take(base + p)] + dirnames_rec(all, base + p + 1, all.skip(base + p + 1))
        }
    }
}

/// Every prefix of the path from the root down to the whole path.  The
/// first scan starts on the whole string with offset 1, so a leading
/// separator yields the root prefix first.  The scan measures that
/// first offset in bytes of the UTF-8 encoding, so a single multi-byte
/// character is scanned — and yielded whole — where a single one-byte
/// character would already count as exhausted.
pub open spec fn dirnames_spec(s: Seq<char>) -> Seq<Seq<char>> {
    if s == seq!['/'] {
        seq![seq!['/']]
    } else if s.len() == 1 && encode_utf8(s).len() >= 2 {
        seq![s]
    } else {
        dirnames_rec(s, 1, s)
    }
}

/// The root path.
pub fn root() -> (r: String)
    ensures
        r@ =~= seq!['/'],
{
    proof {
        reveal_strlit("/");
    }
    "/".to_owned()
}

/// Relies on the client library's `Path::is_absolute`: a path is
/// absolute exactly when it starts with the separator.
#[verifier::external_body]
pub fn is_absolute(path: String) -> (r: bool)
    ensures
        r == (path@.len() > 0 && path@[0] == '/'),
{
    Path::is_absolute(&path)
}

/// Relies on the client library's `Path::is_parent`: `/` is
/// everything's parent, every path is its own parent, and otherwise
/// the child must extend the parent at a separator boundary.
#[verifier::external_body]
pub fn is_parent(parent: String, other: String) -> (r: bool)
    ensures
        r == is_parent_spec(parent@, other@),
{
    Path::is_parent(&parent, &other)
}

/// Relies on the client library's `Path::is_immediate_parent`: the
/// parent exactly one level above the path.
#[verifier::external_body]
pub fn is_immediate_parent(parent: String, other: String) -> (r: bool)
    ensures
        r == is_immediate_parent_spec(parent@, other@),
{
    Path::is_immediate_parent(&parent, &other)
}

/// Relies on the client library's `Path::strip_prefix`: the path with
/// a parent prefix removed at the separator boundary.
#[verifier::external_body]
pub fn strip_prefix(prefix: String, path: String) -> (r: Option<String>)
    ensures
        match r {
            Some(s) => strip_prefix_spec(prefix@, path@) == Some(s@),
            None => strip_prefix_spec(prefix@, path@) is None,
        },
{
    Path::strip_prefix(&prefix, &path).map(|s| String::from(s))
}

/// Relies on the client library's `Path::lcp`: the longest common
/// parent of the two paths, `/` when they are disjoint.
#[verifier::external_body]
pub fn lcp(path0: String, path1: String) -> (r: String)
    ensures
        r@ == lcp_spec(path0@, path1@),
{
    String::from(Path::lcp(&path0, &path1))
}

/// Relies on the client library's `Path::escape`: a `\` is put in
/// front of every `/` and `\`, so the escaped string reads as a single
/// path component.
#[verifier::external_body]
pub fn escape(path: String) -> (r: String)
    ensures
        r@ == escape_spec(path@),
{
    String::from(Path::escape(&path))
}

/// Relies on the client library's `Path::unescape`.  Besides the plain
/// escapes it also decodes `\u{..}` unicode sequences, so the exact
/// contract is stated for strings without them.
#[verifier::external_body]
pub fn unescape(path: String) -> (r: String)
    ensures
        path@.len() == 0 ==> r@.len() == 0,
        plain_escapes(path@) ==> r@ == unescape_simple_spec(path@),
{
    String::from(Path::unescape(&path))
}

/// Relies on the client library's `Path::append`: the other string
/// becomes one or more further components below the path, with both
/// sides canonized.
#[verifier::external_body]
pub fn append(path: String, other: String) -> (r: String)
    ensures
        r@ == append_spec(path@, other@),
{
    Path::from(&path).append(&other).to_string()
}

/// Relies on the client library's `Path::parts`: the components of
/// the path, in order, escapes kept.
#[verifier::external_body]
pub fn parts(path: String) -> (r: Vec<String>)
    ensures
        r.deep_view() == parts_spec(path@),
{
    Path::parts(&path).map(|s| String::from(s)).collect()
}

/// Relies on the client library's `Path::dirnames`: every prefix of
/// the path from the root down to the whole path.  The library's
/// iterator steps one byte past the first unescaped separator, so it
/// indexes past the end when that separator ends the string, and
/// lands inside a character when a multi-byte character follows the
/// separator (it does not return on either input); the preconditions
/// leave both out.
#[verifier::external_body]
pub fn dirnames(path: String) -> (r: Vec<String>)
    requires
        path@.len() < 2 || find_sep_pos(path@) != path@.len() - 1,
        find_sep_pos(path@) >= 0 && find_sep_pos(path@) + 1 < path@.len()
            ==> path@[find_sep_pos(path@) + 1] as u32 <= 127,
    ensures
        r.deep_view() == dirnames_spec(path@),
{
    Path::dirnames(&path).map(|d| String::from(d)).collect()
}

/// Relies on the client library's `Path::levels`: how many components
/// the path has.  The count is returned in 32 bits.
#[verifier::external_body]
pub fn levels(path: String) -> (r: u32)
    ensures
        parts_spec(path@).len() < 0x100000000 ==> r == parts_spec(path@).len(),
{
    Path::levels(&path) as u32
}

/// Relies on the client library's `Path::dirname`: the path without
/// its last component.
#[verifier::external_body]
pub fn dirname(path: String) -> (r: Option<String>)
    ensures
        match r {
            Some(d) => dirname_spec(path@) == Some(d@),
            None => dirname_spec(path@) is None,
        },
{
    Path::dirname(&path).map(|s| String::from(s))
}

/// Relies on the client library's `Path::dirname_with_sep`: the path
/// without its last component, trailing separator kept.
#[verifier::external_body]
pub fn dirname_with_sep(path: String) -> (r: Option<String>)
    ensures
        match r {
            Some(d) => dirname_with_sep_spec(path@) == Some(d@),
            None => dirname_with_sep_spec(path@) is None,
        },
{
    Path::dirname_with_sep(&path).map(|s| String::from(s))
}

/// Relies on the client library's `Path::basename`: the last
/// component of the path.
#[verifier::external_body]
pub fn basename(path: String) -> (r: Option<String>)
    ensures
        match r {
            Some(b) => basename_spec(path@) == Some(b@),
            None => basename_spec(path@) is None,
        },
{
    Path::basename(&path).map(|s| String::from(s))
}

/// Relies on the client library's `Path::rfind_sep`: the byte
/// position of the last unescaped separator.  For ASCII paths the
/// byte position is the character position.
#[verifier::external_body]
pub fn rfind_sep(path: String) -> (r: Option<u32>)
    ensures
        (r is Some) == (last_sep(path@) >= 0),
        string_is_ascii(&path) && path@.len() < 0x100000000 ==> match r {
            Some(i) => i == last_sep(path@),
            None => last_sep(path@) < 0,
        },
{
    Path::rfind_sep(&path).map(|u| u as u32)
}

/// Relies on the client library's `Path::find_sep`: the byte position
/// of the first separator when it is unescaped (an escaped first
/// separator means no result).  For ASCII paths the byte position is
/// the character position.
#[verifier::external_body]
pub fn find_sep(path: String) -> (r: Option<u32>)
    ensures
        (r is Some) == (find_sep_pos(path@) >= 0),
        string_is_ascii(&path) && path@.len() < 0x100000000 ==> match r {
            Some(i) => i == find_sep_pos(path@),
            None => find_sep_pos(path@) < 0,
        },
{
    Path::find_sep(&path).map(|u| u as u32)
}

} // verus!
