//! Paths as text: segments, the textual join, and the containment test.
//!
//! A path is a string whose segments are separated by `/`. Its model is the
//! pair of [`is_absolute`] and [`segments`]: repeated and trailing separators
//! do not matter, and `.` and `..` are segments like any other. Nothing in
//! this module looks at a filesystem.

use vstd::prelude::*;

verus! {

/// The character that separates the segments of a path.
pub const SEPARATOR: char = '/';

/// A path is absolute when it starts at the top of the filesystem.
pub open spec fn is_absolute(text: Seq<char>) -> bool {
    text.len() > 0 && text[0] == '/'
}

/// The number of characters before the first separator of `text`, or the
/// length of `text` where it holds no separator.
pub open spec fn run_length(text: Seq<char>) -> nat
    decreases text.len(),
{
    if text.len() == 0 || text[0] == '/' {
        0
    } else {
        1 + run_length(text.skip(1))
    }
}

/// The segments of a path: its maximal runs of characters other than the
/// separator, in order.
pub open spec fn segments(text: Seq<char>) -> Seq<Seq<char>>
    decreases text.len(),
    via segments_terminates
{
    if text.len() == 0 {
        Seq::empty()
    } else if text[0] == '/' {
        segments(text.skip(1))
    } else {
        let n = run_length(text) as int;
        seq![text.take(n)] + segments(text.skip(n))
    }
}

#[via_fn]
proof fn segments_terminates(text: Seq<char>) {
    lemma_run_length_bounds(text);
}

/// A request path without its leading separator; `None` for a request path
/// that is empty or starts with anything else.
pub open spec fn strip_leading_separator_spec(request: Seq<char>) -> Option<Seq<char>> {
    if is_absolute(request) {
        Some(request.skip(1))
    } else {
        None
    }
}

/// The textual join of `base` and `rel`. An absolute `rel` replaces `base`;
/// otherwise `rel` follows `base`, with one separator between them unless
/// `base` is empty or already ends in one. Nothing is resolved: `.`, `..` and
/// repeated separators stay as they are.
pub open spec fn join_spec(base: Seq<char>, rel: Seq<char>) -> Seq<char> {
    if is_absolute(rel) {
        rel
    } else if base.len() == 0 || base.last() == '/' {
        base + rel
    } else {
        base + seq!['/'] + rel
    }
}

/// Whether `location` is `root` itself or lies below it: both are absolute or
/// both relative, and the segments of `root` are the first segments of
/// `location`. Only whole segments match.
pub open spec fn is_within_spec(root: Seq<char>, location: Seq<char>) -> bool {
    &&& is_absolute(root) == is_absolute(location)
    &&& segments(root).is_prefix_of(segments(location))
}

/// Strips the leading separator of a request path.
pub fn strip_leading_separator(request: &str) -> (rest: Option<&str>)
    ensures
        strip_leading_separator_spec(request@) == match rest {
            Some(stripped) => Some(stripped@),
            None => None,
        },
{
    let len: usize = request.unicode_len();
    if len == 0 {
        return None;
    }
    if request.get_char(0) != SEPARATOR {
        return None;
    }
    let rest = request.substring_char(1, len);
    assert(request@.subrange(1, len as int) =~= request@.skip(1));
    Some(rest)
}

/// Joins `rel` to `base` as text.
pub fn join(base: &str, rel: &str) -> (joined: String)
    ensures
        joined@ == join_spec(base@, rel@),
{
    let rel_len: usize = rel.unicode_len();
    if rel_len > 0 && rel.get_char(0) == SEPARATOR {
        return String::from_str(rel);
    }
    let base_len: usize = base.unicode_len();
    let mut joined = String::from_str(base);
    if base_len > 0 && base.get_char(base_len - 1) != SEPARATOR {
        proof {
            reveal_strlit("/");
        }
        joined.append("/");
        assert(joined@ =~= base@ + seq!['/']);
    }
    joined.append(rel);
    joined
}

/// Whether `location` is `root` itself or lies below it, segment by segment.
pub fn is_within(root: &str, location: &str) -> (inside: bool)
    ensures
        inside == is_within_spec(root@, location@),
{
    let root_chars = chars_of(root);
    let location_chars = chars_of(location);
    let root_absolute = root_chars.len() > 0 && root_chars[0] == SEPARATOR;
    let location_absolute = location_chars.len() > 0 && location_chars[0] == SEPARATOR;
    if root_absolute != location_absolute {
        return false;
    }
    let root_parts = split_segments(&root_chars);
    let location_parts = split_segments(&location_chars);
    assert(texts(root_parts@).len() == root_parts@.len());
    assert(texts(location_parts@).len() == location_parts@.len());
    if root_parts.len() > location_parts.len() {
        return false;
    }
    let mut k: usize = 0;
    while k < root_parts.len()
        invariant
            k <= root_parts@.len() <= location_parts@.len(),
            texts(root_parts@) == segments(root@),
            texts(location_parts@) == segments(location@),
            forall|m: int| 0 <= m < k ==> segments(root@)[m] == segments(location@)[m],
        decreases root_parts@.len() - k,
    {
        let same = same_text(&root_parts[k], &location_parts[k]);
        assert(texts(root_parts@)[k as int] == root_parts@[k as int]@);
        assert(texts(location_parts@)[k as int] == location_parts@[k as int]@);
        if !same {
            assert(segments(location@).subrange(0, segments(root@).len() as int)[k as int]
                == segments(location@)[k as int]);
            return false;
        }
        k = k + 1;
    }
    assert(segments(root@) =~= segments(location@).subrange(0, segments(root@).len() as int));
    true
}

/// The characters of a text, one by one.
fn chars_of(text: &str) -> (chars: Vec<char>)
    ensures
        chars@ == text@,
{
    let mut chars: Vec<char> = Vec::new();
    for c in it: text.chars()
        invariant
            chars@ == text@.take(it.index() as int),
            it.seq() == text@,
    {
        chars.push(c);
    }
    chars
}

/// The texts held by a list of character vectors.
spec fn texts(parts: Seq<Vec<char>>) -> Seq<Seq<char>> {
    parts.map_values(|part: Vec<char>| part@)
}

/// Splits the characters of a path into its segments.
fn split_segments(chars: &Vec<char>) -> (parts: Vec<Vec<char>>)
    ensures
        texts(parts@) == segments(chars@),
{
    let n: usize = chars.len();
    let mut parts: Vec<Vec<char>> = Vec::new();
    let mut i: usize = 0;
    assert(chars@.skip(0) =~= chars@);
    assert(texts(parts@) + segments(chars@.skip(0)) =~= segments(chars@));
    while i < n
        invariant
            n == chars@.len(),
            i <= n,
            texts(parts@) + segments(chars@.skip(i as int)) == segments(chars@),
        decreases n - i,
    {
        let ghost rest = chars@.skip(i as int);
        if chars[i] == SEPARATOR {
            assert(rest.skip(1) =~= chars@.skip(i + 1));
            i = i + 1;
        } else {
            let start: usize = i;
            let mut part: Vec<char> = Vec::new();
            while i < n && chars[i] != SEPARATOR
                invariant
                    n == chars@.len(),
                    start <= i <= n,
                    part@ == chars@.subrange(start as int, i as int),
                    forall|k: int| start <= k < i ==> chars@[k] != '/',
                decreases n - i,
            {
                part.push(chars[i]);
                i = i + 1;
                assert(part@ =~= chars@.subrange(start as int, i as int));
            }
            proof {
                let len: int = i - start;
                lemma_run_length_is(rest, len);
                assert(rest.take(len) =~= part@);
                assert(rest.skip(len) =~= chars@.skip(i as int));
                assert(texts(parts@.push(part)) =~= texts(parts@).push(part@));
                assert(texts(parts@).push(part@) + segments(chars@.skip(i as int)) =~= texts(
                    parts@,
                ) + segments(rest));
            }
            parts.push(part);
        }
    }
    assert(texts(parts@) + segments(chars@.skip(n as int)) =~= texts(parts@));
    parts
}

/// Whether two character vectors hold the same text.
fn same_text(a: &Vec<char>, b: &Vec<char>) -> (same: bool)
    ensures
        same == (a@ == b@),
{
    if a.len() != b.len() {
        return false;
    }
    let mut i: usize = 0;
    while i < a.len()
        invariant
            a@.len() == b@.len(),
            i <= a@.len(),
            forall|k: int| 0 <= k < i ==> a@[k] == b@[k],
        decreases a@.len() - i,
    {
        if a[i] != b[i] {
            return false;
        }
        i = i + 1;
    }
    assert(a@ =~= b@);
    true
}

/// No segment is empty, and no segment holds a separator.
pub proof fn lemma_segments_are_clean(text: Seq<char>)
    ensures
        forall|i: int| 0 <= i < segments(text).len() ==> (#[trigger] segments(text)[i]).len() > 0,
        forall|i: int, k: int|
            0 <= i < segments(text).len() && 0 <= k < segments(text)[i].len() ==> (
            #[trigger] segments(text)[i][k]) != '/',
    decreases text.len(),
{
    if text.len() == 0 {
        assert(segments(text).len() == 0);
    } else if text[0] == '/' {
        lemma_segments_are_clean(text.skip(1));
        assert(segments(text) == segments(text.skip(1)));
    } else {
        let n = run_length(text) as int;
        let rest = segments(text.skip(n));
        lemma_run_length_bounds(text);
        lemma_run_ends_at_separator(text);
        lemma_segments_are_clean(text.skip(n));
        assert(segments(text) == seq![text.take(n)] + rest);
        assert forall|i: int| 0 < i < segments(text).len() implies #[trigger] segments(text)[i]
            == rest[i - 1] by {}
    }
}

/// Where a separator stands between two texts, the segments of the whole are
/// those of the first text followed by those of the second.
pub proof fn lemma_segments_of_joined(a: Seq<char>, b: Seq<char>)
    ensures
        segments(a + seq!['/'] + b) == segments(a) + segments(b),
    decreases a.len(),
{
    let whole = a + seq!['/'] + b;
    if a.len() == 0 {
        assert(whole.skip(1) =~= b);
        assert(segments(a) + segments(b) =~= segments(b));
    } else if a[0] == '/' {
        assert(whole.skip(1) =~= a.skip(1) + seq!['/'] + b);
        lemma_segments_of_joined(a.skip(1), b);
    } else {
        let n = run_length(a) as int;
        lemma_run_length_bounds(a);
        lemma_run_ends_at_separator(a);
        lemma_run_length_is(whole, n);
        assert(whole.take(n) =~= a.take(n));
        assert(whole.skip(n) =~= a.skip(n) + seq!['/'] + b);
        lemma_segments_of_joined(a.skip(n), b);
        assert(segments(whole) =~= segments(a) + segments(b));
    }
}

/// A trailing separator changes nothing: the segments stay the same.
pub proof fn lemma_trailing_separator_is_ignored(text: Seq<char>)
    ensures
        segments(text.push('/')) == segments(text),
{
    lemma_segments_of_joined(text, Seq::<char>::empty());
    assert(text.push('/') =~= text + seq!['/'] + Seq::<char>::empty());
    assert(segments(text) + segments(Seq::<char>::empty()) =~= segments(text));
}

/// Every location is within itself.
pub proof fn lemma_within_itself(root: Seq<char>)
    ensures
        is_within_spec(root, root),
{
    assert(segments(root) =~= segments(root).subrange(0, segments(root).len() as int));
}

/// What is within a location that is within a root is within that root.
pub proof fn lemma_within_is_transitive(root: Seq<char>, middle: Seq<char>, location: Seq<char>)
    requires
        is_within_spec(root, middle),
        is_within_spec(middle, location),
    ensures
        is_within_spec(root, location),
{
    let r = segments(root);
    let m = segments(middle);
    let l = segments(location);
    assert(r =~= l.subrange(0, r.len() as int)) by {
        assert forall|k: int| 0 <= k < r.len() implies r[k] == l[k] by {
            assert(r[k] == m.subrange(0, r.len() as int)[k]);
            assert(m[k] == l.subrange(0, m.len() as int)[k]);
        }
    }
}

/// Joining a relative path to a base never leaves the base: the join is
/// within the base, whatever segments the relative path holds.
pub proof fn lemma_join_is_within_base(base: Seq<char>, rel: Seq<char>)
    requires
        !is_absolute(rel),
    ensures
        is_within_spec(base, join_spec(base, rel)),
        segments(join_spec(base, rel)) == segments(base) + segments(rel),
{
    let joined = join_spec(base, rel);
    if base.len() == 0 {
        assert(joined =~= rel);
        assert(segments(base) + segments(rel) =~= segments(rel));
    } else if base.last() == '/' {
        let trunk = base.drop_last();
        assert(base =~= trunk + seq!['/'] + Seq::<char>::empty());
        assert(joined =~= trunk + seq!['/'] + rel);
        lemma_segments_of_joined(trunk, Seq::<char>::empty());
        lemma_segments_of_joined(trunk, rel);
        assert(segments(trunk) + segments(Seq::<char>::empty()) =~= segments(trunk));
    } else {
        lemma_segments_of_joined(base, rel);
    }
    assert(segments(base) =~= (segments(base) + segments(rel)).subrange(
        0,
        segments(base).len() as int,
    ));
}

/// The first run of a text ends within the text, and is not empty where the
/// text starts with a character other than the separator.
proof fn lemma_run_length_bounds(text: Seq<char>)
    ensures
        run_length(text) <= text.len(),
        text.len() > 0 && text[0] != '/' ==> run_length(text) >= 1,
    decreases text.len(),
{
    if text.len() > 0 && text[0] != '/' {
        lemma_run_length_bounds(text.skip(1));
    }
}

/// The first run of a text holds no separator, and ends at a separator or at
/// the end of the text.
proof fn lemma_run_ends_at_separator(text: Seq<char>)
    ensures
        forall|k: int| 0 <= k < run_length(text) ==> text[k] != '/',
        run_length(text) == text.len() || text[run_length(text) as int] == '/',
    decreases text.len(),
{
    lemma_run_length_bounds(text);
    if text.len() > 0 && text[0] != '/' {
        let rest = text.skip(1);
        lemma_run_ends_at_separator(rest);
        lemma_run_length_bounds(rest);
        assert forall|k: int| 0 <= k < run_length(text) implies text[k] != '/' by {
            if k > 0 {
                assert(text[k] == rest[k - 1]);
            }
        }
        if run_length(text) < text.len() {
            assert(text[run_length(text) as int] == rest[run_length(rest) as int]);
        }
    }
}

/// A run of `n` characters that holds no separator and ends at a separator
/// or at the end of the text is the first run of the text.
proof fn lemma_run_length_is(text: Seq<char>, n: int)
    requires
        0 <= n <= text.len(),
        forall|k: int| 0 <= k < n ==> text[k] != '/',
        n == text.len() || text[n] == '/',
    ensures
        run_length(text) == n,
    decreases n,
{
    if n > 0 {
        lemma_run_length_is(text.skip(1), n - 1);
    }
}

} // verus!
