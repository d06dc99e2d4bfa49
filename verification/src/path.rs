use vstd::prelude::*;

verus! {

/// Where the segment that starts at `i` ends: the index of the first `/` at or
/// after `i`, or the length of the text when there is none.
pub open spec fn segment_end(s: Seq<char>, i: int) -> int
    decreases s.len() - i,
{
    if i < 0 || i >= s.len() || s[i] == '/' {
        i
    } else {
        segment_end(s, i + 1)
    }
}

pub proof fn lemma_segment_end(s: Seq<char>, i: int)
    requires
        0 <= i <= s.len(),
    ensures
        i <= segment_end(s, i) <= s.len(),
        forall|k: int| i <= k < segment_end(s, i) ==> s[k] != '/',
        segment_end(s, i) < s.len() ==> s[segment_end(s, i)] == '/',
    decreases s.len() - i,
{
    if i < s.len() && s[i] != '/' {
        lemma_segment_end(s, i + 1);
    }
}

/// A segment that names nothing: the empty one and `.`.
pub open spec fn is_blank(seg: Seq<char>) -> bool {
    seg.len() == 0 || (seg.len() == 1 && seg[0] == '.')
}

/// The segment `..`.
pub open spec fn is_parent(seg: Seq<char>) -> bool {
    seg.len() == 2 && seg[0] == '.' && seg[1] == '.'
}

/// The segments of `s` from index `i` on that name something, in order.
pub open spec fn names_from(s: Seq<char>, i: int) -> Seq<Seq<char>>
    decreases s.len() + 1 - i,
{
    if 0 <= i < s.len() {
        proof {
            lemma_segment_end(s, i);
        }
        let j = segment_end(s, i);
        let seg = s.subrange(i, j);
        if is_blank(seg) {
            names_from(s, j + 1)
        } else {
            seq![seg] + names_from(s, j + 1)
        }
    } else {
        Seq::empty()
    }
}

/// The segments of a `/`-separated path that name something: empty segments
/// and `.` are left out.
pub open spec fn names(s: Seq<char>) -> Seq<Seq<char>> {
    names_from(s, 0)
}

/// The names with a single `/` between each two of them.
pub open spec fn joined(parts: Seq<Seq<char>>) -> Seq<char>
    decreases parts.len(),
{
    if parts.len() == 0 {
        Seq::empty()
    } else if parts.len() == 1 {
        parts[0]
    } else {
        joined(parts.drop_last()) + seq!['/'] + parts.last()
    }
}

/// Whether one of the names is `..`.
pub open spec fn climbs(parts: Seq<Seq<char>>) -> bool {
    exists|k: int| 0 <= k < parts.len() && is_parent(#[trigger] parts[k])
}

/// The place of a path below the directory it is unpacked into: its names
/// joined by `/`. A path without names has no place, and neither has one that
/// climbs with `..`.
pub open spec fn spec_relative(s: Seq<char>) -> Option<Seq<char>> {
    let parts = names(s);
    if parts.len() == 0 || climbs(parts) {
        None
    } else {
        Some(joined(parts))
    }
}

/// The last name of a path, unless the path has no names or ends in `..`.
pub open spec fn spec_file_name(s: Seq<char>) -> Option<Seq<char>> {
    let parts = names(s);
    if parts.len() == 0 || is_parent(parts.last()) {
        None
    } else {
        Some(parts.last())
    }
}

/// The index of the last `.` in the text, or -1 when it has none.
pub open spec fn last_dot(s: Seq<char>) -> int
    decreases s.len(),
{
    if s.len() == 0 {
        -1
    } else if s.last() == '.' {
        s.len() - 1
    } else {
        last_dot(s.drop_last())
    }
}

/// What follows the last `.` of the file name. A path without a file name
/// has no extension, nor has a file name without a `.` or with its only `.`
/// in front.
pub open spec fn spec_extension(s: Seq<char>) -> Option<Seq<char>> {
    match spec_file_name(s) {
        None => None,
        Some(name) => {
            let d = last_dot(name);
            if d <= 0 {
                None
            } else {
                Some(name.subrange(d + 1, name.len() as int))
            }
        },
    }
}

pub proof fn lemma_last_dot(s: Seq<char>)
    ensures
        -1 <= last_dot(s) < s.len(),
        last_dot(s) >= 0 ==> s[last_dot(s)] == '.',
        forall|k: int| last_dot(s) < k < s.len() ==> s[k] != '.',
        last_dot(s) == -1 <==> !s.contains('.'),
    decreases s.len(),
{
    if s.len() > 0 {
        if s.last() == '.' {
            assert(s.contains('.'));
        } else {
            let t = s.drop_last();
            lemma_last_dot(t);
            assert forall|k: int| last_dot(s) < k < s.len() implies s[k] != '.' by {
                if k < t.len() {
                    assert(t[k] == s[k]);
                }
            }
            if last_dot(t) >= 0 {
                assert(s[last_dot(t)] == '.');
                assert(s.contains('.'));
            } else {
                assert forall|k: int| 0 <= k < s.len() implies s[k] != '.' by {
                    if k < t.len() {
                        assert(t[k] == s[k]);
                        assert(t.contains(t[k]));
                    }
                }
            }
        }
    }
}

/// Finds where the segment that starts at `i` ends.
fn scan_segment(s: &str, i: usize, n: usize) -> (j: usize)
    requires
        n == s@.len(),
        i <= n,
    ensures
        j == segment_end(s@, i as int),
        i <= j <= n,
{
    let mut j = i;
    while j < n && s.get_char(j) != '/'
        invariant
            n == s@.len(),
            i <= j <= n,
            segment_end(s@, i as int) == segment_end(s@, j as int),
        decreases n - j,
    {
        j += 1;
    }
    j
}

/// Whether the segment `s[i..j]` is empty or `.`.
fn blank_at(s: &str, i: usize, j: usize) -> (r: bool)
    requires
        i <= j <= s@.len(),
    ensures
        r == is_blank(s@.subrange(i as int, j as int)),
{
    j == i || (j - i == 1 && s.get_char(i) == '.')
}

/// Whether the segment `s[i..j]` is `..`.
fn parent_at(s: &str, i: usize, j: usize) -> (r: bool)
    requires
        i <= j <= s@.len(),
    ensures
        r == is_parent(s@.subrange(i as int, j as int)),
{
    j - i == 2 && s.get_char(i) == '.' && s.get_char(i + 1) == '.'
}

/// Where a path belongs below the directory it is unpacked into.
pub fn relative(s: &str) -> (r: Option<String>)
    ensures
        match spec_relative(s@) {
            Some(p) => r matches Some(q) && q@ == p,
            None => r is None,
        },
{
    let n = s.unicode_len();
    let mut out = String::new();
    let mut first = true;
    let mut i: usize = 0;
    let ghost mut done: Seq<Seq<char>> = Seq::empty();
    while i < n
        invariant
            n == s@.len(),
            names(s@) == done + names_from(s@, i as int),
            !climbs(done),
            out@ == joined(done),
            first == (done.len() == 0),
        decreases n - i,
    {
        let j = scan_segment(s, i, n);
        let ghost seg = s@.subrange(i as int, j as int);
        let ghost rest = if j < n { names_from(s@, j + 1) } else { Seq::empty() };
        assert(names_from(s@, j + 1) == rest);
        if !blank_at(s, i, j) {
            if parent_at(s, i, j) {
                assert(names(s@)[done.len() as int] == seg);
                return None;
            }
            if !first {
                proof {
                    reveal_strlit("/");
                }
                out.append("/");
                assert("/"@ =~= seq!['/']);
            }
            out.append(s.substring_char(i, j));
            proof {
                let grown = done.push(seg);
                assert(grown.drop_last() =~= done);
                assert(grown.last() == seg);
                assert(out@ =~= joined(grown));
                assert forall|k: int| 0 <= k < grown.len() implies !is_parent(#[trigger] grown[k]) by {
                    if k < done.len() {
                        assert(grown[k] == done[k]);
                    }
                }
                assert(names(s@) =~= grown + rest);
                done = grown;
            }
            first = false;
        }
        if j >= n {
            assert(names(s@) =~= done);
            return if first { None } else { Some(out) };
        }
        i = j + 1;
    }
    assert(names(s@) =~= done);
    if first {
        None
    } else {
        Some(out)
    }
}

/// The last name of a path: the name of the file or directory it leads to.
pub fn file_name<'a>(s: &'a str) -> (r: Option<&'a str>)
    ensures
        match spec_file_name(s@) {
            Some(name) => r matches Some(q) && q@ == name,
            None => r is None,
        },
{
    let n = s.unicode_len();
    let mut from: usize = 0;
    let mut to: usize = 0;
    let mut found = false;
    let mut i: usize = 0;
    let ghost mut done: Seq<Seq<char>> = Seq::empty();
    while i < n
        invariant
            n == s@.len(),
            names(s@) == done + names_from(s@, i as int),
            found == (done.len() > 0),
            found ==> from <= to <= n && done.last() == s@.subrange(from as int, to as int),
        decreases n - i,
    {
        let j = scan_segment(s, i, n);
        let ghost seg = s@.subrange(i as int, j as int);
        let ghost rest = if j < n { names_from(s@, j + 1) } else { Seq::empty() };
        assert(names_from(s@, j + 1) == rest);
        if !blank_at(s, i, j) {
            proof {
                assert(names(s@) =~= done.push(seg) + rest);
                done = done.push(seg);
            }
            from = i;
            to = j;
            found = true;
        }
        if j >= n {
            i = n;
        } else {
            i = j + 1;
        }
    }
    assert(names(s@) =~= done);
    if !found || parent_at(s, from, to) {
        None
    } else {
        Some(s.substring_char(from, to))
    }
}

/// Finds the last `.` of the text, if it has one.
fn find_last_dot(s: &str) -> (r: Option<usize>)
    ensures
        match r {
            Some(d) => d == last_dot(s@),
            None => last_dot(s@) == -1,
        },
{
    let mut k = s.unicode_len();
    proof {
        assert(s@.subrange(0, k as int) =~= s@);
    }
    while k > 0
        invariant
            k <= s@.len(),
            last_dot(s@) == last_dot(s@.subrange(0, k as int)),
        decreases k,
    {
        k -= 1;
        proof {
            let t = s@.subrange(0, k + 1);
            assert(t.last() == s@[k as int]);
            assert(t.drop_last() =~= s@.subrange(0, k as int));
        }
        if s.get_char(k) == '.' {
            return Some(k);
        }
    }
    None
}

/// The extension of the file name of a path, without its dot.
pub fn extension<'a>(s: &'a str) -> (r: Option<&'a str>)
    ensures
        match spec_extension(s@) {
            Some(ext) => r matches Some(q) && q@ == ext,
            None => r is None,
        },
{
    match file_name(s) {
        None => None,
        Some(name) => {
            proof {
                lemma_last_dot(name@);
            }
            let m = name.unicode_len();
            match find_last_dot(name) {
                None => None,
                Some(d) => {
                    if d == 0 {
                        None
                    } else {
                        Some(name.substring_char(d + 1, m))
                    }
                },
            }
        },
    }
}

/// Whether the text has a `.` anywhere.
pub fn has_dot(s: &str) -> (r: bool)
    ensures
        r == s@.contains('.'),
{
    proof {
        lemma_last_dot(s@);
    }
    find_last_dot(s).is_some()
}

/// A name as a path can hold it: not empty, not `.`, and without a `/`.
pub open spec fn is_name(seg: Seq<char>) -> bool {
    !is_blank(seg) && !seg.contains('/')
}

/// Whether a path is a place below a directory, written in the one way
/// there is: names that are not `..`, with a single `/` between each two.
pub open spec fn is_place(p: Seq<char>) -> bool {
    spec_relative(p) == Some(p)
}

/// Every segment that `names_from` gives is a name.
pub proof fn lemma_names_are_names(s: Seq<char>, i: int)
    requires
        0 <= i,
    ensures
        forall|k: int| 0 <= k < names_from(s, i).len() ==> is_name(#[trigger] names_from(s, i)[k]),
    decreases s.len() + 1 - i,
{
    if i < s.len() {
        lemma_segment_end(s, i);
        let j = segment_end(s, i);
        let seg = s.subrange(i, j);
        lemma_names_are_names(s, j + 1);
        if !is_blank(seg) {
            assert(!seg.contains('/')) by {
                if seg.contains('/') {
                    let k = choose|k: int| 0 <= k < seg.len() && seg[k] == '/';
                    assert(s[i + k] == '/');
                }
            }
            assert forall|k: int| 0 <= k < names_from(s, i).len() implies is_name(
                #[trigger] names_from(s, i)[k],
            ) by {
                if k > 0 {
                    assert(names_from(s, i)[k] == names_from(s, j + 1)[k - 1]);
                }
            }
        }
    }
}

/// Text in front does not change where a segment ends, but for the shift.
proof fn lemma_segment_end_shift(front: Seq<char>, s: Seq<char>, i: int)
    requires
        0 <= i <= s.len(),
    ensures
        segment_end(front + s, front.len() + i) == front.len() + segment_end(s, i),
    decreases s.len() - i,
{
    let whole = front + s;
    if i < s.len() {
        assert(whole[front.len() + i] == s[i]);
        if s[i] != '/' {
            lemma_segment_end_shift(front, s, i + 1);
        }
    }
}

/// Text in front does not change the names that follow it.
proof fn lemma_names_shift(front: Seq<char>, s: Seq<char>, i: int)
    requires
        0 <= i,
    ensures
        names_from(front + s, front.len() + i) == names_from(s, i),
    decreases s.len() + 1 - i,
{
    let whole = front + s;
    if i < s.len() {
        lemma_segment_end(s, i);
        lemma_segment_end_shift(front, s, i);
        let j = segment_end(s, i);
        assert(whole.subrange(front.len() + i, front.len() + j) =~= s.subrange(i, j));
        lemma_names_shift(front, s, j + 1);
    }
}

/// Where a segment ends within `a` does not depend on what follows a `/`
/// after `a`.
proof fn lemma_segment_end_front(a: Seq<char>, b: Seq<char>, i: int)
    requires
        0 <= i <= a.len(),
    ensures
        segment_end(a + seq!['/'] + b, i) == segment_end(a, i),
    decreases a.len() - i,
{
    let whole = a + seq!['/'] + b;
    if i < a.len() {
        assert(whole[i] == a[i]);
        if a[i] != '/' {
            lemma_segment_end_front(a, b, i + 1);
        }
    } else {
        assert(whole[i] == '/');
    }
}

/// The names of two texts with a `/` between them are the names of the
/// first, then those of the second.
proof fn lemma_names_split(a: Seq<char>, b: Seq<char>, i: int)
    requires
        0 <= i <= a.len(),
    ensures
        names_from(a + seq!['/'] + b, i) == names_from(a, i) + names(b),
    decreases a.len() - i,
{
    let whole = a + seq!['/'] + b;
    lemma_segment_end(a, i);
    lemma_segment_end_front(a, b, i);
    let j = segment_end(a, i);
    assert(whole.subrange(i, j) =~= a.subrange(i, j));
    assert(names_from(whole, j + 1) == names_from(a, j + 1) + names(b)) by {
        if j < a.len() {
            lemma_names_split(a, b, j + 1);
        } else {
            lemma_names_shift(a + seq!['/'], b, 0);
            assert(names_from(a, j + 1) =~= Seq::<Seq<char>>::empty());
        }
    }
    if i < a.len() {
        assert(names_from(whole, i) =~= names_from(a, i) + names(b));
    } else {
        assert(is_blank(whole.subrange(i, j)));
        assert(names_from(a, i) =~= Seq::<Seq<char>>::empty());
    }
}

/// A name is the only name of itself.
pub proof fn lemma_names_of_name(seg: Seq<char>)
    requires
        is_name(seg),
    ensures
        names(seg) == seq![seg],
{
    lemma_segment_end(seg, 0);
    let j = segment_end(seg, 0);
    if j < seg.len() {
        assert(seg.contains(seg[j]));
    }
    assert(seg.subrange(0, j) =~= seg);
    assert(names_from(seg, j + 1) =~= Seq::<Seq<char>>::empty());
    assert(names(seg) =~= seq![seg]);
}

/// Names that are joined and taken apart again are the same names.
pub proof fn lemma_names_of_joined(parts: Seq<Seq<char>>)
    requires
        forall|k: int| 0 <= k < parts.len() ==> is_name(#[trigger] parts[k]),
    ensures
        names(joined(parts)) == parts,
    decreases parts.len(),
{
    if parts.len() == 0 {
        assert(names(joined(parts)) =~= parts);
    } else if parts.len() == 1 {
        lemma_names_of_name(parts[0]);
        assert(names(joined(parts)) =~= parts);
    } else {
        let front = parts.drop_last();
        assert forall|k: int| 0 <= k < front.len() implies is_name(#[trigger] front[k]) by {
            assert(front[k] == parts[k]);
        }
        lemma_names_of_joined(front);
        lemma_names_split(joined(front), parts.last(), 0);
        lemma_names_of_name(parts.last());
        assert(names(joined(parts)) =~= parts);
    }
}

/// The place of a path is a place: finding the place of a place changes
/// nothing. A place has the names of the path it was found for, and none of
/// them is empty, `.` or `..`.
pub proof fn lemma_place_is_place(s: Seq<char>)
    ensures
        spec_relative(s) matches Some(p) ==> {
            &&& is_place(p)
            &&& names(p) == names(s)
            &&& names(p).len() > 0
            &&& forall|k: int|
                0 <= k < names(p).len() ==> is_name(#[trigger] names(p)[k]) && !is_parent(
                    names(p)[k],
                )
        },
{
    lemma_names_are_names(s, 0);
    if spec_relative(s) is Some {
        lemma_names_of_joined(names(s));
    }
}

/// A place neither starts nor ends with `/`.
pub proof fn lemma_place_has_no_outer_separator(p: Seq<char>)
    requires
        is_place(p),
    ensures
        p.len() > 0,
        p[0] != '/',
        p.last() != '/',
{
    lemma_names_are_names(p, 0);
    let parts = names(p);
    let first = parts[0];
    let last = parts.last();
    lemma_first_name_starts(parts);
    assert(first.contains(first[0]));
    assert(p.last() == last.last()) by {
        if parts.len() > 1 {
            assert(p =~= joined(parts.drop_last()) + seq!['/'] + last);
        }
    }
    assert(last.contains(last.last()));
}

/// What names are joined to starts with the first character of the first
/// name.
proof fn lemma_first_name_starts(parts: Seq<Seq<char>>)
    requires
        parts.len() > 0,
        forall|k: int| 0 <= k < parts.len() ==> is_name(#[trigger] parts[k]),
    ensures
        joined(parts).len() > 0,
        joined(parts)[0] == parts[0][0],
    decreases parts.len(),
{
    if parts.len() > 1 {
        let front = parts.drop_last();
        assert forall|k: int| 0 <= k < front.len() implies is_name(#[trigger] front[k]) by {
            assert(front[k] == parts[k]);
        }
        lemma_first_name_starts(front);
        assert(front[0] == parts[0]);
    }
}

/// After a `.` that is followed by text without one, the last `.` is that
/// one.
pub proof fn lemma_last_dot_before(front: Seq<char>, tail: Seq<char>)
    requires
        !tail.contains('.'),
    ensures
        last_dot(front + seq!['.'] + tail) == front.len(),
    decreases tail.len(),
{
    let whole = front + seq!['.'] + tail;
    if tail.len() == 0 {
        assert(whole.last() == '.');
    } else {
        assert(whole.last() == tail.last());
        assert(tail.contains(tail.last()));
        let shorter = tail.drop_last();
        assert(!shorter.contains('.')) by {
            if shorter.contains('.') {
                let k = choose|k: int| 0 <= k < shorter.len() && shorter[k] == '.';
                assert(tail[k] == '.');
            }
        }
        lemma_last_dot_before(front, shorter);
        assert(whole.drop_last() =~= front + seq!['.'] + shorter);
    }
}

/// A file name that is a name followed by a `.` and an extension without
/// `.` or `/` has that extension.
pub proof fn lemma_extension_of_name(stem: Seq<char>, ext: Seq<char>)
    requires
        stem.len() > 0,
        !stem.contains('/'),
        !ext.contains('.'),
        !ext.contains('/'),
        ext.len() > 0,
    ensures
        spec_extension(stem + seq!['.'] + ext) == Some(ext),
{
    let whole = stem + seq!['.'] + ext;
    assert(!whole.contains('/')) by {
        if whole.contains('/') {
            let k = choose|k: int| 0 <= k < whole.len() && whole[k] == '/';
            if k < stem.len() {
                assert(stem.contains(stem[k]));
            } else if k > stem.len() {
                assert(ext.contains(ext[k - stem.len() - 1]));
            }
        }
    }
    lemma_names_of_name(whole);
    assert(seq![whole].last() == whole);
    assert(!is_parent(whole)) by {
        if whole.len() == 2 {
            assert(whole[1] == ext[0] || whole[1] == '.');
            assert(ext.contains(ext[0]));
            assert(whole[0] == stem[0]);
        }
    }
    lemma_last_dot_before(stem, ext);
    assert(whole.subrange(stem.len() as int + 1, whole.len() as int) =~= ext);
}

} // verus!
