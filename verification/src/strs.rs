//! Character-level string operations with specifications over `Seq<char>`.
use vstd::prelude::*;

verus! {

/// `p` is a prefix of `s`.
pub open spec fn has_prefix(s: Seq<char>, p: Seq<char>) -> bool {
    p.len() <= s.len() && s.subrange(0, p.len() as int) == p
}

/// `p` is a suffix of `s`.
pub open spec fn has_suffix(s: Seq<char>, p: Seq<char>) -> bool {
    p.len() <= s.len() && s.subrange(s.len() - p.len(), s.len() as int) == p
}

/// The text starts with a `-` (an option rather than an operand).
pub open spec fn is_flag(s: Seq<char>) -> bool {
    s.len() > 0 && s[0] == '-'
}

/// Index of the first occurrence of `c` in `s`.
pub open spec fn first_index_of(s: Seq<char>, c: char) -> Option<int> {
    if exists|i: int| 0 <= i < s.len() && s[i] == c {
        Some(choose|i: int| 0 <= i < s.len() && s[i] == c && forall|j: int| 0 <= j < i ==> s[j] != c)
    } else {
        None
    }
}

/// `s.split_once(c)`: the parts before and after the first `c`.
pub open spec fn split_once(s: Seq<char>, c: char) -> Option<(Seq<char>, Seq<char>)> {
    match first_index_of(s, c) {
        Some(i) => Some((s.subrange(0, i), s.subrange(i + 1, s.len() as int))),
        None => None,
    }
}

/// `s.contains(c)`.
pub open spec fn has_char(s: Seq<char>, c: char) -> bool {
    exists|i: int| 0 <= i < s.len() && s[i] == c
}

/// The parts joined with `sep` between consecutive parts.
pub open spec fn join(parts: Seq<Seq<char>>, sep: Seq<char>) -> Seq<char>
    decreases parts.len(),
{
    if parts.len() == 0 {
        Seq::empty()
    } else if parts.len() == 1 {
        parts[0]
    } else {
        join(parts.drop_last(), sep) + sep + parts.last()
    }
}

/// Each part preceded by one space, all concatenated.
pub open spec fn spaced(parts: Seq<Seq<char>>) -> Seq<char>
    decreases parts.len(),
{
    if parts.len() == 0 {
        Seq::empty()
    } else {
        spaced(parts.drop_last()) + " "@ + parts.last()
    }
}

/// `xs.contains(x)` for a sequence of texts.
pub open spec fn has_text(xs: Seq<Seq<char>>, x: Seq<char>) -> bool {
    exists|i: int| 0 <= i < xs.len() && xs[i] == x
}

proof fn lemma_first_index(s: Seq<char>, c: char, i: int)
    requires
        0 <= i < s.len(),
        s[i] == c,
        forall|j: int| 0 <= j < i ==> s[j] != c,
    ensures
        first_index_of(s, c) == Some(i),
{
    let k = choose|k: int| 0 <= k < s.len() && s[k] == c && forall|j: int| 0 <= j < k ==> s[j] != c;
    assert(0 <= k < s.len() && s[k] == c && forall|j: int| 0 <= j < k ==> s[j] != c);
    if k < i {
        assert(s[k] != c);
    } else if i < k {
        assert(s[i] != c);
    }
}

/// An owned copy of a text.
pub fn text(s: &str) -> (r: String)
    ensures
        r@ == s@,
{
    s.to_owned()
}

/// The concatenation of two texts.
pub fn cat(a: &str, b: &str) -> (r: String)
    ensures
        r@ == a@ + b@,
{
    let mut r = a.to_owned();
    r.append(b);
    r
}

/// Character-wise equality of two texts.
pub fn str_eq(a: &str, b: &str) -> (r: bool)
    ensures
        r == (a@ == b@),
{
    let n = a.unicode_len();
    let m = b.unicode_len();
    if n != m {
        return false;
    }
    let mut i: usize = 0;
    while i < n
        invariant
            n == a@.len(),
            m == b@.len(),
            n == m,
            i <= n,
            forall|j: int| 0 <= j < i ==> a@[j] == b@[j],
        decreases n - i,
    {
        if a.get_char(i) != b.get_char(i) {
            return false;
        }
        i += 1;
    }
    assert(a@ =~= b@);
    true
}

/// Whether the text starts with `p`.
pub fn starts_with(s: &str, p: &str) -> (r: bool)
    ensures
        r == has_prefix(s@, p@),
{
    let n = s.unicode_len();
    let m = p.unicode_len();
    if m > n {
        return false;
    }
    let mut i: usize = 0;
    while i < m
        invariant
            n == s@.len(),
            m == p@.len(),
            m <= n,
            i <= m,
            forall|j: int| 0 <= j < i ==> s@[j] == p@[j],
        decreases m - i,
    {
        if s.get_char(i) != p.get_char(i) {
            assert(s@.subrange(0, m as int)[i as int] != p@[i as int]);
            return false;
        }
        i += 1;
    }
    assert(s@.subrange(0, m as int) =~= p@);
    true
}

/// Whether the text ends with `p`.
pub fn ends_with(s: &str, p: &str) -> (r: bool)
    ensures
        r == has_suffix(s@, p@),
{
    let n = s.unicode_len();
    let m = p.unicode_len();
    if m > n {
        return false;
    }
    let off: usize = n - m;
    let mut i: usize = 0;
    while i < m
        invariant
            n == s@.len(),
            m == p@.len(),
            m <= n,
            off == n - m,
            i <= m,
            forall|j: int| 0 <= j < i ==> s@[off + j] == p@[j],
        decreases m - i,
    {
        if s.get_char(off + i) != p.get_char(i) {
            assert(s@.subrange(off as int, n as int)[i as int] != p@[i as int]);
            return false;
        }
        i += 1;
    }
    assert(s@.subrange(off as int, n as int) =~= p@);
    true
}

/// Whether the text starts with `-`.
pub fn is_flag_text(s: &str) -> (r: bool)
    ensures
        r == is_flag(s@),
{
    let n = s.unicode_len();
    n > 0 && s.get_char(0) == '-'
}

/// `s.strip_prefix(p)`.
pub fn strip_prefix(s: &str, p: &str) -> (r: Option<String>)
    ensures
        r is Some <==> has_prefix(s@, p@),
        r matches Some(t) ==> t@ == s@.subrange(p@.len() as int, s@.len() as int),
{
    if starts_with(s, p) {
        let n = s.unicode_len();
        let m = p.unicode_len();
        Some(s.substring_char(m, n).to_owned())
    } else {
        None
    }
}

/// `s.strip_suffix(p)`.
pub fn strip_suffix(s: &str, p: &str) -> (r: Option<String>)
    ensures
        r is Some <==> has_suffix(s@, p@),
        r matches Some(t) ==> t@ == s@.subrange(0, s@.len() - p@.len()),
{
    if ends_with(s, p) {
        let n = s.unicode_len();
        let m = p.unicode_len();
        Some(s.substring_char(0, n - m).to_owned())
    } else {
        None
    }
}

/// Position of the first `c` in the text.
pub fn find_char(s: &str, c: char) -> (r: Option<usize>)
    ensures
        match r {
            Some(i) => i < s@.len() && first_index_of(s@, c) == Some(i as int),
            None => first_index_of(s@, c) is None && !has_char(s@, c),
        },
{
    let n = s.unicode_len();
    let mut i: usize = 0;
    while i < n
        invariant
            n == s@.len(),
            i <= n,
            forall|j: int| 0 <= j < i ==> s@[j] != c,
        decreases n - i,
    {
        if s.get_char(i) == c {
            proof {
                lemma_first_index(s@, c, i as int);
            }
            return Some(i);
        }
        i += 1;
    }
    None
}

/// `s.contains(c)`.
pub fn contains_char(s: &str, c: char) -> (r: bool)
    ensures
        r == has_char(s@, c),
{
    match find_char(s, c) {
        Some(_) => true,
        None => false,
    }
}

/// `s.split_once(c)`.
pub fn split_once_char(s: &str, c: char) -> (r: Option<(String, String)>)
    ensures
        match r {
            Some((a, b)) => split_once(s@, c) == Some((a@, b@)),
            None => split_once(s@, c) is None,
        },
{
    match find_char(s, c) {
        Some(i) => {
            let n = s.unicode_len();
            let a = s.substring_char(0, i).to_owned();
            let b = s.substring_char(i + 1, n).to_owned();
            Some((a, b))
        },
        None => None,
    }
}

/// Whether one of the texts equals `x`.
pub fn contains_text(xs: &[String], x: &str) -> (r: bool)
    ensures
        r == has_text(xs.deep_view(), x@),
{
    let n = xs.len();
    let mut i: usize = 0;
    while i < n
        invariant
            n == xs@.len(),
            i <= n,
            forall|j: int| 0 <= j < i ==> xs@[j]@ != x@,
        decreases n - i,
    {
        if str_eq(xs[i].as_str(), x) {
            assert(xs.deep_view()[i as int] == x@);
            return true;
        }
        i += 1;
    }
    assert forall|j: int| 0 <= j < xs.deep_view().len() implies xs.deep_view()[j] != x@ by {
        assert(xs.deep_view()[j] == xs@[j]@);
    }
    false
}

/// The parts joined with `sep`.
pub fn join_texts(parts: &[String], sep: &str) -> (r: String)
    ensures
        r@ == join(parts.deep_view(), sep@),
{
    let n = parts.len();
    let mut r = String::new();
    let mut i: usize = 0;
    while i < n
        invariant
            n == parts@.len(),
            i <= n,
            r@ == join(parts.deep_view().subrange(0, i as int), sep@),
        decreases n - i,
    {
        let ghost dv = parts.deep_view();
        assert(dv.subrange(0, i + 1).drop_last() =~= dv.subrange(0, i as int));
        if i > 0 {
            r.append(sep);
        } else {
            assert(r@ =~= Seq::<char>::empty());
        }
        r.append(parts[i].as_str());
        assert(dv.subrange(0, i + 1).last() == parts@[i as int]@);
        i += 1;
    }
    assert(parts.deep_view().subrange(0, n as int) =~= parts.deep_view());
    r
}

/// Appends a space and `part` to `r`.
pub fn push_spaced(r: &mut String, part: &str)
    ensures
        final(r)@ == old(r)@ + " "@ + part@,
{
    r.append(" ");
    r.append(part);
}

/// An owned copy of every text.
pub fn copy_texts(xs: &[String]) -> (r: Vec<String>)
    ensures
        r.deep_view() == xs.deep_view(),
{
    let n = xs.len();
    let mut r: Vec<String> = Vec::new();
    let mut i: usize = 0;
    while i < n
        invariant
            n == xs@.len(),
            i <= n,
            r@.len() == i,
            forall|j: int| 0 <= j < i ==> r@[j]@ == xs@[j]@,
        decreases n - i,
    {
        let c = text(xs[i].as_str());
        r.push(c);
        i += 1;
    }
    assert(r.deep_view() =~= xs.deep_view());
    r
}

/// The views of a table of (key, value) texts.
pub open spec fn pairs_view(p: Seq<(String, String)>) -> Seq<(Seq<char>, Seq<char>)> {
    Seq::new(p.len(), |i: int| (p[i].0@, p[i].1@))
}

/// No key occurs in two entries.
pub open spec fn distinct_keys(table: Seq<(Seq<char>, Seq<char>)>) -> bool {
    forall|i: int, j: int| 0 <= i < j < table.len() ==> #[trigger] table[i].0 != #[trigger] table[j].0
}

/// The value of the first entry whose key is `key`.
pub open spec fn lookup(table: Seq<(Seq<char>, Seq<char>)>, key: Seq<char>) -> Option<Seq<char>>
    decreases table.len(),
{
    if table.len() == 0 {
        None
    } else if table[0].0 == key {
        Some(table[0].1)
    } else {
        lookup(table.drop_first(), key)
    }
}

proof fn lemma_lookup_skip(table: Seq<(Seq<char>, Seq<char>)>, key: Seq<char>, i: int)
    requires
        0 <= i < table.len(),
        table[i].0 != key,
    ensures
        lookup(table.subrange(i, table.len() as int), key) == lookup(
            table.subrange(i + 1, table.len() as int),
            key,
        ),
{
    assert(table.subrange(i, table.len() as int).drop_first() =~= table.subrange(
        i + 1,
        table.len() as int,
    ));
}

/// Looks `key` up in a table of (key, value) texts; the first matching entry wins.
pub fn lookup_text(table: &[(String, String)], key: &str) -> (r: Option<String>)
    ensures
        match r {
            Some(v) => lookup(pairs_view(table@), key@) == Some(v@),
            None => lookup(pairs_view(table@), key@) is None,
        },
{
    let n = table.len();
    let ghost tv = pairs_view(table@);
    let mut i: usize = 0;
    assert(tv.subrange(0, n as int) =~= tv);
    while i < n
        invariant
            n == table@.len(),
            tv == pairs_view(table@),
            i <= n,
            lookup(tv, key@) == lookup(tv.subrange(i as int, n as int), key@),
        decreases n - i,
    {
        if str_eq(table[i].0.as_str(), key) {
            assert(tv.subrange(i as int, n as int)[0] == tv[i as int]);
            return Some(text(table[i].1.as_str()));
        }
        proof {
            lemma_lookup_skip(tv, key@, i as int);
        }
        i += 1;
    }
    None
}

/// A (key, value) entry of owned texts.
pub fn text_pair(k: &str, v: &str) -> (r: (String, String))
    ensures
        r.0@ == k@,
        r.1@ == v@,
{
    (text(k), text(v))
}

/// `t` occurs in `s` as a contiguous piece.
pub open spec fn has_infix(s: Seq<char>, t: Seq<char>) -> bool {
    exists|i: int| 0 <= i && i + t.len() <= s.len() && #[trigger] s.subrange(i, i + t.len()) == t
}

/// Whether `t` occurs in `s`.
pub fn contains_str(s: &str, t: &str) -> (r: bool)
    ensures
        r == has_infix(s@, t@),
{
    let n = s.unicode_len();
    let m = t.unicode_len();
    if m > n {
        assert forall|i: int| 0 <= i && i + t@.len() <= s@.len() implies #[trigger] s@.subrange(i, i + t@.len()) != t@ by {}
        return false;
    }
    if m == 0 {
        assert(s@.subrange(0, 0 + t@.len() as int) =~= t@);
        return true;
    }
    let mut i: usize = 0;
    while i <= n - m
        invariant
            n == s@.len(),
            m == t@.len(),
            0 < m <= n,
            i <= n - m + 1,
            forall|k: int| 0 <= k < i ==> #[trigger] s@.subrange(k, k + m) != t@,
        decreases n - m + 1 - i,
    {
        let mut j: usize = 0;
        let mut same = true;
        while j < m
            invariant
                n == s@.len(),
                m == t@.len(),
                m <= n,
                i <= n - m,
                j <= m,
                same ==> forall|q: int| 0 <= q < j ==> s@[i + q] == t@[q],
                !same ==> s@.subrange(i as int, i + m) != t@,
            decreases m - j,
        {
            if same && s.get_char(i + j) != t.get_char(j) {
                assert(s@.subrange(i as int, i + m)[j as int] != t@[j as int]);
                same = false;
            }
            j += 1;
        }
        if same {
            assert(s@.subrange(i as int, i + m) =~= t@);
            return true;
        }
        i += 1;
    }
    assert forall|k: int| 0 <= k && k + t@.len() <= s@.len() implies #[trigger] s@.subrange(k, k + t@.len()) != t@ by {
        assert(k < i);
    }
    false
}

/// A path piece that names something (not empty, not `.`).
pub open spec fn kept_part(p: Seq<char>) -> bool {
    p.len() > 0 && p != "."@
}

/// Reading a path text left to right: the finished named pieces, and the piece being read.
pub open spec fn path_state(s: Seq<char>) -> (Seq<Seq<char>>, Seq<char>)
    decreases s.len(),
{
    if s.len() == 0 {
        (Seq::empty(), Seq::empty())
    } else {
        let (k, cur) = path_state(s.drop_last());
        if s.last() == '/' {
            (if kept_part(cur) { k.push(cur) } else { k }, Seq::empty())
        } else {
            (k, cur.push(s.last()))
        }
    }
}

/// The named pieces of a path text, in order.
pub open spec fn path_parts(s: Seq<char>) -> Seq<Seq<char>> {
    let (k, cur) = path_state(s);
    if kept_part(cur) {
        k.push(cur)
    } else {
        k
    }
}

/// `Path::file_name` on Unix: the last named piece of the path, unless it is `..`.
pub open spec fn file_name(s: Seq<char>) -> Option<Seq<char>> {
    let parts = path_parts(s);
    if parts.len() == 0 {
        None
    } else if parts.last() == ".."@ {
        None
    } else {
        Some(parts.last())
    }
}

/// Whether the piece `s[a..b]` names something.
fn kept_piece(s: &str, a: usize, b: usize) -> (r: bool)
    requires
        a <= b <= s@.len(),
    ensures
        r == kept_part(s@.subrange(a as int, b as int)),
{
    b > a && !str_eq(s.substring_char(a, b), ".")
}

/// The last named piece of a path text, unless it is `..` (`Path::file_name`).
pub fn path_file_name(s: &str) -> (r: Option<String>)
    ensures
        match r {
            Some(f) => file_name(s@) == Some(f@),
            None => file_name(s@) is None,
        },
{
    let n = s.unicode_len();
    let ghost sv = s@;
    let mut start: usize = 0;
    let mut last: Option<(usize, usize)> = None;
    let ghost mut k: Seq<Seq<char>> = Seq::empty();
    let mut i: usize = 0;
    while i < n
        invariant
            n == sv.len(),
            sv == s@,
            start <= i <= n,
            path_state(sv.subrange(0, i as int)) == (k, sv.subrange(start as int, i as int)),
            match last {
                Some((a, b)) => a <= b <= n && k.len() > 0 && k.last() == sv.subrange(a as int, b as int),
                None => k.len() == 0,
            },
        decreases n - i,
    {
        assert(sv.subrange(0, i + 1).drop_last() =~= sv.subrange(0, i as int));
        if s.get_char(i) == '/' {
            if kept_piece(s, start, i) {
                proof {
                    k = k.push(sv.subrange(start as int, i as int));
                }
                last = Some((start, i));
            }
            start = i + 1;
            assert(sv.subrange(start as int, i + 1) =~= Seq::<char>::empty());
        } else {
            assert(sv.subrange(start as int, i + 1) =~= sv.subrange(start as int, i as int).push(sv[i as int]));
        }
        i += 1;
    }
    assert(sv.subrange(0, n as int) =~= sv);
    if kept_piece(s, start, n) {
        last = Some((start, n));
    }
    match last {
        Some((a, b)) => {
            let piece = s.substring_char(a, b);
            if str_eq(piece, "..") {
                None
            } else {
                Some(piece.to_owned())
            }
        },
        None => None,
    }
}

/// Unicode `White_Space` (what `char::is_whitespace` accepts).
pub open spec fn is_ws(c: char) -> bool {
    ('\u{9}' <= c && c <= '\u{d}') || c == ' ' || c == '\u{85}' || c == '\u{a0}' || c == '\u{1680}' || (
    '\u{2000}' <= c && c <= '\u{200a}') || c == '\u{2028}' || c == '\u{2029}' || c == '\u{202f}' || c
        == '\u{205f}' || c == '\u{3000}'
}

/// `char::is_whitespace`.
pub fn is_ws_char(c: char) -> (r: bool)
    ensures
        r == is_ws(c),
{
    ('\u{9}' <= c && c <= '\u{d}') || c == ' ' || c == '\u{85}' || c == '\u{a0}' || c == '\u{1680}' || (
    '\u{2000}' <= c && c <= '\u{200a}') || c == '\u{2028}' || c == '\u{2029}' || c == '\u{202f}' || c
        == '\u{205f}' || c == '\u{3000}'
}

/// Reading a text left to right for words: the finished words, and the word being read.
pub open spec fn words_state(s: Seq<char>) -> (Seq<Seq<char>>, Seq<char>)
    decreases s.len(),
{
    if s.len() == 0 {
        (Seq::empty(), Seq::empty())
    } else {
        let (done, cur) = words_state(s.drop_last());
        if is_ws(s.last()) {
            (if cur.len() > 0 { done.push(cur) } else { done }, Seq::empty())
        } else {
            (done, cur.push(s.last()))
        }
    }
}

/// The maximal runs of non-whitespace characters, in order (`split_whitespace`).
pub open spec fn words(s: Seq<char>) -> Seq<Seq<char>> {
    let (done, cur) = words_state(s);
    if cur.len() > 0 {
        done.push(cur)
    } else {
        done
    }
}

/// `str::split_whitespace`.
pub fn split_words(s: &str) -> (r: Vec<String>)
    ensures
        r.deep_view() == words(s@),
{
    let n = s.unicode_len();
    let ghost sv = s@;
    let mut start: usize = 0;
    let mut r: Vec<String> = Vec::new();
    let ghost mut done: Seq<Seq<char>> = Seq::empty();
    let mut i: usize = 0;
    while i < n
        invariant
            n == sv.len(),
            sv == s@,
            start <= i <= n,
            words_state(sv.subrange(0, i as int)) == (done, sv.subrange(start as int, i as int)),
            r@.len() == done.len(),
            forall|j: int| 0 <= j < done.len() ==> r@[j]@ == done[j],
        decreases n - i,
    {
        assert(sv.subrange(0, i + 1).drop_last() =~= sv.subrange(0, i as int));
        if is_ws_char(s.get_char(i)) {
            if i > start {
                r.push(s.substring_char(start, i).to_owned());
                proof {
                    done = done.push(sv.subrange(start as int, i as int));
                }
            }
            start = i + 1;
            assert(sv.subrange(start as int, i + 1) =~= Seq::<char>::empty());
        } else {
            assert(sv.subrange(start as int, i + 1) =~= sv.subrange(start as int, i as int).push(sv[i as int]));
        }
        i += 1;
    }
    assert(sv.subrange(0, n as int) =~= sv);
    if n > start {
        r.push(s.substring_char(start, n).to_owned());
        proof {
            done = done.push(sv.subrange(start as int, n as int));
        }
    }
    assert(r.deep_view() =~= words(sv));
    r
}

/// Index of the first non-whitespace character (the length when there is none).
pub open spec fn trim_start_index(s: Seq<char>) -> int
    decreases s.len(),
{
    if s.len() == 0 {
        0
    } else if is_ws(s[0]) {
        1 + trim_start_index(s.drop_first())
    } else {
        0
    }
}

/// Index just past the last non-whitespace character (zero when there is none).
pub open spec fn trim_end_index(s: Seq<char>) -> int
    decreases s.len(),
{
    if s.len() == 0 {
        0
    } else if is_ws(s.last()) {
        trim_end_index(s.drop_last())
    } else {
        s.len() as int
    }
}

/// `str::trim`: without leading and trailing whitespace.
pub open spec fn trimmed(s: Seq<char>) -> Seq<char> {
    let a = trim_start_index(s);
    let b = trim_end_index(s);
    if a < b {
        s.subrange(a, b)
    } else {
        Seq::empty()
    }
}

proof fn lemma_trim_start(s: Seq<char>, i: int)
    requires
        0 <= i <= s.len(),
        forall|j: int| 0 <= j < i ==> is_ws(s[j]),
    ensures
        trim_start_index(s) == i + trim_start_index(s.subrange(i, s.len() as int)),
    decreases i,
{
    if i > 0 {
        lemma_trim_start(s.drop_first(), i - 1);
        assert(s.drop_first().subrange(i - 1, s.drop_first().len() as int) =~= s.subrange(i, s.len() as int));
    } else {
        assert(s.subrange(0, s.len() as int) =~= s);
    }
}

proof fn lemma_trim_end(s: Seq<char>, k: int)
    requires
        0 <= k <= s.len(),
        forall|j: int| k <= j < s.len() ==> is_ws(s[j]),
    ensures
        trim_end_index(s) == trim_end_index(s.subrange(0, k)),
    decreases s.len() - k,
{
    if k < s.len() {
        lemma_trim_end(s.drop_last(), k);
        assert(s.drop_last().subrange(0, k) =~= s.subrange(0, k));
    } else {
        assert(s.subrange(0, k) =~= s);
    }
}

proof fn lemma_trim_start_bound(s: Seq<char>)
    ensures
        0 <= trim_start_index(s) <= s.len(),
        forall|j: int| 0 <= j < trim_start_index(s) ==> is_ws(s[j]),
        trim_start_index(s) < s.len() ==> !is_ws(s[trim_start_index(s)]),
    decreases s.len(),
{
    if s.len() > 0 && is_ws(s[0]) {
        lemma_trim_start_bound(s.drop_first());
        assert forall|j: int| 0 <= j < trim_start_index(s) implies is_ws(s[j]) by {
            if j > 0 {
                assert(s[j] == s.drop_first()[j - 1]);
            }
        }
        if trim_start_index(s) < s.len() {
            assert(s[trim_start_index(s)] == s.drop_first()[trim_start_index(s) - 1]);
        }
    }
}

proof fn lemma_trim_end_bound(s: Seq<char>)
    ensures
        0 <= trim_end_index(s) <= s.len(),
        forall|j: int| trim_end_index(s) <= j < s.len() ==> is_ws(s[j]),
        trim_end_index(s) > 0 ==> !is_ws(s[trim_end_index(s) - 1]),
    decreases s.len(),
{
    if s.len() > 0 && is_ws(s.last()) {
        lemma_trim_end_bound(s.drop_last());
        assert forall|j: int| trim_end_index(s) <= j < s.len() implies is_ws(s[j]) by {
            if j < s.len() - 1 {
                assert(s[j] == s.drop_last()[j]);
            }
        }
        if trim_end_index(s) > 0 {
            assert(s[trim_end_index(s) - 1] == s.drop_last()[trim_end_index(s) - 1]);
        }
    }
}

/// `str::trim`.
pub fn trim_text(s: &str) -> (r: String)
    ensures
        r@ == trimmed(s@),
{
    let n = s.unicode_len();
    let ghost sv = s@;
    let mut a: usize = 0;
    while a < n && is_ws_char(s.get_char(a))
        invariant
            n == sv.len(),
            sv == s@,
            a <= n,
            forall|j: int| 0 <= j < a ==> is_ws(sv[j]),
        decreases n - a,
    {
        a += 1;
    }
    let mut b: usize = n;
    while b > a && is_ws_char(s.get_char(b - 1))
        invariant
            n == sv.len(),
            sv == s@,
            a <= b <= n,
            forall|j: int| b <= j < n ==> is_ws(sv[j]),
        decreases b,
    {
        b -= 1;
    }
    proof {
        lemma_trim_start(sv, a as int);
        lemma_trim_end(sv, b as int);
        lemma_trim_start_bound(sv);
        lemma_trim_end_bound(sv);
        lemma_trim_end_bound(sv.subrange(0, b as int));
        if a < n {
            assert(sv.subrange(a as int, n as int)[0] == sv[a as int]);
        }
        if b > a {
            assert(sv.subrange(0, b as int).last() == sv[b - 1]);
        }
    }
    if a < b {
        s.substring_char(a, b).to_owned()
    } else {
        String::new()
    }
}

/// The value of a decimal digit character.
pub open spec fn digit_value(c: char) -> int {
    c as int - '0' as int
}

/// Every character is an ASCII decimal digit.
pub open spec fn all_digits(s: Seq<char>) -> bool {
    forall|i: int| 0 <= i < s.len() ==> '0' <= #[trigger] s[i] && s[i] <= '9'
}

/// The number written by decimal digits.
pub open spec fn digits_value(s: Seq<char>) -> int
    decreases s.len(),
{
    if s.len() == 0 {
        0
    } else {
        digits_value(s.drop_last()) * 10 + digit_value(s.last())
    }
}

/// `u32::from_str`: an optional `+`, then one or more decimal digits whose
/// value fits in 32 bits.
pub open spec fn parse_u32_spec(s: Seq<char>) -> Option<u32> {
    let d = if s.len() > 0 && s[0] == '+' { s.drop_first() } else { s };
    if d.len() > 0 && all_digits(d) && digits_value(d) <= u32::MAX {
        Some(digits_value(d) as u32)
    } else {
        None
    }
}

proof fn lemma_digits_grow(s: Seq<char>, i: int)
    requires
        0 <= i <= s.len(),
        all_digits(s),
    ensures
        0 <= digits_value(s.subrange(0, i)) <= digits_value(s),
    decreases s.len() - i,
{
    if i < s.len() {
        lemma_digits_grow(s.drop_last(), i);
        assert(s.drop_last().subrange(0, i) =~= s.subrange(0, i));
        assert(all_digits(s.drop_last()));
        assert('0' <= s[s.len() - 1] && s[s.len() - 1] <= '9');
    } else {
        assert(s.subrange(0, i) =~= s);
        lemma_digits_nonneg(s);
    }
}

proof fn lemma_digits_nonneg(s: Seq<char>)
    requires
        all_digits(s),
    ensures
        digits_value(s) >= 0,
    decreases s.len(),
{
    if s.len() > 0 {
        assert(all_digits(s.drop_last()));
        lemma_digits_nonneg(s.drop_last());
        assert('0' <= s[s.len() - 1]);
    }
}

/// `u32::from_str` on a text.
pub fn parse_u32(s: &str) -> (r: Option<u32>)
    ensures
        r == parse_u32_spec(s@),
{
    let n = s.unicode_len();
    let ghost sv = s@;
    let start: usize = if n > 0 && s.get_char(0) == '+' { 1 } else { 0 };
    let ghost d = if sv.len() > 0 && sv[0] == '+' { sv.drop_first() } else { sv };
    assert(d =~= sv.subrange(start as int, n as int));
    if start >= n {
        assert(d.len() == 0);
        return None;
    }
    let mut acc: u64 = 0;
    let mut big = false;
    let mut i: usize = start;
    while i < n
        invariant
            n == sv.len(),
            sv == s@,
            start <= i <= n,
            d == sv.subrange(start as int, n as int),
            d == (if sv.len() > 0 && sv[0] == '+' { sv.drop_first() } else { sv }),
            all_digits(d.subrange(0, i - start)),
            !big ==> acc == digits_value(d.subrange(0, i - start)) && acc <= u32::MAX,
            big ==> digits_value(d.subrange(0, i - start)) > u32::MAX,
        decreases n - i,
    {
        let c = s.get_char(i);
        if c < '0' || c > '9' {
            assert(d[i - start] == c);
            return None;
        }
        let ghost pre = d.subrange(0, i - start);
        let ghost nxt = d.subrange(0, i - start + 1);
        assert(nxt.drop_last() =~= pre);
        assert(nxt.last() == c);
        assert(all_digits(nxt));
        proof {
            lemma_digits_nonneg(pre);
        }
        if !big {
            let v: u64 = acc * 10 + ((c as u32) - ('0' as u32)) as u64;
            if v > 4294967295u64 {
                big = true;
            } else {
                acc = v;
            }
        }
        i += 1;
    }
    assert(d.subrange(0, n - start) =~= d);
    if big {
        None
    } else {
        Some(acc as u32)
    }
}


/// What `str::to_lowercase` gives for a text: its Unicode lowercase mapping.
pub uninterp spec fn lowercase(s: Seq<char>) -> Seq<char>;

/// Every character is ASCII.
pub open spec fn is_ascii_text(s: Seq<char>) -> bool {
    forall|i: int| 0 <= i < s.len() ==> (#[trigger] s[i] as int) < 128
}

/// An ASCII capital letter made small; every other character as it is.
pub open spec fn ascii_lower_char(c: char) -> char {
    if 'A' <= c && c <= 'Z' {
        ((c as int) + 32) as char
    } else {
        c
    }
}

/// Every ASCII capital letter of `s` made small.
pub open spec fn ascii_lowered(s: Seq<char>) -> Seq<char> {
    Seq::new(s.len(), |i: int| ascii_lower_char(s[i]))
}

/// `str::to_lowercase`. Claimed: the result depends on the text alone
/// (`lowercase`), and for an ASCII text it is the text with `A`–`Z` made
/// `a`–`z` (the Unicode lowercase mapping of ASCII characters); the Unicode
/// case tables for other characters are left unstated.
#[verifier::external_body]
pub(crate) fn to_lower(s: &str) -> (r: String)
    ensures
        r@ == lowercase(s@),
        is_ascii_text(s@) ==> r@ == ascii_lowered(s@),
{
    s.to_lowercase()
}

/// `s` written `n` times in a row.
pub open spec fn repeated(s: Seq<char>, n: nat) -> Seq<char>
    decreases n,
{
    if n == 0 {
        Seq::empty()
    } else {
        repeated(s, (n - 1) as nat) + s
    }
}

/// `s` written `n` times in a row (`str::repeat`).
pub fn repeat_text(s: &str, n: usize) -> (r: String)
    ensures
        r@ == repeated(s@, n as nat),
{
    let mut r = String::new();
    let mut i: usize = 0;
    assert(r@ =~= repeated(s@, 0));
    while i < n
        invariant
            i <= n,
            r@ == repeated(s@, i as nat),
        decreases n - i,
    {
        r.append(s);
        i += 1;
    }
    r
}

} // verus!
