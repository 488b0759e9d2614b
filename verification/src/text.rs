//! Small verified helpers over strings: comparison, decimal rendering and
//! searching by character. Every contract is stated over the `Seq<char>` view.

use vstd::prelude::*;
use vstd::string::*;

verus! {

/// The characters of an optional string.
pub open spec fn opt_view(o: Option<String>) -> Option<Seq<char>> {
    match o {
        Some(s) => Some(s@),
        None => None,
    }
}

/// Copies an optional string.
pub fn clone_opt(o: &Option<String>) -> (r: Option<String>)
    ensures
        opt_view(r) == opt_view(*o),
{
    match o {
        Some(s) => Some(s.clone()),
        None => None,
    }
}

/// The character that stands for one decimal digit.
pub open spec fn digit_char(d: nat) -> char
    recommends
        d < 10,
{
    if d == 0 {
        '0'
    } else if d == 1 {
        '1'
    } else if d == 2 {
        '2'
    } else if d == 3 {
        '3'
    } else if d == 4 {
        '4'
    } else if d == 5 {
        '5'
    } else if d == 6 {
        '6'
    } else if d == 7 {
        '7'
    } else if d == 8 {
        '8'
    } else {
        '9'
    }
}

/// The decimal numeral of `n`, without sign or leading zeros.
pub open spec fn decimal(n: nat) -> Seq<char>
    decreases n,
{
    if n < 10 {
        seq![digit_char(n)]
    } else {
        decimal(n / 10).push(digit_char(n % 10))
    }
}

/// The text `true` or `false`.
pub open spec fn bool_text(b: bool) -> Seq<char> {
    if b {
        "true"@
    } else {
        "false"@
    }
}

/// The highest index at which `c` stands in `s`, if it stands there at all.
pub open spec fn last_index_of(s: Seq<char>, c: char) -> Option<int>
    decreases s.len(),
{
    if s.len() == 0 {
        None
    } else if s.last() == c {
        Some(s.len() - 1)
    } else {
        last_index_of(s.drop_last(), c)
    }
}

/// `last_index_of` finds an occurrence after which the character does not occur again,
/// and finds nothing only where the character does not occur.
pub proof fn lemma_last_index_of(s: Seq<char>, c: char)
    ensures
        match last_index_of(s, c) {
            Some(i) => 0 <= i < s.len() && s[i] == c && forall|j: int|
                i < j < s.len() ==> s[j] != c,
            None => forall|j: int| 0 <= j < s.len() ==> s[j] != c,
        },
    decreases s.len(),
{
    if s.len() > 0 && s.last() != c {
        let t = s.drop_last();
        lemma_last_index_of(t, c);
        assert forall|j: int| 0 <= j < t.len() implies t[j] == s[j] by {}
    }
}

fn digit_str(d: u64) -> (r: &'static str)
    requires
        d < 10,
    ensures
        r@ == seq![digit_char(d as nat)],
{
    proof {
        reveal_strlit("0");
        reveal_strlit("1");
        reveal_strlit("2");
        reveal_strlit("3");
        reveal_strlit("4");
        reveal_strlit("5");
        reveal_strlit("6");
        reveal_strlit("7");
        reveal_strlit("8");
        reveal_strlit("9");
    }
    let r = if d == 0 {
        "0"
    } else if d == 1 {
        "1"
    } else if d == 2 {
        "2"
    } else if d == 3 {
        "3"
    } else if d == 4 {
        "4"
    } else if d == 5 {
        "5"
    } else if d == 6 {
        "6"
    } else if d == 7 {
        "7"
    } else if d == 8 {
        "8"
    } else {
        "9"
    };
    assert(r@ =~= seq![digit_char(d as nat)]);
    r
}

/// Renders `n` in decimal.
pub fn u64_to_string(n: u64) -> (r: String)
    ensures
        r@ == decimal(n as nat),
    decreases n,
{
    if n < 10 {
        String::from_str(digit_str(n))
    } else {
        let head = u64_to_string(n / 10);
        let r = head.concat(digit_str(n % 10));
        assert(r@ =~= decimal(n as nat));
        r
    }
}

/// Renders `true` or `false`.
pub fn bool_to_str(b: bool) -> (r: &'static str)
    ensures
        r@ == bool_text(b),
{
    if b {
        "true"
    } else {
        "false"
    }
}

/// The characters of `s`, in order.
pub fn chars_of(s: &str) -> (r: Vec<char>)
    ensures
        r@ == s@,
{
    let mut v: Vec<char> = Vec::new();
    for c in it: s.chars()
        invariant
            v@ == it.seq().take(it.index() as int),
    {
        v.push(c);
    }
    v
}

/// Finds the last occurrence of `c` among `chars`.
pub fn find_last(chars: &Vec<char>, c: char) -> (r: Option<usize>)
    ensures
        match r {
            Some(i) => i < chars.len() && last_index_of(chars@, c) == Some(i as int),
            None => last_index_of(chars@, c) is None,
        },
{
    let mut i: usize = chars.len();
    assert(chars@.take(i as int) =~= chars@);
    while i > 0
        invariant
            i <= chars.len(),
            last_index_of(chars@, c) == last_index_of(chars@.take(i as int), c),
        decreases i,
    {
        if chars[i - 1] == c {
            assert(chars@.take(i as int).last() == c);
            return Some(i - 1);
        }
        assert(chars@.take(i as int).drop_last() =~= chars@.take(i - 1));
        i = i - 1;
    }
    assert(chars@.take(0).len() == 0);
    None
}

/// Whether a path is the root: `/` or the empty path.
pub open spec fn is_root(path: Seq<char>) -> bool {
    path.len() == 0 || path == seq!['/']
}

/// What stands behind the last `/` of a path: the whole path where it holds no `/`.
pub open spec fn last_segment(path: Seq<char>) -> Seq<char> {
    match last_index_of(path, '/') {
        Some(i) => path.subrange(i + 1, path.len() as int),
        None => path,
    }
}

/// What stands before the last `/` of a path, if it holds one.
pub open spec fn before_last_segment(path: Seq<char>) -> Option<Seq<char>> {
    match last_index_of(path, '/') {
        Some(i) => Some(path.subrange(0, i)),
        None => None,
    }
}

/// A path splits at its last `/` into what stands before it and its last
/// segment, and the last segment holds no `/`.
pub proof fn lemma_last_segment(path: Seq<char>)
    ensures
        !last_segment(path).contains('/'),
        before_last_segment(path) matches Some(head) ==> path == head + seq!['/'] + last_segment(
            path,
        ),
        before_last_segment(path) is None ==> !path.contains('/'),
{
    lemma_last_index_of(path, '/');
    match last_index_of(path, '/') {
        Some(i) => {
            assert(path =~= path.subrange(0, i) + seq!['/'] + last_segment(path));
        },
        None => {},
    }
}

/// The last segment of `path`.
pub fn last_segment_of(path: &str) -> (r: String)
    ensures
        r@ == last_segment(path@),
{
    let chars = chars_of(path);
    match find_last(&chars, '/') {
        Some(i) => {
            proof {
                lemma_last_index_of(path@, '/');
            }
            path.substring_char(i + 1, chars.len()).to_string()
        },
        None => path.to_string(),
    }
}

/// What stands before the last `/` of `path`.
pub fn before_last_segment_of(path: &str) -> (r: Option<String>)
    ensures
        opt_view(r) == before_last_segment(path@),
{
    let chars = chars_of(path);
    match find_last(&chars, '/') {
        Some(i) => {
            proof {
                lemma_last_index_of(path@, '/');
            }
            Some(path.substring_char(0, i).to_string())
        },
        None => None,
    }
}

/// A directory and a name below it as one path: the two with one `/`
/// between them, which the directory may bring itself. An empty directory
/// leaves the name alone.
pub open spec fn joined_path(directory: Seq<char>, name: Seq<char>) -> Seq<char> {
    if directory.len() == 0 {
        name
    } else if directory.last() == '/' {
        directory + name
    } else {
        directory + seq!['/'] + name
    }
}

/// Joins a directory and a name below it.
pub fn join_path(directory: &str, name: &str) -> (r: String)
    ensures
        r@ == joined_path(directory@, name@),
{
    let n = directory.unicode_len();
    if n == 0 {
        name.to_string()
    } else if directory.get_char(n - 1) == '/' {
        String::from_str(directory).concat(name)
    } else {
        proof {
            reveal_strlit("/");
            assert("/"@ =~= seq!['/']);
        }
        String::from_str(directory).concat("/").concat(name)
    }
}

/// Whether `text` begins with `prefix`.
pub open spec fn has_prefix(text: Seq<char>, prefix: Seq<char>) -> bool {
    prefix.len() <= text.len() && text.subrange(0, prefix.len() as int) == prefix
}

/// What follows `prefix` in `text`, if `text` begins with it.
pub open spec fn without_prefix(text: Seq<char>, prefix: Seq<char>) -> Option<Seq<char>> {
    if has_prefix(text, prefix) {
        Some(text.subrange(prefix.len() as int, text.len() as int))
    } else {
        None
    }
}

/// Whether `text` ends with `suffix`.
pub open spec fn has_suffix(text: Seq<char>, suffix: Seq<char>) -> bool {
    suffix.len() <= text.len() && text.subrange(text.len() - suffix.len(), text.len() as int)
        == suffix
}

/// What stands before `suffix` in `text`, if `text` ends with it.
pub open spec fn without_suffix(text: Seq<char>, suffix: Seq<char>) -> Option<Seq<char>> {
    if has_suffix(text, suffix) {
        Some(text.subrange(0, text.len() - suffix.len()))
    } else {
        None
    }
}

fn same_chars(a: &Vec<char>, from: usize, b: &Vec<char>) -> (r: bool)
    requires
        from + b.len() <= a.len(),
    ensures
        r == (a@.subrange(from as int, from + b.len()) == b@),
{
    let mut i: usize = 0;
    while i < b.len()
        invariant
            i <= b.len(),
            from + b.len() <= a.len(),
            forall|j: int| 0 <= j < i ==> a@[from + j] == b@[j],
        decreases b.len() - i,
    {
        if a[from + i] != b[i] {
            assert(a@.subrange(from as int, from + b.len())[i as int] != b@[i as int]);
            return false;
        }
        i = i + 1;
    }
    assert(a@.subrange(from as int, from + b.len()) =~= b@);
    true
}

/// Whether two strings hold the same characters.
pub fn str_eq(a: &str, b: &str) -> (r: bool)
    ensures
        r == (a@ == b@),
{
    let left = chars_of(a);
    let right = chars_of(b);
    if left.len() != right.len() {
        return false;
    }
    assert(left@.subrange(0, 0 + right.len()) =~= left@);
    same_chars(&left, 0, &right)
}

/// Takes `prefix` off the front of `text`.
pub fn strip_prefix(text: &str, prefix: &str) -> (r: Option<String>)
    ensures
        opt_view(r) == without_prefix(text@, prefix@),
{
    let t = chars_of(text);
    let p = chars_of(prefix);
    if p.len() <= t.len() && same_chars(&t, 0, &p) {
        Some(text.substring_char(p.len(), t.len()).to_string())
    } else {
        None
    }
}

/// Takes `suffix` off the end of `text`.
pub fn strip_suffix(text: &str, suffix: &str) -> (r: Option<String>)
    ensures
        opt_view(r) == without_suffix(text@, suffix@),
{
    let t = chars_of(text);
    let p = chars_of(suffix);
    if p.len() <= t.len() && same_chars(&t, t.len() - p.len(), &p) {
        Some(text.substring_char(0, t.len() - p.len()).to_string())
    } else {
        None
    }
}

/// Text behind a path that holds the character nowhere does not move its
/// last occurrence.
pub proof fn lemma_last_index_append(s: Seq<char>, tail: Seq<char>, c: char)
    requires
        !tail.contains(c),
    ensures
        last_index_of(s + tail, c) == last_index_of(s, c),
    decreases tail.len(),
{
    if tail.len() == 0 {
        assert(s + tail =~= s);
    } else {
        let shorter = tail.drop_last();
        assert(!shorter.contains(c)) by {
            if shorter.contains(c) {
                let i = choose|i: int| 0 <= i < shorter.len() && shorter[i] == c;
                assert(tail[i] == c);
            }
        }
        assert(tail.last() != c) by {
            if tail.last() == c {
                assert(tail[tail.len() - 1] == c);
            }
        }
        lemma_last_index_append(s, shorter, c);
        assert((s + tail).drop_last() =~= s + shorter);
        assert((s + tail).last() == tail.last());
    }
}

/// The last segment of a path with a suffix that holds no `/` is the last
/// segment of the path with that suffix.
pub proof fn lemma_last_segment_append(path: Seq<char>, suffix: Seq<char>)
    requires
        !suffix.contains('/'),
    ensures
        last_segment(path + suffix) == last_segment(path) + suffix,
{
    lemma_last_index_append(path, suffix, '/');
    lemma_last_index_of(path, '/');
    match last_index_of(path, '/') {
        Some(i) => {
            assert((path + suffix).subrange(i + 1, (path + suffix).len() as int) =~= path.subrange(
                i + 1,
                path.len() as int,
            ) + suffix);
        },
        None => {},
    }
}

} // verus!
