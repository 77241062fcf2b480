//! Text helpers shared by every component: strings are handled as sequences
//! of characters, and every helper says what it computes over `Seq<char>`.

use vstd::prelude::*;

verus! {

/// The characters that count as white space: the Unicode `White_Space` set.
pub open spec fn is_white_space(c: char) -> bool {
    let n = c as u32;
    ||| 0x09 <= n <= 0x0D
    ||| n == 0x20
    ||| n == 0x85
    ||| n == 0xA0
    ||| n == 0x1680
    ||| 0x2000 <= n <= 0x200A
    ||| n == 0x2028
    ||| n == 0x2029
    ||| n == 0x202F
    ||| n == 0x205F
    ||| n == 0x3000
}

/// Tells whether `c` counts as white space.
pub fn white_space(c: char) -> (b: bool)
    ensures
        b == is_white_space(c),
{
    let n: u32 = c as u32;
    (0x09 <= n && n <= 0x0D) || n == 0x20 || n == 0x85 || n == 0xA0 || n == 0x1680 || (0x2000 <= n
        && n <= 0x200A) || n == 0x2028 || n == 0x2029 || n == 0x202F || n == 0x205F || n == 0x3000
}

/// The characters of `s`, in order.
pub fn chars_of(s: &str) -> (v: Vec<char>)
    ensures
        v@ == s@,
{
    let mut v: Vec<char> = Vec::new();
    for c in it: s.chars()
        invariant
            it.seq() == s@,
            v@ == s@.take(it.index()),
    {
        v.push(c);
    }
    v
}

/// `String::push`: appends one character to the end of the string.
#[verifier::external_body]
fn push_char(s: &mut String, c: char)
    ensures
        final(s)@ == old(s)@.push(c),
{
    s.push(c)
}

/// The string made of `v[from..to]`.
pub fn slice_string(v: &Vec<char>, from: usize, to: usize) -> (s: String)
    requires
        from <= to <= v.len(),
    ensures
        s@ == v@.subrange(from as int, to as int),
{
    let mut s = String::new();
    let mut i: usize = from;
    while i < to
        invariant
            from <= i <= to <= v.len(),
            s@ == v@.subrange(from as int, i as int),
        decreases to - i,
    {
        push_char(&mut s, v[i]);
        i += 1;
    }
    s
}

/// The string made of the characters of `v`.
pub fn string_of(v: &Vec<char>) -> (s: String)
    ensures
        s@ == v@,
{
    let s = slice_string(v, 0, v.len());
    assert(v@.subrange(0, v@.len() as int) == v@);
    s
}

/// Whether two character vectors hold the same text.
pub fn same_chars(a: &Vec<char>, b: &Vec<char>) -> (r: bool)
    ensures
        r == (a@ == b@),
{
    if a.len() != b.len() {
        return false;
    }
    let mut i: usize = 0;
    while i < a.len()
        invariant
            a.len() == b.len(),
            i <= a.len(),
            a@.take(i as int) == b@.take(i as int),
        decreases a.len() - i,
    {
        if a[i] != b[i] {
            return false;
        }
        assert(a@.take(i + 1) == a@.take(i as int).push(a@[i as int]));
        assert(b@.take(i + 1) == b@.take(i as int).push(b@[i as int]));
        i += 1;
    }
    assert(a@.take(a@.len() as int) == a@);
    assert(b@.take(b@.len() as int) == b@);
    true
}

/// Whether two strings hold the same text.
pub fn same_text(a: &str, b: &str) -> (r: bool)
    ensures
        r == (a@ == b@),
{
    let x = chars_of(a);
    let y = chars_of(b);
    same_chars(&x, &y)
}

/// A text is blank when it holds nothing but white space.
pub open spec fn is_blank(s: Seq<char>) -> bool {
    forall|i: int| 0 <= i < s.len() ==> is_white_space(#[trigger] s[i])
}

/// Tells whether `v` holds nothing but white space.
pub fn blank(v: &Vec<char>) -> (r: bool)
    ensures
        r == is_blank(v@),
{
    let mut i: usize = 0;
    while i < v.len()
        invariant
            i <= v.len(),
            forall|j: int| 0 <= j < i ==> is_white_space(#[trigger] v@[j]),
        decreases v.len() - i,
    {
        if !white_space(v[i]) {
            return false;
        }
        i += 1;
    }
    true
}

/// How many white-space characters `s` starts with.
pub open spec fn leading_space(s: Seq<char>) -> nat
    decreases s.len(),
{
    if s.len() > 0 && is_white_space(s[0]) {
        1 + leading_space(s.drop_first())
    } else {
        0
    }
}

/// How many white-space characters `s` ends with.
pub open spec fn trailing_space(s: Seq<char>) -> nat
    decreases s.len(),
{
    if s.len() > 0 && is_white_space(s.last()) {
        1 + trailing_space(s.drop_last())
    } else {
        0
    }
}

/// `s` without its leading and trailing white space.
pub open spec fn trimmed(s: Seq<char>) -> Seq<char> {
    let t = s.skip(leading_space(s) as int);
    t.take(t.len() - trailing_space(t))
}

/// The leading white space of `s` ends where its first other character
/// stands.
pub proof fn lemma_leading_space(s: Seq<char>, i: int)
    requires
        0 <= i <= s.len(),
        forall|j: int| 0 <= j < i ==> is_white_space(#[trigger] s[j]),
        i == s.len() || !is_white_space(s[i]),
    ensures
        leading_space(s) == i,
    decreases i,
{
    if i > 0 {
        let t = s.drop_first();
        assert forall|j: int| 0 <= j < i - 1 implies is_white_space(#[trigger] t[j]) by {
            assert(t[j] == s[j + 1]);
        }
        lemma_leading_space(t, i - 1);
    }
}

/// The trailing white space of `s` begins behind its last other character.
pub proof fn lemma_trailing_space(s: Seq<char>, k: int)
    requires
        0 <= k <= s.len(),
        forall|j: int| s.len() - k <= j < s.len() ==> is_white_space(#[trigger] s[j]),
        k == s.len() || !is_white_space(s[s.len() - k - 1]),
    ensures
        trailing_space(s) == k,
    decreases k,
{
    if k > 0 {
        let t = s.drop_last();
        assert forall|j: int| t.len() - (k - 1) <= j < t.len() implies is_white_space(
            #[trigger] t[j],
        ) by {
            assert(t[j] == s[j]);
        }
        lemma_trailing_space(t, k - 1);
    }
}

/// The bounds of the trimmed part of `v`: `v[from..to]` is `trimmed(v)`.
pub fn trim_bounds(v: &Vec<char>) -> (r: (usize, usize))
    ensures
        r.0 <= r.1 <= v.len(),
        v@.subrange(r.0 as int, r.1 as int) == trimmed(v@),
        r.0 == leading_space(v@),
        (r.0 == r.1) == is_blank(v@),
{
    let mut from: usize = 0;
    while from < v.len() && white_space(v[from])
        invariant
            from <= v.len(),
            forall|j: int| 0 <= j < from ==> is_white_space(#[trigger] v@[j]),
        decreases v.len() - from,
    {
        from += 1;
    }
    let mut to: usize = v.len();
    while to > from && white_space(v[to - 1])
        invariant
            from <= to <= v.len(),
            forall|j: int| to <= j < v.len() ==> is_white_space(#[trigger] v@[j]),
        decreases to,
    {
        to -= 1;
    }
    proof {
        lemma_leading_space(v@, from as int);
        let t = v@.skip(from as int);
        assert forall|j: int| t.len() - (v.len() - to) <= j < t.len() implies is_white_space(
            #[trigger] t[j],
        ) by {
            assert(t[j] == v@[j + from]);
        }
        lemma_trailing_space(t, v.len() - to);
        assert(v@.subrange(from as int, to as int) == t.take(t.len() - (v.len() - to)));
        if from == to {
            assert forall|j: int| 0 <= j < v@.len() implies is_white_space(#[trigger] v@[j]) by {
                if j < from {
                } else {
                }
            }
        } else {
            assert(!is_white_space(v@[from as int]));
        }
    }
    (from, to)
}

/// `s` without its leading and trailing white space.
pub fn trim(s: &str) -> (r: String)
    ensures
        r@ == trimmed(s@),
{
    let v = chars_of(s);
    let (from, to) = trim_bounds(&v);
    slice_string(&v, from, to)
}

/// The text that `head`, then `tail` give when written one after the other.
pub fn chain(head: &str, tail: &str) -> (r: String)
    ensures
        r@ == head@ + tail@,
{
    let mut r = String::new();
    r.append(head);
    r.append(tail);
    assert(Seq::<char>::empty() + head@ == head@);
    r
}


/// The texts that a vector of strings holds, in order.
pub open spec fn texts(v: Seq<String>) -> Seq<Seq<char>> {
    v.map_values(|s: String| s@)
}

/// The texts of a vector with one string more are its texts with one more.
pub proof fn lemma_texts_push(v: Seq<String>, s: String)
    ensures
        texts(v.push(s)) == texts(v).push(s@),
{
    assert(texts(v.push(s)) =~= texts(v).push(s@));
}

/// The texts of the first `n` strings are the first `n` of the texts.
pub proof fn lemma_texts_take(v: Seq<String>, n: int)
    requires
        0 <= n <= v.len(),
    ensures
        texts(v.take(n)) == texts(v).take(n),
{
    assert(texts(v.take(n)) =~= texts(v).take(n));
}

/// What separates the pieces of a text.
#[derive(Clone, Copy, Debug)]
pub enum Delimiter {
    /// One given character.
    Char(char),
    /// Any white-space character.
    WhiteSpace,
}

impl Delimiter {
    /// Whether `c` separates two pieces.
    pub open spec fn matches(self, c: char) -> bool {
        match self {
            Delimiter::Char(d) => c == d,
            Delimiter::WhiteSpace => is_white_space(c),
        }
    }

    /// Tells whether `c` separates two pieces.
    pub fn is_match(&self, c: char) -> (b: bool)
        ensures
            b == self.matches(c),
    {
        match self {
            Delimiter::Char(d) => c == *d,
            Delimiter::WhiteSpace => white_space(c),
        }
    }
}

/// The pieces of `s` between delimiters, read from left to right: every
/// delimiter closes the current piece and opens a new, empty one. A text with
/// `n` delimiters has `n + 1` pieces, some of which may be empty.
pub open spec fn pieces(s: Seq<char>, d: Delimiter) -> Seq<Seq<char>>
    decreases s.len(),
{
    if s.len() == 0 {
        seq![Seq::<char>::empty()]
    } else {
        let before = pieces(s.drop_last(), d);
        if d.matches(s.last()) {
            before.push(Seq::<char>::empty())
        } else {
            before.drop_last().push(before.last().push(s.last()))
        }
    }
}

/// A text has at least one piece.
pub proof fn lemma_pieces_nonempty(s: Seq<char>, d: Delimiter)
    ensures
        pieces(s, d).len() >= 1,
    decreases s.len(),
{
    if s.len() > 0 {
        lemma_pieces_nonempty(s.drop_last(), d);
    }
}

/// Splits `v` at every delimiter.
pub fn split(v: &Vec<char>, d: Delimiter) -> (r: Vec<String>)
    ensures
        texts(r@) == pieces(v@, d),
{
    let mut done: Vec<String> = Vec::new();
    let mut start: usize = 0;
    let mut i: usize = 0;
    proof {
        assert(v@.take(0) == Seq::<char>::empty());
        assert(texts(done@).push(v@.subrange(0, 0)) == seq![Seq::<char>::empty()]);
    }
    while i < v.len()
        invariant
            start <= i <= v.len(),
            pieces(v@.take(i as int), d) == texts(done@).push(
                v@.subrange(start as int, i as int),
            ),
        decreases v.len() - i,
    {
        proof {
            assert(v@.take(i + 1).drop_last() == v@.take(i as int));
            lemma_pieces_nonempty(v@.take(i as int), d);
        }
        if d.is_match(v[i]) {
            let piece = slice_string(v, start, i);
            proof {
                lemma_texts_push(done@, piece);
            }
            done.push(piece);
            start = i + 1;
            assert(v@.subrange(start as int, i + 1) == Seq::<char>::empty());
        } else {
            assert(v@.subrange(start as int, i + 1) == v@.subrange(start as int, i as int).push(
                v@[i as int],
            ));
            assert(texts(done@).push(v@.subrange(start as int, i as int)).drop_last() == texts(
                done@,
            ));
        }
        i += 1;
    }
    let piece = slice_string(v, start, i);
    proof {
        lemma_texts_push(done@, piece);
        assert(v@.take(v@.len() as int) == v@);
    }
    done.push(piece);
    done
}

/// The texts of `ps` that are not blank, each without the white space around it.
pub open spec fn trimmed_nonblank(ps: Seq<Seq<char>>) -> Seq<Seq<char>>
    decreases ps.len(),
{
    if ps.len() == 0 {
        Seq::empty()
    } else if is_blank(ps.last()) {
        trimmed_nonblank(ps.drop_last())
    } else {
        trimmed_nonblank(ps.drop_last()).push(trimmed(ps.last()))
    }
}

/// The lines of `s` that hold more than white space, trimmed. Lines end at a
/// line feed; a carriage return before it is white space and goes with the
/// trimming.
pub open spec fn content_lines(s: Seq<char>) -> Seq<Seq<char>> {
    trimmed_nonblank(pieces(s, Delimiter::Char('\n')))
}

/// The white-space separated words of `s`.
pub open spec fn words(s: Seq<char>) -> Seq<Seq<char>> {
    trimmed_nonblank(pieces(s, Delimiter::WhiteSpace))
}

/// Every text that `trimmed_nonblank` keeps holds at least one character: a
/// line with content, and a word, is never empty.
pub proof fn law_kept_texts_hold_content(ps: Seq<Seq<char>>, k: int)
    requires
        0 <= k < trimmed_nonblank(ps).len(),
    ensures
        trimmed_nonblank(ps)[k].len() > 0,
    decreases ps.len(),
{
    if ps.len() > 0 {
        let rest = trimmed_nonblank(ps.drop_last());
        if is_blank(ps.last()) || k < rest.len() {
            law_kept_texts_hold_content(ps.drop_last(), k);
        } else {
            lemma_trimmed_of_nonblank(ps.last());
        }
    }
}

/// A text that is not blank keeps at least one character when trimmed.
proof fn lemma_trimmed_of_nonblank(s: Seq<char>)
    requires
        !is_blank(s),
    ensures
        trimmed(s).len() > 0,
{
    let i = choose|i: int| 0 <= i < s.len() && !is_white_space(#[trigger] s[i]);
    lemma_leading_space_bound(s, i);
    let t = s.skip(leading_space(s) as int);
    let j = i - leading_space(s);
    assert(t[j] == s[i]);
    lemma_trailing_space_bound(t, j);
}

/// The leading white space ends at or before any other character.
proof fn lemma_leading_space_bound(s: Seq<char>, i: int)
    requires
        0 <= i < s.len(),
        !is_white_space(s[i]),
    ensures
        leading_space(s) <= i,
    decreases s.len(),
{
    if i > 0 && is_white_space(s[0]) {
        lemma_leading_space_bound(s.drop_first(), i - 1);
    }
}

/// The trailing white space starts after any other character.
proof fn lemma_trailing_space_bound(s: Seq<char>, i: int)
    requires
        0 <= i < s.len(),
        !is_white_space(s[i]),
    ensures
        trailing_space(s) <= s.len() - 1 - i,
    decreases s.len(),
{
    if i < s.len() - 1 && is_white_space(s.last()) {
        lemma_trailing_space_bound(s.drop_last(), i);
    }
}

/// Keeps the texts of `ps` that are not blank, trimmed.
pub fn keep_content(ps: &Vec<String>) -> (r: Vec<String>)
    ensures
        texts(r@) == trimmed_nonblank(texts(ps@)),
{
    let mut r: Vec<String> = Vec::new();
    let mut i: usize = 0;
    while i < ps.len()
        invariant
            i <= ps.len(),
            texts(r@) == trimmed_nonblank(texts(ps@).take(i as int)),
        decreases ps.len() - i,
    {
        let v = chars_of(ps[i].as_str());
        let (from, to) = trim_bounds(&v);
        proof {
            assert(texts(ps@).take(i + 1).drop_last() == texts(ps@).take(i as int));
            assert(texts(ps@).take(i + 1).last() == v@);
        }
        if from < to {
            let t = slice_string(&v, from, to);
            proof {
                lemma_texts_push(r@, t);
            }
            r.push(t);
        }
        i += 1;
    }
    assert(texts(ps@).take(ps@.len() as int) == texts(ps@));
    r
}

/// The lines of `s` that hold more than white space, trimmed.
pub fn lines_with_content(s: &str) -> (r: Vec<String>)
    ensures
        texts(r@) == content_lines(s@),
{
    let v = chars_of(s);
    let ps = split(&v, Delimiter::Char('\n'));
    keep_content(&ps)
}

/// The white-space separated words of `s`.
pub fn split_words(s: &str) -> (r: Vec<String>)
    ensures
        texts(r@) == words(s@),
{
    let v = chars_of(s);
    let ps = split(&v, Delimiter::WhiteSpace);
    keep_content(&ps)
}

/// Whether `s` begins with `prefix`.
pub open spec fn has_prefix(s: Seq<char>, prefix: Seq<char>) -> bool {
    prefix.len() <= s.len() && s.take(prefix.len() as int) == prefix
}

/// Tells whether `s` begins with `prefix`.
pub fn starts_with(s: &Vec<char>, prefix: &Vec<char>) -> (r: bool)
    ensures
        r == has_prefix(s@, prefix@),
{
    if prefix.len() > s.len() {
        return false;
    }
    let mut i: usize = 0;
    while i < prefix.len()
        invariant
            i <= prefix.len() <= s.len(),
            s@.take(i as int) == prefix@.take(i as int),
        decreases prefix.len() - i,
    {
        if s[i] != prefix[i] {
            assert(s@.take(prefix@.len() as int)[i as int] != prefix@[i as int]);
            return false;
        }
        assert(s@.take(i + 1) == s@.take(i as int).push(s@[i as int]));
        assert(prefix@.take(i + 1) == prefix@.take(i as int).push(prefix@[i as int]));
        i += 1;
    }
    assert(prefix@.take(prefix@.len() as int) == prefix@);
    true
}

/// Whether `needle` occurs in `hay` at position `at`.
pub open spec fn occurs_at(hay: Seq<char>, needle: Seq<char>, at: int) -> bool {
    0 <= at && at + needle.len() <= hay.len() && hay.subrange(at, at + needle.len()) == needle
}

/// Whether `needle` occurs somewhere in `hay`.
pub open spec fn has_part(hay: Seq<char>, needle: Seq<char>) -> bool {
    exists|at: int| occurs_at(hay, needle, at)
}

/// Whether `needle` occurs in `hay` at position `at`.
pub fn occurs(hay: &Vec<char>, needle: &Vec<char>, at: usize) -> (r: bool)
    requires
        at + needle.len() <= hay.len(),
    ensures
        r == occurs_at(hay@, needle@, at as int),
{
    let mut i: usize = 0;
    while i < needle.len()
        invariant
            i <= needle.len(),
            at + needle.len() <= hay.len(),
            hay@.subrange(at as int, at + i) == needle@.take(i as int),
        decreases needle.len() - i,
    {
        if hay[at + i] != needle[i] {
            assert(hay@.subrange(at as int, at + needle@.len())[i as int] != needle@[i as int]);
            return false;
        }
        assert(hay@.subrange(at as int, at + i + 1) == hay@.subrange(at as int, at + i).push(
            hay@[at + i],
        ));
        assert(needle@.take(i + 1) == needle@.take(i as int).push(needle@[i as int]));
        i += 1;
    }
    assert(needle@.take(needle@.len() as int) == needle@);
    true
}

/// Whether `n` occurs somewhere in `h`.
pub fn holds_part(h: &Vec<char>, n: &Vec<char>) -> (r: bool)
    ensures
        r == has_part(h@, n@),
{
    if n.len() > h.len() {
        return false;
    }
    let last: usize = h.len() - n.len();
    let mut at: usize = 0;
    loop
        invariant
            last == h.len() - n.len(),
            n.len() <= h.len(),
            at <= last,
            forall|k: int| 0 <= k < at ==> !occurs_at(h@, n@, k),
        decreases last - at,
    {
        if occurs(h, n, at) {
            return true;
        }
        if at == last {
            return false;
        }
        at += 1;
    }
}

/// Whether `needle` occurs somewhere in `hay`.
pub fn contains(hay: &str, needle: &str) -> (r: bool)
    ensures
        r == has_part(hay@, needle@),
{
    let h = chars_of(hay);
    let n = chars_of(needle);
    holds_part(&h, &n)
}

/// Whether `s` ends with `suffix`.
pub open spec fn has_suffix(s: Seq<char>, suffix: Seq<char>) -> bool {
    suffix.len() <= s.len() && s.skip(s.len() - suffix.len()) == suffix
}

/// Tells whether `s` ends with `suffix`.
pub fn ends_with(s: &Vec<char>, suffix: &Vec<char>) -> (r: bool)
    ensures
        r == has_suffix(s@, suffix@),
{
    if suffix.len() > s.len() {
        return false;
    }
    let from: usize = s.len() - suffix.len();
    let r = occurs(s, suffix, from);
    assert(s@.subrange(from as int, from + suffix@.len()) == s@.skip(from as int));
    r
}

/// The small letter of a capital letter from A to Z; any other character
/// itself.
pub open spec fn small(c: char) -> char {
    if 0x41 <= c as u32 <= 0x5A {
        ((c as u32 + 0x20) as u8) as char
    } else {
        c
    }
}

/// `s` with its capital letters from A to Z made small.
pub open spec fn folded(s: Seq<char>) -> Seq<char> {
    s.map_values(|c: char| small(c))
}

/// `v` with its capital letters from A to Z made small.
pub fn fold(v: &Vec<char>) -> (r: Vec<char>)
    ensures
        r@ == folded(v@),
{
    let mut r: Vec<char> = Vec::new();
    let mut i: usize = 0;
    while i < v.len()
        invariant
            i <= v.len(),
            r@ == folded(v@.take(i as int)),
        decreases v.len() - i,
    {
        let n: u32 = v[i] as u32;
        let c: char = if 0x41 <= n && n <= 0x5A {
            ((n + 0x20) as u8) as char
        } else {
            v[i]
        };
        r.push(c);
        assert(folded(v@.take(i + 1)) =~= folded(v@.take(i as int)).push(small(v@[i as int])));
        i += 1;
    }
    assert(v@.take(v@.len() as int) == v@);
    r
}

/// Whether `needle` occurs in `hay` when capital and small letters from A to
/// Z count as the same.
pub open spec fn has_part_folded(hay: Seq<char>, needle: Seq<char>) -> bool {
    has_part(folded(hay), folded(needle))
}

/// Whether `needle` occurs in `hay`, capital or small.
pub fn contains_folded(hay: &str, needle: &str) -> (r: bool)
    ensures
        r == has_part_folded(hay@, needle@),
{
    let h = fold(&chars_of(hay));
    let n = fold(&chars_of(needle));
    holds_part(&h, &n)
}

/// The lines of `s`: its pieces between line feeds, but for an empty piece
/// behind the last line feed.
pub open spec fn text_lines(s: Seq<char>) -> Seq<Seq<char>> {
    let p = pieces(s, Delimiter::Char('\n'));
    if p.len() > 0 && p.last().len() == 0 {
        p.drop_last()
    } else {
        p
    }
}

/// The lines of `s`.
pub fn lines_of(s: &str) -> (r: Vec<String>)
    ensures
        texts(r@) == text_lines(s@),
{
    let v = chars_of(s);
    let mut p = split(&v, Delimiter::Char('\n'));
    proof {
        lemma_pieces_nonempty(v@, Delimiter::Char('\n'));
        assert(texts(p@).len() == p@.len());
    }
    let n: usize = p.len();
    if p[n - 1].as_str().unicode_len() == 0 {
        let ghost all = p@;
        p.pop();
        proof {
            lemma_texts_take(all, n - 1);
            assert(p@ == all.take(n - 1));
            assert(texts(all).take(n - 1) == texts(all).drop_last());
        }
    }
    p
}

/// The texts of `ls` written one after the other, with `sep` between them.
pub open spec fn joined(ls: Seq<Seq<char>>, sep: Seq<char>) -> Seq<char>
    decreases ls.len(),
{
    if ls.len() == 0 {
        Seq::empty()
    } else if ls.len() == 1 {
        ls[0]
    } else {
        joined(ls.drop_last(), sep) + sep + ls.last()
    }
}

/// Writes the strings of `ls` from index `from` on one after the other, with
/// `sep` between them.
pub fn join_from(ls: &Vec<String>, from: usize, sep: &str) -> (r: String)
    requires
        from <= ls.len(),
    ensures
        r@ == joined(texts(ls@).skip(from as int), sep@),
{
    let mut r = String::new();
    let mut i: usize = from;
    proof {
        assert(texts(ls@).subrange(from as int, from as int) == Seq::<Seq<char>>::empty());
    }
    while i < ls.len()
        invariant
            from <= i <= ls.len(),
            r@ == joined(texts(ls@).subrange(from as int, i as int), sep@),
        decreases ls.len() - i,
    {
        proof {
            let upto = texts(ls@).subrange(from as int, i + 1);
            assert(upto.drop_last() == texts(ls@).subrange(from as int, i as int));
            assert(upto.last() == ls@[i as int]@);
        }
        if i > from {
            r.append(sep);
        } else {
            assert(Seq::<char>::empty() + ls@[i as int]@ == ls@[i as int]@);
        }
        r.append(ls[i].as_str());
        i += 1;
    }
    assert(texts(ls@).subrange(from as int, ls@.len() as int) == texts(ls@).skip(from as int));
    r
}

/// Writes the strings of `ls` one after the other, with `sep` between them.
pub fn join(ls: &Vec<String>, sep: &str) -> (r: String)
    ensures
        r@ == joined(texts(ls@), sep@),
{
    assert(texts(ls@).skip(0) == texts(ls@));
    join_from(ls, 0, sep)
}

/// The character that writes the digit `d`.
pub open spec fn digit_char(d: int) -> char {
    if d == 0 {
        '0'
    } else if d == 1 {
        '1'
    } else if d == 2 {
        '2'
    } else if d == 3 {
        '3'
    } else if d == 4 {
        '4'
    } else if d == 5 {
        '5'
    } else if d == 6 {
        '6'
    } else if d == 7 {
        '7'
    } else if d == 8 {
        '8'
    } else {
        '9'
    }
}

/// `n` written in decimal, without leading zeros.
pub open spec fn decimal(n: nat) -> Seq<char>
    decreases n,
{
    if n < 10 {
        seq![digit_char(n as int)]
    } else {
        decimal(n / 10).push(digit_char((n % 10) as int))
    }
}

fn digit(d: u64) -> (c: char)
    requires
        d < 10,
    ensures
        c == digit_char(d as int),
{
    if d == 0 {
        '0'
    } else if d == 1 {
        '1'
    } else if d == 2 {
        '2'
    } else if d == 3 {
        '3'
    } else if d == 4 {
        '4'
    } else if d == 5 {
        '5'
    } else if d == 6 {
        '6'
    } else if d == 7 {
        '7'
    } else if d == 8 {
        '8'
    } else {
        '9'
    }
}

fn decimal_chars(n: u64) -> (v: Vec<char>)
    ensures
        v@ == decimal(n as nat),
    decreases n,
{
    if n < 10 {
        let mut v: Vec<char> = Vec::new();
        v.push(digit(n));
        v
    } else {
        let mut v = decimal_chars(n / 10);
        v.push(digit(n % 10));
        v
    }
}

/// `n` written in decimal, without leading zeros.
pub fn decimal_string(n: u64) -> (s: String)
    ensures
        s@ == decimal(n as nat),
{
    let v = decimal_chars(n);
    string_of(&v)
}


/// The order of texts by their characters, as in a dictionary that goes by
/// code points: `a` comes at or before `b`.
pub open spec fn precedes(a: Seq<char>, b: Seq<char>) -> bool
    decreases a.len(),
{
    if a.len() == 0 {
        true
    } else if b.len() == 0 {
        false
    } else if a[0] as u32 == b[0] as u32 {
        precedes(a.drop_first(), b.drop_first())
    } else {
        (a[0] as u32) < (b[0] as u32)
    }
}

/// Of two texts, one comes at or before the other.
pub proof fn lemma_precedes_total(a: Seq<char>, b: Seq<char>)
    ensures
        precedes(a, b) || precedes(b, a),
    decreases a.len(),
{
    if a.len() > 0 && b.len() > 0 && a[0] as u32 == b[0] as u32 {
        lemma_precedes_total(a.drop_first(), b.drop_first());
    }
}

/// What comes before a text that comes before a third comes before the third.
pub proof fn lemma_precedes_transitive(a: Seq<char>, b: Seq<char>, c: Seq<char>)
    requires
        precedes(a, b),
        precedes(b, c),
    ensures
        precedes(a, c),
    decreases a.len(),
{
    if a.len() > 0 && b.len() > 0 && c.len() > 0 && a[0] as u32 == b[0] as u32 && b[0] as u32
        == c[0] as u32 {
        lemma_precedes_transitive(a.drop_first(), b.drop_first(), c.drop_first());
    }
}

/// Whether `a` comes at or before `b`.
pub fn comes_before(a: &Vec<char>, b: &Vec<char>) -> (r: bool)
    ensures
        r == precedes(a@, b@),
{
    let mut i: usize = 0;
    proof {
        assert(a@.skip(0) == a@);
        assert(b@.skip(0) == b@);
    }
    while i < a.len() && i < b.len()
        invariant
            i <= a.len(),
            i <= b.len(),
            precedes(a@, b@) == precedes(a@.skip(i as int), b@.skip(i as int)),
        decreases a.len() - i,
    {
        let x: u32 = a[i] as u32;
        let y: u32 = b[i] as u32;
        proof {
            assert(a@.skip(i as int)[0] == a@[i as int]);
            assert(b@.skip(i as int)[0] == b@[i as int]);
            assert(a@.skip(i as int).drop_first() == a@.skip(i + 1));
            assert(b@.skip(i as int).drop_first() == b@.skip(i + 1));
        }
        if x != y {
            return x < y;
        }
        i += 1;
    }
    i == a.len()
}

/// The last `n` of `lines`, or all of them where there are no more.
pub open spec fn last_lines(lines: Seq<Seq<char>>, n: nat) -> Seq<Seq<char>> {
    if lines.len() <= n {
        lines
    } else {
        lines.skip(lines.len() - n)
    }
}

/// The texts of `ps`, each without the white space around it.
pub open spec fn each_trimmed(ps: Seq<Seq<char>>) -> Seq<Seq<char>> {
    ps.map_values(|p: Seq<char>| trimmed(p))
}

/// The first `n` characters of `s`, or all of it where it has no more.
pub open spec fn first_chars(s: Seq<char>, n: nat) -> Seq<char> {
    if s.len() <= n {
        s
    } else {
        s.take(n as int)
    }
}

/// The text of a string slice that may be missing.
pub open spec fn opt_text(o: Option<&str>) -> Option<Seq<char>> {
    match o {
        Some(s) => Some(s@),
        None => None,
    }
}

/// The text of a string that may be missing.
pub open spec fn text_of(o: Option<String>) -> Option<Seq<char>> {
    match o {
        Some(s) => Some(s@),
        None => None,
    }
}

} // verus!
