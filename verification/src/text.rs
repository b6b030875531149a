//! Characters, runs of characters, and the words of a text.

use vstd::prelude::*;

verus! {

/// Whether `c` has the Unicode property `White_Space`.
pub open spec fn is_space(c: char) -> bool {
    let n = c as u32;
    ||| 0x09 <= n <= 0x0D
    ||| n == 0x20
    ||| n == 0x85
    ||| n == 0xA0
    ||| n == 0x1680
    ||| 0x2000 <= n <= 0x200A
    ||| n == 0x2028
    ||| n == 0x2029
    ||| n == 0x202F
    ||| n == 0x205F
    ||| n == 0x3000
}

/// The characters that are white space.
pub open spec fn space() -> spec_fn(char) -> bool {
    |c: char| is_space(c)
}

/// The characters that are not white space.
pub open spec fn non_space() -> spec_fn(char) -> bool {
    |c: char| !is_space(c)
}

/// The characters other than `stop`.
pub open spec fn other_than(stop: char) -> spec_fn(char) -> bool {
    |c: char| c != stop
}

/// The length of the longest prefix of `s` whose characters are all in `p`.
pub open spec fn run(s: Seq<char>, p: spec_fn(char) -> bool) -> nat
    decreases s.len(),
{
    if s.len() == 0 || !p(s[0]) {
        0
    } else {
        1 + run(s.drop_first(), p)
    }
}

/// Whether every character of `s` is in `p`.
pub open spec fn all(s: Seq<char>, p: spec_fn(char) -> bool) -> bool {
    forall|i: int| 0 <= i < s.len() ==> p(#[trigger] s[i])
}

/// The code of `c`, with the capital letters `A` to `Z` taken as small ones.
pub open spec fn folded(c: char) -> u32 {
    if 'A' <= c <= 'Z' {
        (c as u32 + 32) as u32
    } else {
        c as u32
    }
}

/// Whether `a` and `b` are the same but for the case of the letters `a` to `z`.
pub open spec fn same_ignoring_case(a: Seq<char>, b: Seq<char>) -> bool {
    &&& a.len() == b.len()
    &&& forall|i: int| 0 <= i < a.len() ==> folded(#[trigger] a[i]) == folded(b[i])
}

/// The views of the strings of `v`, in order.
pub open spec fn texts(v: Seq<String>) -> Seq<Seq<char>> {
    Seq::new(v.len(), |i: int| v[i]@)
}

/// The words of `s`: its maximal runs of characters other than white space,
/// from left to right.
pub open spec fn words(s: Seq<char>) -> Seq<Seq<char>>
    decreases s.len(),
    via words_decreases
{
    if s.len() == 0 {
        Seq::empty()
    } else if is_space(s[0]) {
        words(s.drop_first())
    } else {
        seq![s.take(run(s, non_space()) as int)] + words(s.skip(run(s, non_space()) as int))
    }
}

#[via_fn]
proof fn words_decreases(s: Seq<char>) {
    lemma_run(s, non_space());
}

/// Whether `s` is a word: not empty, and without white space.
pub open spec fn is_word(s: Seq<char>) -> bool {
    s.len() > 0 && all(s, non_space())
}

/// Whether `s` is white space from end to end. The empty text is.
pub open spec fn is_blank(s: Seq<char>) -> bool {
    all(s, space())
}

/// `run(s, p)` is at most the length of `s`; the characters before it are in
/// `p`, and the character at it, if there is one, is not.
pub proof fn lemma_run(s: Seq<char>, p: spec_fn(char) -> bool)
    ensures
        run(s, p) <= s.len(),
        all(s.take(run(s, p) as int), p),
        run(s, p) < s.len() ==> !p(s[run(s, p) as int]),
    decreases s.len(),
{
    if s.len() == 0 || !p(s[0]) {
    } else {
        let t = s.drop_first();
        lemma_run(t, p);
        let head = s.take(run(s, p) as int);
        assert forall|i: int| 0 <= i < head.len() implies p(#[trigger] head[i]) by {
            if i > 0 {
                assert(head[i] == t.take(run(t, p) as int)[i - 1]);
            }
        }
        if run(s, p) < s.len() {
            assert(s[run(s, p) as int] == t[run(t, p) as int]);
        }
    }
}

/// A prefix of `k` characters in `p` that the end of `s` or a character not in
/// `p` follows is the longest prefix in `p`.
pub proof fn lemma_run_is(s: Seq<char>, p: spec_fn(char) -> bool, k: nat)
    requires
        k <= s.len(),
        forall|i: int| 0 <= i < k ==> p(#[trigger] s[i]),
        k < s.len() ==> !p(s[k as int]),
    ensures
        run(s, p) == k,
    decreases k,
{
    if k > 0 {
        let t = s.drop_first();
        assert forall|i: int| 0 <= i < k - 1 implies p(#[trigger] t[i]) by {
            assert(t[i] == s[i + 1]);
        }
        lemma_run_is(t, p, (k - 1) as nat);
    }
}

/// Each of the words of a text is a word.
pub proof fn lemma_words_are_words(s: Seq<char>)
    ensures
        forall|i: int| 0 <= i < words(s).len() ==> is_word(#[trigger] words(s)[i]),
    decreases s.len(),
{
    if s.len() == 0 {
    } else if is_space(s[0]) {
        lemma_words_are_words(s.drop_first());
        assert(words(s) == words(s.drop_first()));
    } else {
        let k = run(s, non_space()) as int;
        lemma_run(s, non_space());
        lemma_words_are_words(s.skip(k));
        let rest = words(s.skip(k));
        assert(words(s) == seq![s.take(k)] + rest);
        assert forall|i: int| 0 <= i < words(s).len() implies is_word(#[trigger] words(s)[i]) by {
            if i > 0 {
                assert(words(s)[i] == rest[i - 1]);
            }
        }
    }
}

/// White space in front of a text adds no word.
pub proof fn lemma_words_after_blank(blank: Seq<char>, rest: Seq<char>)
    requires
        is_blank(blank),
    ensures
        words(blank + rest) == words(rest),
    decreases blank.len(),
{
    if blank.len() == 0 {
        assert(blank + rest == rest);
    } else {
        let s = blank + rest;
        assert(s[0] == blank[0]);
        assert(space()(blank[0]));
        assert(s.drop_first() == blank.drop_first() + rest);
        assert forall|i: int| 0 <= i < blank.drop_first().len() implies space()(
            #[trigger] blank.drop_first()[i],
        ) by {
            assert(blank.drop_first()[i] == blank[i + 1]);
        }
        lemma_words_after_blank(blank.drop_first(), rest);
    }
}

/// A word in front of a text that is empty or begins with white space is the
/// first word of the whole.
pub proof fn lemma_words_after_word(word: Seq<char>, rest: Seq<char>)
    requires
        is_word(word),
        rest.len() > 0 ==> is_space(rest[0]),
    ensures
        words(word + rest) == seq![word] + words(rest),
{
    let s = word + rest;
    let k = word.len();
    assert forall|i: int| 0 <= i < k implies non_space()(#[trigger] s[i]) by {
        assert(s[i] == word[i]);
        assert(non_space()(word[i]));
    }
    if k < s.len() {
        assert(s[k as int] == rest[0]);
    }
    lemma_run_is(s, non_space(), k);
    assert(s[0] == word[0]);
    assert(non_space()(word[0]));
    assert(s.take(k as int) == word);
    assert(s.skip(k as int) == rest);
}

/// Tells whether `c` is white space.
pub fn is_whitespace(c: char) -> (r: bool)
    ensures
        r == is_space(c),
{
    let n: u32 = c as u32;
    (0x09 <= n && n <= 0x0D) || n == 0x20 || n == 0x85 || n == 0xA0 || n == 0x1680 || (0x2000 <= n
        && n <= 0x200A) || n == 0x2028 || n == 0x2029 || n == 0x202F || n == 0x205F || n == 0x3000
}

fn fold_case(c: char) -> (r: u32)
    ensures
        r == folded(c),
{
    if 'A' <= c && c <= 'Z' {
        c as u32 + 32
    } else {
        c as u32
    }
}

/// Tells whether what `cs` holds from `from` to `to` equals `word` but for
/// the case of letters.
pub(crate) fn range_is(cs: &Vec<char>, from: usize, to: usize, word: &Vec<char>) -> (r: bool)
    requires
        from <= to <= cs.len(),
    ensures
        r == same_ignoring_case(cs@.subrange(from as int, to as int), word@),
{
    let ghost part = cs@.subrange(from as int, to as int);
    if to - from != word.len() {
        return false;
    }
    let mut i: usize = 0;
    while i < word.len()
        invariant
            from <= to <= cs.len(),
            to - from == word.len(),
            i <= word.len(),
            part == cs@.subrange(from as int, to as int),
            forall|k: int| 0 <= k < i ==> folded(#[trigger] part[k]) == folded(word@[k]),
        decreases word.len() - i,
    {
        assert(part[i as int] == cs@[from + i]);
        if fold_case(cs[from + i]) != fold_case(word[i]) {
            return false;
        }
        i += 1;
    }
    true
}

/// The characters of `s`, in order.
pub fn chars_of(s: &str) -> (r: Vec<char>)
    ensures
        r@ == s@,
{
    let mut out: Vec<char> = Vec::new();
    for c in it: s.chars()
        invariant
            it.seq() == s@,
            out@ == s@.take(it.index() as int),
    {
        out.push(c);
    }
    out
}

/// The index after the characters other than white space that begin at
/// `from`.
pub(crate) fn skip_word(cs: &Vec<char>, from: usize) -> (r: usize)
    requires
        from <= cs.len(),
    ensures
        from <= r <= cs.len(),
        r - from == run(cs@.skip(from as int), non_space()),
{
    let mut i: usize = from;
    while i < cs.len() && !is_whitespace(cs[i])
        invariant
            from <= i <= cs.len(),
            forall|k: int| from <= k < i ==> !is_space(#[trigger] cs@[k]),
        decreases cs.len() - i,
    {
        i += 1;
    }
    proof {
        let rest = cs@.skip(from as int);
        assert forall|j: int| 0 <= j < i - from implies non_space()(#[trigger] rest[j]) by {
            assert(rest[j] == cs@[from + j]);
        }
        lemma_run_is(rest, non_space(), (i - from) as nat);
    }
    i
}

/// The index after the white space that begins at `from`.
pub(crate) fn skip_space(cs: &Vec<char>, from: usize) -> (r: usize)
    requires
        from <= cs.len(),
    ensures
        from <= r <= cs.len(),
        r - from == run(cs@.skip(from as int), space()),
{
    let mut i: usize = from;
    while i < cs.len() && is_whitespace(cs[i])
        invariant
            from <= i <= cs.len(),
            forall|k: int| from <= k < i ==> is_space(#[trigger] cs@[k]),
        decreases cs.len() - i,
    {
        i += 1;
    }
    proof {
        let rest = cs@.skip(from as int);
        assert forall|j: int| 0 <= j < i - from implies space()(#[trigger] rest[j]) by {
            assert(rest[j] == cs@[from + j]);
        }
        lemma_run_is(rest, space(), (i - from) as nat);
    }
    i
}

/// Tells whether `s` is white space from end to end.
pub fn is_blank_text(s: &str) -> (r: bool)
    ensures
        r == is_blank(s@),
{
    let cs = chars_of(s);
    assert(cs@.skip(0) == cs@);
    let end = skip_space(&cs, 0);
    proof {
        lemma_run(s@, space());
        if end == cs.len() {
            assert(s@.take(end as int) == s@);
        } else {
            assert(!space()(s@[end as int]));
        }
    }
    end == cs.len()
}

/// Splits `s` at white space into its words.
pub fn split_whitespace(s: &str) -> (r: Vec<String>)
    ensures
        texts(r@) == words(s@),
{
    let cs = chars_of(s);
    let n = cs.len();
    let mut out: Vec<String> = Vec::new();
    let mut i: usize = 0;
    assert(s@.skip(0) == s@);
    assert(texts(out@) + words(s@) == words(s@));
    while i < n
        invariant
            i <= n,
            n == cs.len(),
            cs@ == s@,
            words(s@) == texts(out@) + words(s@.skip(i as int)),
        decreases n - i,
    {
        let ghost rest = s@.skip(i as int);
        if is_whitespace(cs[i]) {
            assert(rest.drop_first() == s@.skip(i + 1));
            i += 1;
        } else {
            let start = i;
            i = skip_word(&cs, start);
            let word = s.substring_char(start, i).to_owned();
            proof {
                let k = (i - start) as int;
                assert(rest.take(k) == s@.subrange(start as int, i as int));
                assert(rest.skip(k) == s@.skip(i as int));
                assert(texts(out@.push(word)) == texts(out@) + seq![word@]);
            }
            out.push(word);
        }
    }
    assert(words(s@.skip(n as int)) == Seq::<Seq<char>>::empty());
    out
}

} // verus!
