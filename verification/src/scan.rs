//! Reading text: characters and whitespace-separated words.

use vstd::prelude::*;
use vstd::string::*;

verus! {

/// Whether `c` has the Unicode property `White_Space`.
pub open spec fn is_space(c: char) -> bool {
    let u = c as u32;
    ||| 0x09 <= u <= 0x0D
    ||| u == 0x20
    ||| u == 0x85
    ||| u == 0xA0
    ||| u == 0x1680
    ||| 0x2000 <= u <= 0x200A
    ||| u == 0x2028
    ||| u == 0x2029
    ||| u == 0x202F
    ||| u == 0x205F
    ||| u == 0x3000
}

/// No character of `s` is whitespace.
pub open spec fn space_free(s: Seq<char>) -> bool {
    forall|i: int| 0 <= i < s.len() ==> !is_space(#[trigger] s[i])
}

/// The maximal runs of non-whitespace characters of `s`, from left to right.
///
/// Defined by the last character: whitespace closes the run before it, any
/// other character extends the run that ends just before it or opens a new
/// one.
pub open spec fn words(s: Seq<char>) -> Seq<Seq<char>>
    decreases s.len(),
{
    if s.len() == 0 {
        Seq::empty()
    } else {
        let before = words(s.drop_last());
        if is_space(s.last()) {
            before
        } else if s.len() >= 2 && !is_space(s[s.len() - 2]) && before.len() > 0 {
            before.drop_last().push(before.last().push(s.last()))
        } else {
            before.push(seq![s.last()])
        }
    }
}

/// The view of a list of words.
pub open spec fn word_views(ws: Seq<Vec<char>>) -> Seq<Seq<char>> {
    Seq::new(ws.len(), |i: int| ws[i]@)
}

/// `String::push`: appends one character to the end of the string.
pub assume_specification[ String::push ](s: &mut String, c: char)
    ensures
        final(s)@ == old(s)@.push(c),
;

/// Computes [`is_space`].
pub fn is_whitespace(c: char) -> (b: bool)
    ensures
        b == is_space(c),
{
    let u: u32 = c as u32;
    (0x09 <= u && u <= 0x0D) || u == 0x20 || u == 0x85 || u == 0xA0 || u == 0x1680 || (0x2000 <= u
        && u <= 0x200A) || u == 0x2028 || u == 0x2029 || u == 0x202F || u == 0x205F || u == 0x3000
}

/// The characters of `s`, in order.
pub fn chars_of(s: &str) -> (v: Vec<char>)
    ensures
        v@ == s@,
{
    let mut v: Vec<char> = Vec::new();
    for c in it: s.chars()
        invariant
            v@ == it.seq().take(it.index() as int),
            it.seq() == s@,
    {
        v.push(c);
    }
    v
}

/// Appends the characters `chars` to `out`.
pub fn push_chars(out: &mut String, chars: &Vec<char>)
    ensures
        final(out)@ == old(out)@ + chars@,
{
    let mut i: usize = 0;
    while i < chars.len()
        invariant
            0 <= i <= chars.len(),
            out@ == old(out)@ + chars@.take(i as int),
        decreases chars.len() - i,
    {
        out.push(chars[i]);
        proof {
            assert(chars@.take(i + 1) =~= chars@.take(i as int).push(chars@[i as int]));
            assert(out@ =~= old(out)@ + chars@.take(i + 1));
        }
        i = i + 1;
    }
    proof {
        assert(chars@.take(i as int) == chars@);
    }
}

/// What is left of a text when only its first two words are kept, with one
/// blank between them.
pub open spec fn first_two_words(s: Seq<char>) -> Seq<char> {
    let w = words(s);
    if w.len() == 0 {
        Seq::empty()
    } else if w.len() == 1 {
        w[0]
    } else {
        w[0] + " "@ + w[1]
    }
}

/// Keeps the first two words of `text`; see [`first_two_words`].
pub fn leading_words(text: &str) -> (kept: String)
    ensures
        kept@ == first_two_words(text@),
{
    let ws = split_words(&chars_of(text));
    proof {
        assert(word_views(ws@).len() == ws@.len());
    }
    let mut kept = String::new();
    if ws.len() > 0 {
        assert(word_views(ws@)[0] == ws@[0]@);
        push_chars(&mut kept, &ws[0]);
        assert(kept@ =~= ws@[0]@);
    }
    if ws.len() > 1 {
        assert(word_views(ws@)[1] == ws@[1]@);
        kept.append(" ");
        push_chars(&mut kept, &ws[1]);
    }
    kept
}

/// Splits `text` at whitespace into its words.
pub fn split_words(text: &Vec<char>) -> (ws: Vec<Vec<char>>)
    ensures
        word_views(ws@) == words(text@),
        forall|i: int| 0 <= i < ws@.len() ==> (#[trigger] ws@[i])@.len() > 0 && space_free(ws@[i]@),
{
    let mut ws: Vec<Vec<char>> = Vec::new();
    let mut in_word: bool = false;
    let mut i: usize = 0;
    while i < text.len()
        invariant
            0 <= i <= text.len(),
            word_views(ws@) == words(text@.take(i as int)),
            in_word <==> (i > 0 && !is_space(text@[i - 1])),
            in_word ==> ws.len() > 0,
        decreases text.len() - i,
    {
        let c: char = text[i];
        proof {
            assert(text@.take(i + 1).drop_last() == text@.take(i as int));
            assert(text@.take(i + 1).last() == c);
        }
        if is_whitespace(c) {
            in_word = false;
        } else if in_word {
            let mut w: Vec<char> = ws.pop().unwrap();
            w.push(c);
            ws.push(w);
            proof {
                let prev = words(text@.take(i as int));
                assert(word_views(ws@) =~= prev.drop_last().push(prev.last().push(c)));
            }
        } else {
            let mut w: Vec<char> = Vec::new();
            w.push(c);
            let ghost prev = ws@;
            ws.push(w);
            proof {
                assert(word_views(ws@) =~= word_views(prev).push(seq![c]));
            }
            in_word = true;
        }
        i = i + 1;
    }
    proof {
        assert(text@.take(i as int) == text@);
        lemma_words_are_words(text@);
        assert forall|k: int| 0 <= k < ws@.len() implies (#[trigger] ws@[k])@.len() > 0
            && space_free(ws@[k]@) by {
            assert(word_views(ws@)[k] == ws@[k]@);
        }
    }
    ws
}

/// Whether two texts hold the same characters.
pub fn same_chars(a: &Vec<char>, b: &Vec<char>) -> (same: bool)
    ensures
        same == (a@ == b@),
{
    if a.len() != b.len() {
        return false;
    }
    let mut i: usize = 0;
    while i < a.len()
        invariant
            a.len() == b.len(),
            0 <= i <= a.len(),
            a@.take(i as int) == b@.take(i as int),
        decreases a.len() - i,
    {
        if a[i] != b[i] {
            return false;
        }
        proof {
            assert(a@.take(i + 1) =~= a@.take(i as int).push(a@[i as int]));
            assert(b@.take(i + 1) =~= b@.take(i as int).push(b@[i as int]));
        }
        i = i + 1;
    }
    proof {
        assert(a@.take(i as int) == a@);
        assert(b@.take(i as int) == b@);
    }
    true
}

/// Whether `word` reads exactly `name`.
pub fn word_is(word: &Vec<char>, name: &str) -> (same: bool)
    ensures
        same == (word@ == name@),
{
    let name_chars = chars_of(name);
    same_chars(word, &name_chars)
}

/// Whether two texts read the same.
pub fn same_text(a: &str, b: &str) -> (same: bool)
    ensures
        same == (a@ == b@),
{
    same_chars(&chars_of(a), &chars_of(b))
}

/// Whether `text` begins with `prefix`.
pub fn starts_with(text: &Vec<char>, prefix: &str) -> (b: bool)
    ensures
        b == prefix@.is_prefix_of(text@),
{
    let head = chars_of(prefix);
    if head.len() > text.len() {
        return false;
    }
    let mut i: usize = 0;
    while i < head.len()
        invariant
            head@ == prefix@,
            head.len() <= text.len(),
            0 <= i <= head.len(),
            head@.take(i as int) == text@.take(i as int),
        decreases head.len() - i,
    {
        if head[i] != text[i] {
            assert(head@[i as int] != text@.subrange(0, head.len() as int)[i as int]);
            return false;
        }
        proof {
            assert(head@.take(i + 1) =~= head@.take(i as int).push(head@[i as int]));
            assert(text@.take(i + 1) =~= text@.take(i as int).push(text@[i as int]));
        }
        i = i + 1;
    }
    proof {
        assert(head@.take(i as int) == head@);
        assert(text@.take(i as int) =~= text@.subrange(0, head.len() as int));
    }
    true
}

/// A word set behind text that is empty or ends in whitespace is the next
/// word of the whole.
pub proof fn lemma_words_then_word(s: Seq<char>, t: Seq<char>)
    requires
        s.len() == 0 || is_space(s.last()),
        t.len() > 0,
        space_free(t),
    ensures
        words(s + t) == words(s).push(t),
    decreases t.len(),
{
    let whole = s + t;
    assert(whole.drop_last() =~= s + t.drop_last());
    assert(whole.last() == t.last());
    assert(!is_space(t[t.len() - 1]));
    if t.len() == 1 {
        assert(s + t.drop_last() =~= s);
        assert(t =~= seq![t.last()]);
        if s.len() > 0 {
            assert(whole[whole.len() - 2] == s.last());
        }
    } else {
        lemma_words_then_word(s, t.drop_last());
        assert(space_free(t.drop_last()));
        assert(whole[whole.len() - 2] == t[t.len() - 2]);
        assert(!is_space(t[t.len() - 2]));
        let before = words(s).push(t.drop_last());
        assert(before.drop_last() =~= words(s));
        assert(before.last().push(t.last()) =~= t);
    }
}

/// Whitespace at the end of a text adds no word.
pub proof fn lemma_words_then_space(s: Seq<char>, c: char)
    requires
        is_space(c),
    ensures
        words(s.push(c)) == words(s),
{
    assert(s.push(c).drop_last() =~= s);
}

/// Every word is a run of one or more characters, none of them whitespace.
pub proof fn lemma_words_are_words(s: Seq<char>)
    ensures
        forall|i: int|
            0 <= i < words(s).len() ==> (#[trigger] words(s)[i]).len() > 0 && space_free(
                words(s)[i],
            ),
        s.len() > 0 && !is_space(s.last()) ==> words(s).len() > 0,
    decreases s.len(),
{
    if s.len() > 0 {
        lemma_words_are_words(s.drop_last());
        let before = words(s.drop_last());
        if !is_space(s.last()) && s.len() >= 2 && !is_space(s[s.len() - 2]) {
            assert(s.drop_last().last() == s[s.len() - 2]);
        }
    }
}

} // verus!
