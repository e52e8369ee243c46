use vstd::prelude::*;

verus! {

/// What `str::to_lowercase` makes of a sequence of characters.
pub uninterp spec fn lower_of(s: Seq<char>) -> Seq<char>;

/// A sequence that reads the same forwards and backwards.
pub open spec fn reads_same_both_ways(s: Seq<char>) -> bool {
    s == s.reverse()
}

/// Whether `word` is a palindrome, ignoring case.
pub open spec fn is_palindrome_spec(word: Seq<char>) -> bool {
    reads_same_both_ways(lower_of(word))
}

/// Relies on `str::to_lowercase`: its result depends on the characters alone,
/// and the empty string stays empty.
#[verifier::external_body]
fn lowercase(s: &str) -> (r: String)
    ensures
        r@ == lower_of(s@),
        s@.len() == 0 ==> r@.len() == 0,
{
    s.to_lowercase()
}

/// Relies on `String::push`: appends one character at the end.
#[verifier::external_body]
fn push_char(s: &mut String, c: char)
    ensures
        final(s)@ == old(s)@.push(c),
{
    s.push(c)
}

/// The characters of `word` in reverse order.
pub fn reverse_word(word: &str) -> (r: String)
    ensures
        r@ == word@.reverse(),
{
    let chars = chars_of(word);
    let mut r = String::new();
    let mut i: usize = chars.len();
    while i > 0
        invariant
            i <= chars@.len(),
            chars@ == word@,
            r@ == word@.subrange(i as int, word@.len() as int).reverse(),
        decreases i,
    {
        i = i - 1;
        push_char(&mut r, chars[i]);
        assert(r@ =~= word@.subrange(i as int, word@.len() as int).reverse());
    }
    assert(word@.subrange(0, word@.len() as int) =~= word@);
    r
}

/// The characters of `s`, in order.
fn chars_of(s: &str) -> (r: Vec<char>)
    ensures
        r@ == s@,
{
    let mut chars: Vec<char> = Vec::new();
    for c in it: s.chars()
        invariant
            it.seq() == s@,
            chars@ == it.seq().take(it.index() as int),
    {
        chars.push(c);
    }
    chars
}

/// Whether `folded`, taken as it is, reads the same forwards and backwards.
/// This is the comparison that follows case folding in [`is_palindrome`].
pub fn is_palindrome_folded(folded: &str) -> (r: bool)
    ensures
        r == reads_same_both_ways(folded@),
{
    let chars = chars_of(folded);
    let n = chars.len();
    let mut i: usize = 0;
    while i < n / 2
        invariant
            n == chars@.len(),
            chars@ == folded@,
            i <= n / 2,
            forall|j: int| 0 <= j < i ==> #[trigger] chars@[j] == chars@[n - 1 - j],
        decreases n / 2 - i,
    {
        if chars[i] != chars[n - 1 - i] {
            assert(folded@.reverse()[n - 1 - i] != folded@[n - 1 - i]);
            return false;
        }
        i = i + 1;
    }
    assert(folded@ =~= folded@.reverse()) by {
        assert forall|j: int| 0 <= j < n implies folded@[j] == folded@.reverse()[j] by {
            if j >= n / 2 {
                assert(chars@[n - 1 - j] == chars@[n - 1 - (n - 1 - j)]);
            }
        }
    }
    true
}

/// Whether `word` is a palindrome, comparing its lower-case form with its own reverse.
pub fn is_palindrome(word: &str) -> (r: bool)
    ensures
        r == is_palindrome_spec(word@),
        word@.len() == 0 ==> r,
{
    let lower = lowercase(word);
    proof {
        if word@.len() == 0 {
            lemma_short_reads_same(lower@);
        }
    }
    is_palindrome_folded(lower.as_str())
}

/// Reversing a word twice gives the word back.
pub proof fn lemma_reverse_twice(s: Seq<char>)
    ensures
        s.reverse().reverse() == s,
{
    assert(s.reverse().reverse() =~= s);
}

/// Reversing a word keeps its length in characters.
pub proof fn lemma_reverse_keeps_length(s: Seq<char>)
    ensures
        s.reverse().len() == s.len(),
{
}

/// A sequence reads the same both ways exactly when its reverse does.
pub proof fn lemma_reverse_keeps_reading_same(t: Seq<char>)
    ensures
        reads_same_both_ways(t) == reads_same_both_ways(t.reverse()),
{
    lemma_reverse_twice(t);
    if reads_same_both_ways(t.reverse()) {
        assert(t == t.reverse());
    }
}

/// A word is a palindrome exactly when its reverse is, wherever case folding
/// commutes with reversal on it. (It does not always: a final capital sigma
/// folds to a different letter than one at the start of a word.)
pub proof fn lemma_reverse_keeps_palindrome(s: Seq<char>)
    requires
        lower_of(s.reverse()) == lower_of(s).reverse(),
    ensures
        is_palindrome_spec(s) == is_palindrome_spec(s.reverse()),
{
    lemma_reverse_keeps_reading_same(lower_of(s));
}

/// Any sequence of at most one character reads the same both ways.
pub proof fn lemma_short_reads_same(t: Seq<char>)
    requires
        t.len() <= 1,
    ensures
        reads_same_both_ways(t),
{
    assert(t.reverse() =~= t);
}

/// A one-character word is a palindrome wherever its lower-case form has at
/// most one character. (Some capitals fold to two characters.)
pub proof fn lemma_single_char_palindrome(c: char)
    requires
        lower_of(seq![c]).len() <= 1,
    ensures
        is_palindrome_spec(seq![c]),
{
    lemma_short_reads_same(lower_of(seq![c]));
}

/// The message with which an empty word is refused.
pub open spec fn empty_word_message() -> Seq<char> {
    "Error: The word cannot be empty."@
}

/// The sentence that reports whether `word` is a palindrome; the word is
/// echoed as it was given.
pub open spec fn verdict_line(word: Seq<char>) -> Seq<char> {
    if is_palindrome_spec(word) {
        word + " is a palindrome"@
    } else {
        word + " is not a palindrome"@
    }
}

/// What [`run`] produces for `word`: the empty word is refused; otherwise the
/// verdict sentence when `palindrome` is set, the reversed word when not.
pub open spec fn outcome(word: Seq<char>, palindrome: bool) -> Result<Seq<char>, Seq<char>> {
    if word.len() == 0 {
        Err(empty_word_message())
    } else if palindrome {
        Ok(verdict_line(word))
    } else {
        Ok(word.reverse())
    }
}

/// The view of a result whose two sides are strings.
pub open spec fn result_view(r: Result<String, String>) -> Result<Seq<char>, Seq<char>> {
    match r {
        Ok(s) => Ok(s@),
        Err(e) => Err(e@),
    }
}

/// Evaluates one word: refuses the empty word, and otherwise either reports
/// whether it is a palindrome (`palindrome` set) or reverses it.
pub fn run(word: &str, palindrome: bool) -> (r: Result<String, String>)
    ensures
        result_view(r) == outcome(word@, palindrome),
        r is Err <==> word@.len() == 0,
{
    if word.is_empty() {
        return Err(String::from_str("Error: The word cannot be empty."));
    }
    if palindrome {
        let mut line = String::from_str(word);
        if is_palindrome(word) {
            line.append(" is a palindrome");
        } else {
            line.append(" is not a palindrome");
        }
        Ok(line)
    } else {
        Ok(reverse_word(word))
    }
}

} // verus!
