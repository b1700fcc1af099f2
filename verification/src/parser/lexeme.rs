//! Characters and the runs of them that tokens are made of.

use vstd::prelude::*;
use vstd::string::StrSliceExecFns;

verus! {

/// A class of characters.
#[derive(Debug, PartialEq, Eq, Copy)]
pub enum CharClass {
    /// Space, tab, carriage return and line feed.
    Space,
    /// The decimal digits `0` to `9`.
    Digit,
    /// The letters `a` to `z` and `A` to `Z`.
    Alpha,
}

impl Clone for CharClass {
    fn clone(&self) -> (res: Self)
        ensures
            res == *self,
    {
        *self
    }
}

impl CharClass {
    /// Whether `c` belongs to the class.
    pub open spec fn holds(self, c: char) -> bool {
        match self {
            CharClass::Space => c == ' ' || c == '\t' || c == '\r' || c == '\n',
            CharClass::Digit => '0' <= c <= '9',
            CharClass::Alpha => ('a' <= c <= 'z') || ('A' <= c <= 'Z'),
        }
    }

    /// Whether `c` belongs to the class.
    pub fn contains(self, c: char) -> (r: bool)
        ensures
            r == self.holds(c),
    {
        match self {
            CharClass::Space => c == ' ' || c == '\t' || c == '\r' || c == '\n',
            CharClass::Digit => '0' <= c && c <= '9',
            CharClass::Alpha => ('a' <= c && c <= 'z') || ('A' <= c && c <= 'Z'),
        }
    }
}

/// The length of the longest prefix of `s` whose characters all belong to
/// `class`.
pub open spec fn leading(s: Seq<char>, class: CharClass) -> nat
    decreases s.len(),
{
    if s.len() > 0 && class.holds(s[0]) {
        1 + leading(s.drop_first(), class)
    } else {
        0
    }
}

/// `s` without its leading white space.
pub open spec fn skip_spaces(s: Seq<char>) -> Seq<char> {
    s.skip(leading(s, CharClass::Space) as int)
}

/// The longest prefix in a class is no longer than the text.
pub proof fn lemma_leading_bound(s: Seq<char>, class: CharClass)
    ensures
        leading(s, class) <= s.len(),
    decreases s.len(),
{
    if s.len() > 0 && class.holds(s[0]) {
        lemma_leading_bound(s.drop_first(), class);
    }
}

/// Every character of the longest prefix in a class belongs to the class,
/// and the character after it, if there is one, does not.
pub proof fn lemma_leading_holds(s: Seq<char>, class: CharClass)
    ensures
        forall|j: int| 0 <= j < leading(s, class) ==> class.holds(#[trigger] s[j]),
        leading(s, class) < s.len() ==> !class.holds(s[leading(s, class) as int]),
    decreases s.len(),
{
    if s.len() > 0 && class.holds(s[0]) {
        let tail = s.drop_first();
        lemma_leading_holds(tail, class);
        lemma_leading_bound(tail, class);
        assert forall|j: int| 0 <= j < leading(s, class) implies class.holds(#[trigger] s[j]) by {
            if j > 0 {
                assert(s[j] == tail[j - 1]);
            }
        }
        if leading(s, class) < s.len() {
            assert(s[leading(s, class) as int] == tail[leading(tail, class) as int]);
        }
    }
}

/// A prefix in the class that cannot be extended is the longest.
pub proof fn lemma_leading_is(s: Seq<char>, class: CharClass, n: int)
    requires
        0 <= n <= s.len(),
        forall|j: int| 0 <= j < n ==> class.holds(#[trigger] s[j]),
        n == s.len() || !class.holds(s[n]),
    ensures
        leading(s, class) == n,
    decreases n,
{
    if n > 0 {
        let tail = s.drop_first();
        assert forall|j: int| 0 <= j < n - 1 implies class.holds(#[trigger] tail[j]) by {
            assert(tail[j] == s[j + 1]);
        }
        lemma_leading_is(tail, class, n - 1);
    }
}

/// The number of characters at the start of `input` that belong to
/// `class`.
pub fn leading_len(input: &str, class: CharClass) -> (n: usize)
    ensures
        n == leading(input@, class),
        n <= input@.len(),
{
    let len = input.unicode_len();
    let mut i: usize = 0;
    while i < len && class.contains(input.get_char(i))
        invariant
            i <= len,
            len == input@.len(),
            forall|j: int| 0 <= j < i ==> class.holds(#[trigger] input@[j]),
        decreases len - i,
    {
        i = i + 1;
    }
    proof {
        lemma_leading_is(input@, class, i as int);
    }
    i
}

/// `input` cut in two after its first `n` characters.
pub fn split_chars(input: &str, n: usize) -> (parts: (&str, &str))
    requires
        n <= input@.len(),
    ensures
        parts.0@ == input@.take(n as int),
        parts.1@ == input@.skip(n as int),
{
    let len = input.unicode_len();
    let head = input.substring_char(0, n);
    let tail = input.substring_char(n, len);
    assert(head@ =~= input@.take(n as int));
    assert(tail@ =~= input@.skip(n as int));
    (head, tail)
}

/// `input` without its leading white space.
pub fn ws(input: &str) -> (rest: &str)
    ensures
        rest@ == skip_spaces(input@),
{
    let n = leading_len(input, CharClass::Space);
    split_chars(input, n).1
}

} // verus!
