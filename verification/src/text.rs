//! Operations on text, stated over sequences of characters.

use vstd::prelude::*;
use vstd::string::*;

verus! {

/// `pattern` stands in `text` at position `at`.
pub open spec fn occurs_at(text: Seq<char>, pattern: Seq<char>, at: int) -> bool {
    &&& 0 <= at
    &&& at + pattern.len() <= text.len()
    &&& text.subrange(at, at + pattern.len()) == pattern
}

/// `pattern` stands somewhere in `text`.
pub open spec fn occurs(text: Seq<char>, pattern: Seq<char>) -> bool {
    exists|at: int| occurs_at(text, pattern, at)
}

/// Lexicographic order on text, character by character; a proper prefix comes first.
pub open spec fn text_le(a: Seq<char>, b: Seq<char>) -> bool
    decreases a.len(),
{
    if a.len() == 0 {
        true
    } else if b.len() == 0 {
        false
    } else if a[0] != b[0] {
        a[0] < b[0]
    } else {
        text_le(a.drop_first(), b.drop_first())
    }
}

/// A literal without its first and its last character: what stands between the quotes of
/// a string literal. A text of fewer than two characters has nothing between them.
pub open spec fn unquoted(literal: Seq<char>) -> Seq<char> {
    if literal.len() >= 2 {
        literal.subrange(1, literal.len() - 1)
    } else {
        Seq::empty()
    }
}

/// An identifier without the `r#` that marks a raw identifier.
pub open spec fn unescaped(name: Seq<char>) -> Seq<char> {
    if name.len() >= 2 && name[0] == 'r' && name[1] == '#' {
        name.subrange(2, name.len() as int)
    } else {
        name
    }
}

/// Where the last component of a `/`-separated path begins: behind the last `/`, or at 0.
pub open spec fn base_start(path: Seq<char>) -> int
    decreases path.len(),
{
    if path.len() == 0 {
        0
    } else if path.last() == '/' {
        path.len() as int
    } else {
        base_start(path.drop_last())
    }
}

/// The last component of a `/`-separated path.
pub open spec fn base_name(path: Seq<char>) -> Seq<char> {
    path.subrange(base_start(path), path.len() as int)
}

/// `base_start` is a position of the path, no `/` stands at or behind it, and one stands
/// just before it unless it is 0.
pub proof fn lemma_base_start(path: Seq<char>)
    ensures
        0 <= base_start(path) <= path.len(),
        base_start(path) > 0 ==> path[base_start(path) - 1] == '/',
        forall|i: int| base_start(path) <= i < path.len() ==> path[i] != '/',
    decreases path.len(),
{
    if path.len() > 0 && path.last() != '/' {
        let head = path.drop_last();
        lemma_base_start(head);
        assert forall|i: int| base_start(path) <= i < path.len() implies path[i] != '/' by {
            if i < head.len() {
                assert(head[i] == path[i]);
            }
        }
    }
}

/// The order is reflexive.
pub proof fn lemma_text_le_reflexive(a: Seq<char>)
    ensures
        text_le(a, a),
    decreases a.len(),
{
    if a.len() > 0 {
        lemma_text_le_reflexive(a.drop_first());
    }
}

/// The order is total: of two texts one comes first.
pub proof fn lemma_text_le_total(a: Seq<char>, b: Seq<char>)
    ensures
        text_le(a, b) || text_le(b, a),
    decreases a.len(),
{
    if a.len() > 0 && b.len() > 0 && a[0] == b[0] {
        lemma_text_le_total(a.drop_first(), b.drop_first());
    }
}

/// The order is antisymmetric: two texts that each come before the other are one text.
pub proof fn lemma_text_le_antisymmetric(a: Seq<char>, b: Seq<char>)
    requires
        text_le(a, b),
        text_le(b, a),
    ensures
        a == b,
    decreases a.len(),
{
    if a.len() > 0 && b.len() > 0 {
        lemma_text_le_antisymmetric(a.drop_first(), b.drop_first());
        assert(a =~= seq![a[0]] + a.drop_first());
        assert(b =~= seq![b[0]] + b.drop_first());
    } else {
        assert(a =~= b);
    }
}

/// The order is transitive.
pub proof fn lemma_text_le_transitive(a: Seq<char>, b: Seq<char>, c: Seq<char>)
    requires
        text_le(a, b),
        text_le(b, c),
    ensures
        text_le(a, c),
    decreases a.len(),
{
    if a.len() > 0 && b.len() > 0 && c.len() > 0 && a[0] == b[0] && b[0] == c[0] {
        lemma_text_le_transitive(a.drop_first(), b.drop_first(), c.drop_first());
    }
}

/// The characters of a string slice, in order.
pub fn chars_of(text: &str) -> (chars: Vec<char>)
    ensures
        chars@ == text@,
{
    let mut chars: Vec<char> = Vec::new();
    for c in it: text.chars()
        invariant
            chars@ == it.seq().take(it.index() as int),
            it.seq() == text@,
    {
        chars.push(c);
    }
    chars
}

/// Whether two string slices hold the same text.
pub fn same_text(a: &str, b: &str) -> (same: bool)
    ensures
        same == (a@ == b@),
{
    let left = String::from_str(a);
    let right = String::from_str(b);
    left == right
}

fn matches_at(text: &Vec<char>, pattern: &Vec<char>, at: usize) -> (found: bool)
    requires
        at + pattern.len() <= text.len(),
    ensures
        found == occurs_at(text@, pattern@, at as int),
{
    let mut k: usize = 0;
    while k < pattern.len()
        invariant
            k <= pattern.len(),
            at + pattern.len() <= text.len(),
            forall|j: int| 0 <= j < k ==> text@[at + j] == pattern@[j],
        decreases pattern.len() - k,
    {
        if text[at + k] != pattern[k] {
            proof {
                let window = text@.subrange(at as int, at + pattern.len());
                assert(window[k as int] == text@[at + k]);
            }
            return false;
        }
        k += 1;
    }
    assert(text@.subrange(at as int, at + pattern.len()) =~= pattern@);
    true
}

/// Whether `pattern` stands somewhere in `text`. The empty pattern stands in every text.
pub fn contains(text: &str, pattern: &str) -> (found: bool)
    ensures
        found == occurs(text@, pattern@),
{
    let text_chars = chars_of(text);
    let pattern_chars = chars_of(pattern);
    if pattern_chars.len() > text_chars.len() {
        return false;
    }
    let last: usize = text_chars.len() - pattern_chars.len();
    let mut at: usize = 0;
    loop
        invariant
            at <= last,
            last == text_chars.len() - pattern_chars.len(),
            pattern_chars.len() <= text_chars.len(),
            text_chars@ == text@,
            pattern_chars@ == pattern@,
            forall|k: int| 0 <= k < at ==> !occurs_at(text@, pattern@, k),
        decreases last - at,
    {
        if matches_at(&text_chars, &pattern_chars, at) {
            return true;
        }
        if at == last {
            return false;
        }
        at += 1;
    }
}

/// Whether `a` comes before `b`, or is `b`, in the lexicographic order.
pub fn precedes_text(a: &str, b: &str) -> (before: bool)
    ensures
        before == text_le(a@, b@),
{
    let left = chars_of(a);
    let right = chars_of(b);
    let mut i: usize = 0;
    assert(a@.skip(0) =~= a@ && b@.skip(0) =~= b@);
    while i < left.len() && i < right.len()
        invariant
            i <= left.len(),
            i <= right.len(),
            left@ == a@,
            right@ == b@,
            text_le(a@, b@) == text_le(a@.skip(i as int), b@.skip(i as int)),
        decreases left.len() - i,
    {
        proof {
            let rest_a = a@.skip(i as int);
            let rest_b = b@.skip(i as int);
            assert(rest_a[0] == left@[i as int]);
            assert(rest_b[0] == right@[i as int]);
            assert(rest_a.drop_first() =~= a@.skip(i + 1));
            assert(rest_b.drop_first() =~= b@.skip(i + 1));
        }
        if left[i] != right[i] {
            return left[i] < right[i];
        }
        i += 1;
    }
    i == left.len()
}

/// The text of `literal` without its first and last character.
pub fn unquote(literal: &str) -> (inner: String)
    ensures
        inner@ == unquoted(literal@),
{
    let n = literal.unicode_len();
    if n >= 2 {
        String::from_str(literal.substring_char(1, n - 1))
    } else {
        String::new()
    }
}

/// The text of `name` without a leading `r#`.
pub fn unescape(name: &str) -> (plain: String)
    ensures
        plain@ == unescaped(name@),
{
    let n = name.unicode_len();
    if n >= 2 && name.get_char(0) == 'r' && name.get_char(1) == '#' {
        String::from_str(name.substring_char(2, n))
    } else {
        String::from_str(name)
    }
}

/// The last component of a `/`-separated path.
pub fn last_component(path: &str) -> (name: String)
    ensures
        name@ == base_name(path@),
{
    let chars = chars_of(path);
    let mut start: usize = chars.len();
    assert(path@.take(chars.len() as int) =~= path@);
    while start > 0 && chars[start - 1] != '/'
        invariant
            start <= chars.len(),
            chars@ == path@,
            base_start(path@) == base_start(path@.take(start as int)),
        decreases start,
    {
        proof {
            let head = path@.take(start as int);
            assert(head.last() == chars@[start - 1]);
            assert(head.drop_last() =~= path@.take(start - 1));
        }
        start -= 1;
    }
    proof {
        let head = path@.take(start as int);
        if start > 0 {
            assert(head.last() == chars@[start - 1]);
        }
    }
    String::from_str(path.substring_char(start, chars.len()))
}

} // verus!

