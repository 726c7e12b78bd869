//! Text as sequences of characters: words, order, search and case.

use vstd::prelude::*;
use vstd::string::StringExecFns;

verus! {

/// Whether `c` has the Unicode property `White_Space`, as `char::is_whitespace`
/// of the standard library reports it.
pub uninterp spec fn is_whitespace(c: char) -> bool;

/// Calls `char::is_whitespace`. Trusted: the answer depends on the character
/// alone and is named [`is_whitespace`].
#[verifier::external_body]
pub(crate) fn char_is_whitespace(c: char) -> (blank: bool)
    ensures
        blank == is_whitespace(c),
{
    c.is_whitespace()
}

/// How many whitespace characters `text` starts with.
pub open spec fn blank_prefix_len(text: Seq<char>) -> nat
    decreases text.len(),
{
    if text.len() > 0 && is_whitespace(text[0]) {
        1 + blank_prefix_len(text.drop_first())
    } else {
        0
    }
}

/// How many characters that are not whitespace `text` starts with.
pub open spec fn word_prefix_len(text: Seq<char>) -> nat
    decreases text.len(),
{
    if text.len() > 0 && !is_whitespace(text[0]) {
        1 + word_prefix_len(text.drop_first())
    } else {
        0
    }
}

/// The first run of characters of `text` that holds no whitespace, or all of
/// `text` where it holds nothing but whitespace.
pub open spec fn first_word(text: Seq<char>) -> Seq<char> {
    let rest = text.skip(blank_prefix_len(text) as int);
    let length = word_prefix_len(rest);
    if length == 0 {
        text
    } else {
        rest.take(length as int)
    }
}

proof fn lemma_blank_prefix_step(text: Seq<char>, i: int)
    requires
        0 <= i < text.len(),
        is_whitespace(text[i]),
    ensures
        blank_prefix_len(text.skip(i)) == 1 + blank_prefix_len(text.skip(i + 1)),
{
    assert(text.skip(i).drop_first() =~= text.skip(i + 1));
}

proof fn lemma_word_prefix_step(text: Seq<char>, i: int)
    requires
        0 <= i < text.len(),
        !is_whitespace(text[i]),
    ensures
        word_prefix_len(text.skip(i)) == 1 + word_prefix_len(text.skip(i + 1)),
{
    assert(text.skip(i).drop_first() =~= text.skip(i + 1));
}

/// The characters of `text`, one by one.
pub fn characters(text: &str) -> (chars: Vec<char>)
    ensures
        chars@ == text@,
{
    let mut chars: Vec<char> = Vec::new();
    for c in it: text.chars()
        invariant
            it.seq() == text@,
            chars@ == it.seq().take(it.index() as int),
    {
        chars.push(c);
        assert(chars@ =~= it.seq().take(it.index() + 1));
    }
    assert(text@.take(text@.len() as int) =~= text@);
    chars
}

/// The first whitespace-separated word of `text`, or `text` itself where it
/// has no word.
pub fn leading_word(text: &str) -> (word: &str)
    ensures
        word@ == first_word(text@),
{
    let chars = characters(text);
    let n = chars.len();
    let mut start: usize = 0;
    assert(text@.skip(0) =~= text@);
    while start < n && char_is_whitespace(chars[start])
        invariant
            start <= n,
            n == text@.len(),
            chars@ == text@,
            blank_prefix_len(text@) == start + blank_prefix_len(text@.skip(start as int)),
        decreases n - start,
    {
        proof {
            lemma_blank_prefix_step(text@, start as int);
        }
        start += 1;
    }
    assert(blank_prefix_len(text@) == start);
    let mut end: usize = start;
    while end < n && !char_is_whitespace(chars[end])
        invariant
            start <= end <= n,
            n == text@.len(),
            chars@ == text@,
            word_prefix_len(text@.skip(start as int)) == (end - start) + word_prefix_len(
                text@.skip(end as int),
            ),
        decreases n - end,
    {
        proof {
            lemma_word_prefix_step(text@, end as int);
        }
        end += 1;
    }
    assert(word_prefix_len(text@.skip(start as int)) == end - start);
    if end == start {
        text
    } else {
        assert(text@.skip(start as int).take(end - start) =~= text@.subrange(
            start as int,
            end as int,
        ));
        text.substring_char(start, end)
    }
}

/// The lower-case form of `text`, as `str::to_lowercase` of the standard
/// library gives it.
pub uninterp spec fn lowercase(text: Seq<char>) -> Seq<char>;

/// Calls `str::to_lowercase`. Trusted: the result depends on the text alone
/// and is named [`lowercase`].
#[verifier::external_body]
pub(crate) fn to_lowercase(text: &str) -> (lower: String)
    ensures
        lower@ == lowercase(text@),
{
    text.to_lowercase()
}

/// Whether `needle` stands somewhere in `haystack`, character for character.
pub open spec fn occurs_in(needle: Seq<char>, haystack: Seq<char>) -> bool {
    exists|start: int|
        0 <= start && start + needle.len() <= haystack.len() && #[trigger] haystack.subrange(
            start,
            start + needle.len(),
        ) == needle
}

/// Whether `needle` stands in `haystack` from the place `start` on.
fn occurs_at(needle: &Vec<char>, haystack: &Vec<char>, start: usize) -> (found: bool)
    requires
        start + needle.len() <= haystack.len(),
    ensures
        found == (haystack@.subrange(start as int, start + needle.len()) == needle@),
{
    let ghost part = haystack@.subrange(start as int, start + needle.len());
    let mut k: usize = 0;
    while k < needle.len()
        invariant
            k <= needle.len(),
            start + needle.len() <= haystack.len(),
            part == haystack@.subrange(start as int, start + needle.len()),
            forall|j: int| 0 <= j < k ==> part[j] == needle[j],
        decreases needle.len() - k,
    {
        if haystack[start + k] != needle[k] {
            assert(part[k as int] != needle[k as int]);
            return false;
        }
        k += 1;
    }
    assert(part =~= needle@);
    true
}

/// Whether `needle` stands somewhere in `haystack`.
pub fn occurs(needle: &Vec<char>, haystack: &Vec<char>) -> (found: bool)
    ensures
        found == occurs_in(needle@, haystack@),
{
    if needle.len() > haystack.len() {
        return false;
    }
    if needle.len() == 0 {
        assert(haystack@.subrange(0int, 0int + needle@.len()) =~= needle@);
        return true;
    }
    let last = haystack.len() - needle.len();
    let mut start: usize = 0;
    while start <= last
        invariant
            start <= last + 1,
            needle.len() > 0,
            last + needle.len() == haystack.len(),
            forall|i: int|
                0 <= i < start ==> #[trigger] haystack@.subrange(i, i + needle.len())
                    != needle@,
        decreases last + 1 - start,
    {
        if occurs_at(needle, haystack, start) {
            return true;
        }
        start += 1;
    }
    false
}

/// The order of texts: character by character, each character by its code
/// point, a text before every longer text that starts with it.
pub open spec fn text_less(a: Seq<char>, b: Seq<char>) -> bool
    decreases a.len(),
{
    if b.len() == 0 {
        false
    } else if a.len() == 0 {
        true
    } else if a[0] != b[0] {
        (a[0] as int) < (b[0] as int)
    } else {
        text_less(a.drop_first(), b.drop_first())
    }
}

/// Whether the code point of `a` is below that of `b`.
fn char_below(a: char, b: char) -> (below: bool)
    ensures
        below == ((a as int) < (b as int)),
{
    (a as u32) < (b as u32)
}

/// Whether `a` stands before `b` in the order of texts.
pub fn stands_before(a: &Vec<char>, b: &Vec<char>) -> (less: bool)
    ensures
        less == text_less(a@, b@),
{
    let mut k: usize = 0;
    assert(a@.skip(0) =~= a@);
    assert(b@.skip(0) =~= b@);
    while k < a.len() && k < b.len()
        invariant
            k <= a.len(),
            k <= b.len(),
            text_less(a@, b@) == text_less(a@.skip(k as int), b@.skip(k as int)),
        decreases a.len() - k,
    {
        proof {
            assert(a@.skip(k as int).drop_first() =~= a@.skip(k + 1));
            assert(b@.skip(k as int).drop_first() =~= b@.skip(k + 1));
        }
        if a[k] != b[k] {
            return char_below(a[k], b[k]);
        }
        k += 1;
    }
    k < b.len()
}

/// No text stands before itself.
pub proof fn lemma_text_less_irreflexive(a: Seq<char>)
    ensures
        !text_less(a, a),
    decreases a.len(),
{
    if a.len() > 0 {
        lemma_text_less_irreflexive(a.drop_first());
    }
}

/// Of two different texts one stands before the other.
pub proof fn lemma_text_less_total(a: Seq<char>, b: Seq<char>)
    ensures
        text_less(a, b) || text_less(b, a) || a == b,
    decreases a.len(),
{
    if a.len() > 0 && b.len() > 0 {
        if a[0] == b[0] {
            lemma_text_less_total(a.drop_first(), b.drop_first());
            if a.drop_first() == b.drop_first() {
                assert(a =~= seq![a[0]] + a.drop_first());
                assert(b =~= seq![b[0]] + b.drop_first());
            }
        } else {
            assert(a[0] as int != b[0] as int);
        }
    } else if a.len() == 0 && b.len() == 0 {
        assert(a =~= b);
    }
}

/// The order of texts is transitive.
pub proof fn lemma_text_less_transitive(a: Seq<char>, b: Seq<char>, c: Seq<char>)
    requires
        text_less(a, b),
        text_less(b, c),
    ensures
        text_less(a, c),
    decreases a.len(),
{
    if a.len() > 0 {
        if a[0] == b[0] && b[0] == c[0] {
            lemma_text_less_transitive(a.drop_first(), b.drop_first(), c.drop_first());
        }
    }
}

/// Each text stands before all that follow it: the texts ascend, and none
/// occurs twice.
pub open spec fn strictly_ascending(texts: Seq<Seq<char>>) -> bool {
    forall|i: int, j: int| 0 <= i < j < texts.len() ==> text_less(texts[i], texts[j])
}

/// Ascending texts are all different, and there is only one way to put a
/// set of texts in ascending order.
pub proof fn lemma_strictly_ascending(texts: Seq<Seq<char>>, others: Seq<Seq<char>>)
    requires
        strictly_ascending(texts),
    ensures
        forall|i: int, j: int| 0 <= i < j < texts.len() ==> texts[i] != texts[j],
        strictly_ascending(others) && others.to_set() == texts.to_set() ==> others == texts,
    decreases texts.len(),
{
    assert forall|i: int, j: int| 0 <= i < j < texts.len() implies texts[i] != texts[j] by {
        lemma_text_less_irreflexive(texts[i]);
    }
    if strictly_ascending(others) && others.to_set() == texts.to_set() {
        if texts.len() == 0 {
            if others.len() > 0 {
                assert(others.to_set().contains(others[0]));
            }
            assert(others =~= texts);
        } else if others.len() == 0 {
            assert(texts.to_set().contains(texts[0]));
        } else {
            let last = texts.last();
            let other_last = others.last();
            assert(texts.to_set().contains(last));
            assert(others.to_set().contains(other_last));
            let at = choose|k: int| 0 <= k < others.len() && others[k] == last;
            let other_at = choose|k: int| 0 <= k < texts.len() && texts[k] == other_last;
            if at < others.len() - 1 {
                if other_at < texts.len() - 1 {
                    lemma_text_less_transitive(last, other_last, last);
                }
                lemma_text_less_irreflexive(last);
            }
            assert(other_last == last);
            let front = texts.drop_last();
            let other_front = others.drop_last();
            assert forall|t: Seq<char>| front.to_set().contains(t) <==> other_front.to_set().contains(
                t,
            ) by {
                if front.to_set().contains(t) {
                    let k = choose|k: int| 0 <= k < front.len() && front[k] == t;
                    assert(texts[k] == t);
                    assert(text_less(t, last));
                    lemma_text_less_irreflexive(last);
                    assert(texts.to_set().contains(t));
                    let m = choose|m: int| 0 <= m < others.len() && others[m] == t;
                    assert(other_front[m] == t);
                }
                if other_front.to_set().contains(t) {
                    let k = choose|k: int| 0 <= k < other_front.len() && other_front[k] == t;
                    assert(others[k] == t);
                    assert(text_less(t, other_last));
                    lemma_text_less_irreflexive(last);
                    assert(others.to_set().contains(t));
                    let m = choose|m: int| 0 <= m < texts.len() && texts[m] == t;
                    assert(front[m] == t);
                }
            }
            assert(front.to_set() =~= other_front.to_set());
            lemma_strictly_ascending(front, other_front);
            assert(others =~= other_front.push(other_last));
            assert(texts =~= front.push(last));
        }
    }
}

/// Puts `text` into the ascending vector `sorted` at its place, unless it is
/// there already.
pub fn insert_ascending(sorted: &mut Vec<String>, text: String)
    requires
        strictly_ascending(old(sorted).deep_view()),
    ensures
        strictly_ascending(final(sorted).deep_view()),
        final(sorted).deep_view().to_set() == old(sorted).deep_view().to_set().insert(text@),
{
    let ghost before = sorted.deep_view();
    let chars = characters(text.as_str());
    let mut place: usize = 0;
    while place < sorted.len() && stands_before(&characters(sorted[place].as_str()), &chars)
        invariant
            place <= sorted.len(),
            sorted.deep_view() == before,
            chars@ == text@,
            forall|k: int| 0 <= k < place ==> text_less(before[k], text@),
        decreases sorted.len() - place,
    {
        place += 1;
    }
    if place < sorted.len() && sorted[place] == text {
        assert(before[place as int] == text@);
        assert(before.to_set().insert(text@) =~= before.to_set());
        return ;
    }
    proof {
        if place < before.len() {
            lemma_text_less_total(text@, before[place as int]);
            assert forall|k: int| place < k < before.len() implies text_less(text@, before[k]) by {
                lemma_text_less_transitive(text@, before[place as int], before[k]);
            }
        }
    }
    sorted.insert(place, text);
    proof {
        let after = sorted.deep_view();
        assert(after =~= before.insert(place as int, text@));
        assert forall|i: int, j: int| 0 <= i < j < after.len() implies text_less(
            after[i],
            after[j],
        ) by {
            if i < place && j > place {
                lemma_text_less_transitive(after[i], text@, after[j]);
            }
        }
        assert forall|t: Seq<char>| after.to_set().contains(t) <==> before.to_set().insert(
            text@,
        ).contains(t) by {
            if after.to_set().contains(t) {
                let k = choose|k: int| 0 <= k < after.len() && after[k] == t;
                if k < place {
                    assert(before[k] == t);
                } else if k > place {
                    assert(before[k - 1] == t);
                }
            }
            if before.to_set().contains(t) {
                let k = choose|k: int| 0 <= k < before.len() && before[k] == t;
                if k < place {
                    assert(after[k] == t);
                } else {
                    assert(after[k + 1] == t);
                }
            }
            if t == text@ {
                assert(after[place as int] == t);
            }
        }
        assert(after.to_set() =~= before.to_set().insert(text@));
    }
}

/// The character that stands for the digit `digit`.
pub open spec fn digit_char(digit: int) -> char
    recommends
        0 <= digit <= 9,
{
    if digit == 0 {
        '0'
    } else if digit == 1 {
        '1'
    } else if digit == 2 {
        '2'
    } else if digit == 3 {
        '3'
    } else if digit == 4 {
        '4'
    } else if digit == 5 {
        '5'
    } else if digit == 6 {
        '6'
    } else if digit == 7 {
        '7'
    } else if digit == 8 {
        '8'
    } else {
        '9'
    }
}

/// A natural number in decimal digits, without leading zeros.
pub open spec fn natural_text(n: nat) -> Seq<char>
    decreases n,
{
    if n < 10 {
        seq![digit_char(n as int)]
    } else {
        natural_text(n / 10).push(digit_char((n % 10) as int))
    }
}

/// An integer in decimal digits, with a minus sign where it is negative.
pub open spec fn decimal_text(n: int) -> Seq<char> {
    if n < 0 {
        seq!['-'] + natural_text((-n) as nat)
    } else {
        natural_text(n as nat)
    }
}

fn digit_text(digit: u128) -> (text: &'static str)
    requires
        digit <= 9,
    ensures
        text@ == seq![digit_char(digit as int)],
{
    proof {
        reveal_strlit("0");
        reveal_strlit("1");
        reveal_strlit("2");
        reveal_strlit("3");
        reveal_strlit("4");
        reveal_strlit("5");
        reveal_strlit("6");
        reveal_strlit("7");
        reveal_strlit("8");
        reveal_strlit("9");
    }
    let text = if digit == 0 {
        "0"
    } else if digit == 1 {
        "1"
    } else if digit == 2 {
        "2"
    } else if digit == 3 {
        "3"
    } else if digit == 4 {
        "4"
    } else if digit == 5 {
        "5"
    } else if digit == 6 {
        "6"
    } else if digit == 7 {
        "7"
    } else if digit == 8 {
        "8"
    } else {
        "9"
    };
    assert(text@ =~= seq![digit_char(digit as int)]);
    text
}

fn render_natural(n: u128) -> (text: String)
    ensures
        text@ == natural_text(n as nat),
    decreases n,
{
    if n < 10 {
        digit_text(n).to_owned()
    } else {
        let mut text = render_natural(n / 10);
        text.append(digit_text(n % 10));
        assert(text@ =~= natural_text((n / 10) as nat).push(digit_char((n % 10) as int)));
        text
    }
}

/// Writes `n` in decimal digits.
pub fn render_integer(n: i64) -> (text: String)
    ensures
        text@ == decimal_text(n as int),
{
    if n < 0 {
        proof {
            reveal_strlit("-");
        }
        let mut text = "-".to_owned();
        let size: u128 = (-(n as i128)) as u128;
        text.append(render_natural(size).as_str());
        assert(text@ =~= seq!['-'] + natural_text((-n) as nat));
        text
    } else {
        render_natural(n as u128)
    }
}

/// Writes a count in decimal digits.
pub fn render_count(n: usize) -> (text: String)
    ensures
        text@ == decimal_text(n as int),
{
    render_natural(n as u128)
}

/// `true` or `false`, as the word.
pub open spec fn truth_text(value: bool) -> Seq<char> {
    if value {
        "true"@
    } else {
        "false"@
    }
}

/// Writes `value` as the word `true` or `false`.
pub fn render_truth(value: bool) -> (text: &'static str)
    ensures
        text@ == truth_text(value),
{
    if value {
        "true"
    } else {
        "false"
    }
}

} // verus!
