//! Numbers and names as text.

use vstd::prelude::*;

verus! {

/// The texts of some strings.
pub open spec fn texts(strings: Seq<String>) -> Seq<Seq<char>> {
    Seq::new(strings.len(), |i: int| strings[i]@)
}

/// The character of a decimal digit.
pub open spec fn digit(d: int) -> char {
    if d == 0 {
        '0'
    } else if d == 1 {
        '1'
    } else if d == 2 {
        '2'
    } else if d == 3 {
        '3'
    } else if d == 4 {
        '4'
    } else if d == 5 {
        '5'
    } else if d == 6 {
        '6'
    } else if d == 7 {
        '7'
    } else if d == 8 {
        '8'
    } else {
        '9'
    }
}

/// A number in decimal notation, without leading zeros.
pub open spec fn decimal(n: nat) -> Seq<char>
    decreases n,
{
    if n < 10 {
        seq![digit(n as int)]
    } else {
        decimal(n / 10).push(digit((n % 10) as int))
    }
}

/// The text of a decimal digit.
fn digit_text(d: u16) -> (r: &'static str)
    requires
        d < 10,
    ensures
        r@ == seq![digit(d as int)],
{
    proof {
        reveal_strlit("0");
        reveal_strlit("1");
        reveal_strlit("2");
        reveal_strlit("3");
        reveal_strlit("4");
        reveal_strlit("5");
        reveal_strlit("6");
        reveal_strlit("7");
        reveal_strlit("8");
        reveal_strlit("9");
    }
    if d == 0 {
        "0"
    } else if d == 1 {
        "1"
    } else if d == 2 {
        "2"
    } else if d == 3 {
        "3"
    } else if d == 4 {
        "4"
    } else if d == 5 {
        "5"
    } else if d == 6 {
        "6"
    } else if d == 7 {
        "7"
    } else if d == 8 {
        "8"
    } else {
        "9"
    }
}

/// Writes a number in decimal notation.
pub fn decimal_text(n: u16) -> (r: String)
    ensures
        r@ == decimal(n as nat),
    decreases n,
{
    if n < 10 {
        String::from_str(digit_text(n))
    } else {
        let mut text = decimal_text(n / 10);
        text.append(digit_text(n % 10));
        text
    }
}

/// Where the part of a text after the last `mark` begins: at the start of
/// the text where there is no `mark` in it.
pub open spec fn after_last(text: Seq<char>, mark: char) -> int
    decreases text.len(),
{
    if text.len() == 0 {
        0
    } else if text.last() == mark {
        text.len() as int
    } else {
        after_last(text.drop_last(), mark)
    }
}

/// The part of a text after the last `mark`: the whole text where there is
/// no `mark` in it.
pub open spec fn last_part(text: Seq<char>, mark: char) -> Seq<char> {
    text.skip(after_last(text, mark))
}

/// The part after the last `mark` begins at `start` where a `mark` stands
/// just before `start`, or nothing does, and none stands after it.
pub proof fn lemma_after_last(text: Seq<char>, mark: char, start: int)
    requires
        0 <= start <= text.len(),
        start == 0 || text[start - 1] == mark,
        forall|k: int| start <= k < text.len() ==> text[k] != mark,
    ensures
        after_last(text, mark) == start,
    decreases text.len(),
{
    if text.len() > start {
        lemma_after_last(text.drop_last(), mark, start);
    }
}

/// The part of a text after its last slash: the whole text where there is
/// no slash in it.
pub fn after_last_slash(text: &str) -> (r: &str)
    ensures
        r@ == last_part(text@, '/'),
{
    let length = text.unicode_len();
    let mut start = length;
    while start > 0
        invariant
            start <= length,
            length == text@.len(),
            forall|k: int| start <= k < length ==> text@[k] != '/',
        ensures
            start == 0 || text@[start - 1] == '/',
        decreases start,
    {
        if text.get_char(start - 1) == '/' {
            break;
        }
        start -= 1;
    }
    proof {
        lemma_after_last(text@, '/', start as int);
    }
    text.substring_char(start, length)
}

/// Some texts in a row, with a separator between each two of them.
pub open spec fn joined(parts: Seq<Seq<char>>, separator: Seq<char>) -> Seq<char>
    decreases parts.len(),
{
    if parts.len() == 0 {
        Seq::empty()
    } else if parts.len() == 1 {
        parts[0]
    } else {
        joined(parts.drop_last(), separator) + separator + parts.last()
    }
}

/// The texts of some string slices.
pub open spec fn slice_texts(parts: Seq<&'static str>) -> Seq<Seq<char>> {
    Seq::new(parts.len(), |i: int| parts[i]@)
}

/// Writes some texts in a row, with a separator between each two of them.
pub fn join(parts: &Vec<&'static str>, separator: &str) -> (r: String)
    ensures
        r@ == joined(slice_texts(parts@), separator@),
{
    let ghost texts = slice_texts(parts@);
    let mut text = String::new();
    let mut i: usize = 0;
    while i < parts.len()
        invariant
            i <= parts.len(),
            texts == slice_texts(parts@),
            text@ == joined(texts.take(i as int), separator@),
        decreases parts.len() - i,
    {
        assert(texts.take(i + 1).drop_last() =~= texts.take(i as int));
        if i > 0 {
            text.append(separator);
        }
        text.append(parts[i]);
        i += 1;
    }
    assert(texts.take(i as int) =~= texts);
    text
}

} // verus!
