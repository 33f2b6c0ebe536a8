//! Texts as sequences of characters.

use vstd::prelude::*;

verus! {

/// `String::push` of the standard library appends one character to the end
/// of the string and changes nothing else of it.
pub assume_specification[ String::push ](text: &mut String, c: char)
    ensures
        final(text)@ == old(text)@.push(c),
;

/// `text` without the characters `c` that it begins with.
pub open spec fn without_leading(text: Seq<char>, c: char) -> Seq<char>
    decreases text.len(),
{
    if text.len() > 0 && text[0] == c {
        without_leading(text.skip(1), c)
    } else {
        text
    }
}

/// What is left of a text when the characters `c` it begins with are taken
/// away is part of the text, and does not begin with `c`.
pub proof fn lemma_without_leading(text: Seq<char>, c: char)
    ensures
        without_leading(text, c).len() <= text.len(),
        without_leading(text, c) == text.skip(text.len() - without_leading(text, c).len()),
        without_leading(text, c).len() > 0 ==> without_leading(text, c)[0] != c,
    decreases text.len(),
{
    if text.len() > 0 && text[0] == c {
        lemma_without_leading(text.skip(1), c);
        let rest = without_leading(text.skip(1), c);
        assert(text.skip(1).skip(text.len() - 1 - rest.len()) =~= text.skip(
            text.len() - rest.len(),
        ));
    } else {
        assert(text.skip(0) =~= text);
    }
}

/// `text` with every character `from` replaced by `to`.
pub open spec fn with_replaced(text: Seq<char>, from: char, to: char) -> Seq<char> {
    text.map_values(
        |c: char|
            if c == from {
                to
            } else {
                c
            },
    )
}

/// Whether `text` holds `c` twice in a row.
pub open spec fn has_double(text: Seq<char>, c: char) -> bool {
    exists|i: int| 0 <= i < text.len() - 1 && #[trigger] text[i] == c && text[i + 1] == c
}

/// The position of the last `c` in `text`, or -1 if there is none.
pub open spec fn last_position(text: Seq<char>, c: char) -> int
    decreases text.len(),
{
    if text.len() == 0 {
        -1
    } else if text.last() == c {
        text.len() - 1
    } else {
        last_position(text.drop_last(), c)
    }
}

/// The characters of a text.
pub fn chars_of(text: &str) -> (chars: Vec<char>)
    ensures
        chars@ == text@,
{
    let mut chars: Vec<char> = Vec::new();
    for c in it: text.chars()
        invariant
            chars@ == it.seq().take(it.index() as int),
    {
        chars.push(c);
    }
    chars
}

/// The text that `chars` holds from position `from` on.
pub fn text_from(chars: &Vec<char>, from: usize) -> (text: String)
    requires
        from <= chars@.len(),
    ensures
        text@ == chars@.skip(from as int),
{
    let mut text = String::new();
    let mut i: usize = from;
    while i < chars.len()
        invariant
            from <= i <= chars@.len(),
            text@ == chars@.subrange(from as int, i as int),
        decreases chars@.len() - i,
    {
        text.push(chars[i]);
        proof {
            assert(text@ =~= chars@.subrange(from as int, i + 1));
        }
        i = i + 1;
    }
    proof {
        assert(chars@.subrange(from as int, i as int) =~= chars@.skip(from as int));
    }
    text
}

/// Whether `chars` holds, from position `from` to its end, exactly `text`.
pub fn ends_with_from(chars: &Vec<char>, from: usize, text: &str) -> (same: bool)
    requires
        from <= chars@.len(),
    ensures
        same == (chars@.skip(from as int) == text@),
{
    let other = chars_of(text);
    if other.len() != chars.len() - from {
        return false;
    }
    let mut i: usize = 0;
    while i < other.len()
        invariant
            i <= other@.len(),
            from <= chars@.len(),
            other@ == text@,
            other@.len() == chars@.len() - from,
            chars@.len() <= usize::MAX,
            forall|j: int| 0 <= j < i ==> other@[j] == chars@[from + j],
        decreases other@.len() - i,
    {
        if other[i] != chars[from + i] {
            assert(chars@.skip(from as int)[i as int] != other@[i as int]);
            return false;
        }
        i = i + 1;
    }
    proof {
        assert(chars@.skip(from as int) =~= other@);
    }
    true
}

/// The number of characters `c` that `chars` begins with.
pub fn leading_count(chars: &Vec<char>, c: char) -> (count: usize)
    ensures
        count <= chars@.len(),
        chars@.skip(count as int) == without_leading(chars@, c),
{
    let mut count: usize = 0;
    proof {
        assert(chars@.skip(0) =~= chars@);
    }
    while count < chars.len() && chars[count] == c
        invariant
            count <= chars@.len(),
            without_leading(chars@.skip(count as int), c) == without_leading(chars@, c),
        decreases chars@.len() - count,
    {
        proof {
            assert(chars@.skip(count as int).skip(1) =~= chars@.skip(count + 1));
        }
        count = count + 1;
    }
    count
}

/// The position behind the last `c` in `chars`: 0 if there is none.
pub fn after_last(chars: &Vec<char>, c: char) -> (start: usize)
    ensures
        start == last_position(chars@, c) + 1,
        start <= chars@.len(),
{
    let mut end: usize = chars.len();
    proof {
        assert(chars@.take(end as int) =~= chars@);
    }
    while end > 0
        invariant
            end <= chars@.len(),
            last_position(chars@, c) == last_position(chars@.take(end as int), c),
        decreases end,
    {
        if chars[end - 1] == c {
            return end;
        }
        proof {
            assert(chars@.take(end as int).drop_last() =~= chars@.take(end - 1));
        }
        end = end - 1;
    }
    0
}

/// Whether `chars` holds `c` twice in a row.
pub fn holds_double(chars: &Vec<char>, c: char) -> (found: bool)
    ensures
        found == has_double(chars@, c),
{
    if chars.len() < 2 {
        return false;
    }
    let last: usize = chars.len() - 1;
    let mut i: usize = 0;
    while i < last
        invariant
            i <= last,
            last == chars@.len() - 1,
            forall|j: int| 0 <= j < i ==> !(#[trigger] chars@[j] == c && chars@[j + 1] == c),
        decreases last - i,
    {
        if chars[i] == c && chars[i + 1] == c {
            return true;
        }
        i = i + 1;
    }
    false
}

} // verus!
