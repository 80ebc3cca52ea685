//! Names: from the snake case of a function's name to the Pascal case of a
//! type's name.

use vstd::prelude::*;
use vstd::string::StrSliceExecFns;

verus! {

/// The upper-case form of a character as Unicode defines it: one character
/// for most, two or three for a few.
pub uninterp spec fn upper_case(c: char) -> Seq<char>;

/// Whether `c` is one of the 128 characters of ASCII.
pub open spec fn is_ascii_char(c: char) -> bool {
    (c as u32) < 128
}

/// The upper-case form of a character of ASCII: the capital for a small
/// letter, the character itself for any other.
pub open spec fn ascii_upper(c: char) -> char {
    if 97 <= (c as u32) <= 122 {
        ((c as u32) - 32) as char
    } else {
        c
    }
}

/// `char::to_uppercase`: the characters of the upper-case form of `c`. They
/// depend on `c` alone, by tables too long to state, so they are only given
/// a name. For the characters of ASCII the tables hold what everyone knows:
/// the small letters have their capitals and no other character has an
/// upper-case form of its own.
#[verifier::external_body]
fn to_upper(c: char) -> (upper: Vec<char>)
    ensures
        upper@ == upper_case(c),
        is_ascii_char(c) ==> upper@ == seq![ascii_upper(c)],
{
    c.to_uppercase().collect()
}

/// `String::push`: `c` appended to `text`.
#[verifier::external_body]
fn push_char(text: &mut String, c: char)
    ensures
        final(text)@ == old(text)@.push(c),
{
    text.push(c)
}

/// The Pascal case of `text`, read from a place where a word begins
/// (`fresh`) or goes on: an underscore is left out and begins a word, the
/// first character of a word stands in upper case, and every other
/// character stands as it is.
pub open spec fn pascal_from(text: Seq<char>, fresh: bool) -> Seq<char>
    decreases text.len(),
{
    if text.len() == 0 {
        Seq::empty()
    } else if text.first() == '_' {
        pascal_from(text.drop_first(), true)
    } else if fresh {
        upper_case(text.first()) + pascal_from(text.drop_first(), false)
    } else {
        seq![text.first()] + pascal_from(text.drop_first(), false)
    }
}

/// The Pascal case of a name in snake case.
pub open spec fn pascal(text: Seq<char>) -> Seq<char> {
    pascal_from(text, true)
}

/// Whether `text` holds characters of ASCII only.
pub open spec fn is_ascii_text(text: Seq<char>) -> bool {
    forall|i: int| 0 <= i < text.len() ==> is_ascii_char(#[trigger] text[i])
}

/// The Pascal case of a text of ASCII, spelled out: as `pascal_from`, with
/// the capital of a small letter for its upper-case form.
pub open spec fn ascii_pascal_from(text: Seq<char>, fresh: bool) -> Seq<char>
    decreases text.len(),
{
    if text.len() == 0 {
        Seq::empty()
    } else if text.first() == '_' {
        ascii_pascal_from(text.drop_first(), true)
    } else if fresh {
        seq![ascii_upper(text.first())] + ascii_pascal_from(text.drop_first(), false)
    } else {
        seq![text.first()] + ascii_pascal_from(text.drop_first(), false)
    }
}

/// The Pascal case of a name of ASCII in snake case, spelled out.
pub open spec fn ascii_pascal(text: Seq<char>) -> Seq<char> {
    ascii_pascal_from(text, true)
}

/// Appends `chars` to `text`.
pub fn append_chars(text: &mut String, chars: &Vec<char>)
    ensures
        final(text)@ == old(text)@ + chars@,
{
    let mut i: usize = 0;
    while i < chars.len()
        invariant
            i <= chars@.len(),
            text@ == old(text)@ + chars@.take(i as int),
        decreases chars@.len() - i,
    {
        push_char(text, chars[i]);
        assert(chars@.take(i + 1) =~= chars@.take(i as int).push(chars@[i as int]));
        i = i + 1;
    }
    assert(chars@.take(i as int) =~= chars@);
}

/// The Pascal case of `input`: its words, which underscores part, each with
/// its first character in upper case, and no underscore between them. For a
/// name of ASCII that is the capital of each word's first letter.
pub fn snake_to_pascal(input: &str) -> (output: String)
    ensures
        output@ == pascal(input@),
        is_ascii_text(input@) ==> output@ == ascii_pascal(input@),
{
    let mut output = String::new();
    let mut fresh = true;
    let len = input.unicode_len();
    let mut i: usize = 0;
    assert(input@.skip(0) =~= input@);
    while i < len
        invariant
            i <= len,
            len == input@.len(),
            pascal(input@) == output@ + pascal_from(input@.skip(i as int), fresh),
            is_ascii_text(input@) ==> ascii_pascal(input@) == output@ + ascii_pascal_from(
                input@.skip(i as int),
                fresh,
            ),
        decreases len - i,
    {
        let c = input.get_char(i);
        assert(input@.skip(i as int).first() == c);
        assert(input@.skip(i as int).drop_first() =~= input@.skip(i + 1));
        assert(is_ascii_text(input@) ==> is_ascii_char(input@[i as int]));
        if c == '_' {
            fresh = true;
        } else if fresh {
            let upper = to_upper(c);
            append_chars(&mut output, &upper);
            fresh = false;
        } else {
            push_char(&mut output, c);
            fresh = false;
        }
        i = i + 1;
    }
    output
}

} // verus!
