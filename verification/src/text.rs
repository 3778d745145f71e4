//! What the locker asks of strings.
use vstd::prelude::*;
use zeroize::Zeroize;

verus! {

/// `String::push` appends one character.
pub assume_specification[ String::push ](s: &mut String, ch: char)
    ensures
        final(s)@ == old(s)@.push(ch),
;

/// `String::pop` removes the last character and returns it, or returns `None`
/// and leaves an empty string as it is.
pub assume_specification[ String::pop ](s: &mut String) -> (res: Option<char>)
    ensures
        old(s)@.len() == 0 ==> res is None && final(s)@ == old(s)@,
        old(s)@.len() > 0 ==> res == Some(old(s)@.last()) && final(s)@ == old(s)@.drop_last(),
;

/// `String::clear` removes all characters.
pub assume_specification[ String::clear ](s: &mut String)
    ensures
        final(s)@ == Seq::<char>::empty(),
;

/// Whether `char::from_u32` accepts a number: it is a Unicode scalar value.
pub open spec fn is_scalar_value(i: u32) -> bool {
    i < 0xd800 || 0xdfff < i <= 0x10ffff
}

/// `char::from_u32` converts a Unicode scalar value to the character with that
/// number, and refuses every other number.
pub assume_specification[ char::from_u32 ](i: u32) -> (res: Option<char>)
    ensures
        is_scalar_value(i) ==> res == Some(i as char),
        !is_scalar_value(i) ==> res is None,
;

/// Whether a character has the Unicode property White_Space.
pub open spec fn white_space(c: char) -> bool {
    ||| 0x09 <= c as u32 <= 0x0d
    ||| c as u32 == 0x20
    ||| c as u32 == 0x85
    ||| c as u32 == 0xa0
    ||| c as u32 == 0x1680
    ||| 0x2000 <= c as u32 <= 0x200a
    ||| 0x2028 <= c as u32 <= 0x2029
    ||| c as u32 == 0x202f
    ||| c as u32 == 0x205f
    ||| c as u32 == 0x3000
}

/// `char::is_whitespace` tells whether a character has the Unicode property
/// White_Space, which the characters listed at `white_space` have and no others.
pub assume_specification[ char::is_whitespace ](c: char) -> (res: bool)
    ensures
        res == white_space(c),
;

/// `Utf8Error`, the reason why bytes are not UTF-8.
#[verifier::external_type_specification]
#[verifier::external_body]
pub struct ExUtf8Error(core::str::Utf8Error);

/// `str::from_utf8` takes valid UTF-8 as a string with the same bytes, and
/// refuses everything else.
pub assume_specification<'a>[ core::str::from_utf8 ](v: &'a [u8]) -> (res: Result<&'a str, core::str::Utf8Error>)
    ensures
        res is Ok <==> vstd::utf8::valid_utf8(v@),
        res matches Ok(s) ==> vstd::utf8::encode_utf8(s@) == v@,
;

/// Empties a string through `zeroize`, for secrets.
///
/// `Zeroize::zeroize` on a `String` overwrites the whole allocation with zeros
/// and leaves the string empty. That it is empty is what the contract claims;
/// what the freed bytes hold is not a property of the value.
#[verifier::external_body]
pub(crate) fn wipe(s: &mut String)
    ensures
        final(s)@ == Seq::<char>::empty(),
{
    s.zeroize();
}

/// Whether a text holds nothing but white space.
pub open spec fn blank(s: Seq<char>) -> bool {
    forall|i: int| 0 <= i < s.len() ==> white_space(#[trigger] s[i])
}

/// Checks if a text holds nothing but white space.
pub fn is_blank(s: &str) -> (res: bool)
    ensures
        res == blank(s@),
{
    for c in iter: s.chars()
        invariant
            iter.seq() == s@,
            forall|i: int| 0 <= i < iter.index() ==> white_space(#[trigger] s@[i]),
    {
        if !c.is_whitespace() {
            assert(c == s@[iter.index() as int]);
            return false;
        }
    }
    true
}

/// The characters of each text of a list.
pub open spec fn texts(parts: Seq<String>) -> Seq<Seq<char>> {
    parts.map_values(|s: String| s@)
}

/// The texts of a list with `sep` between each two of them.
pub open spec fn joined(parts: Seq<Seq<char>>, sep: Seq<char>) -> Seq<char>
    decreases parts.len(),
{
    if parts.len() == 0 {
        Seq::empty()
    } else if parts.len() == 1 {
        parts[0]
    } else {
        joined(parts.drop_last(), sep) + sep + parts.last()
    }
}

/// Joins the texts of a list, with `sep` between each two of them.
pub fn join(parts: &Vec<String>, sep: &str) -> (res: String)
    ensures
        res@ == joined(texts(parts@), sep@),
{
    let mut res = String::new();
    let mut i: usize = 0;
    assert(texts(parts@).take(0) =~= Seq::<Seq<char>>::empty());
    while i < parts.len()
        invariant
            i <= parts.len(),
            res@ == joined(texts(parts@).take(i as int), sep@),
        decreases parts.len() - i,
    {
        let ghost next = texts(parts@).take(i + 1);
        assert(next.drop_last() =~= texts(parts@).take(i as int));
        if i > 0 {
            res.append(sep);
        }
        res.append(parts[i].as_str());
        i = i + 1;
    }
    assert(texts(parts@).take(parts@.len() as int) =~= texts(parts@));
    res
}

/// Checks if a text holds the character NUL, which ends a C string.
pub fn contains_nul(s: &str) -> (res: bool)
    ensures
        res == s@.contains('\0'),
{
    for c in iter: s.chars()
        invariant
            iter.seq() == s@,
            forall|i: int| 0 <= i < iter.index() ==> #[trigger] s@[i] != '\0',
    {
        if c == '\0' {
            assert(s@[iter.index() as int] == '\0');
            return true;
        }
    }
    false
}

} // verus!
