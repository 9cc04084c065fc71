//! Text helpers shared by the recognition pipeline.

use vstd::prelude::*;
use vstd::string::{StringExecFns, StringSliceAdditionalSpecFns};
use vstd::utf8::{
    decode_utf8,
    encode_utf8,
    encode_utf8_decode_utf8,
    encode_utf8_valid_utf8,
    is_ascii_chars,
    is_ascii_chars_encode_utf8,
    valid_utf8,
};

verus! {

/// The characters of each string of a list.
pub open spec fn texts_view(texts: Seq<String>) -> Seq<Seq<char>> {
    texts.map_values(|t: String| t@)
}

/// An optional string taken as an optional sequence of characters.
pub open spec fn text_of(s: Option<String>) -> Option<Seq<char>> {
    match s {
        Some(t) => Some(t@),
        None => None,
    }
}

/// An optional string slice taken as an optional sequence of characters.
pub open spec fn str_of(s: Option<&str>) -> Option<Seq<char>> {
    match s {
        Some(t) => Some(t@),
        None => None,
    }
}

/// The lines strung together with a single newline between neighbours: no
/// newline before the first line and none after the last.
pub open spec fn joined_lines(lines: Seq<Seq<char>>) -> Seq<char>
    decreases lines.len(),
{
    if lines.len() == 0 {
        Seq::empty()
    } else if lines.len() == 1 {
        lines[0]
    } else {
        joined_lines(lines.drop_last()) + seq!['\n'] + lines.last()
    }
}

/// Two texts are joined by exactly one newline, with none before the first
/// and none after the second; a single text stays as it is.
pub proof fn lemma_joined_pair(first: Seq<char>, second: Seq<char>)
    ensures
        joined_lines(seq![first]) == first,
        joined_lines(seq![first, second]) == first + seq!['\n'] + second,
{
    let pair = seq![first, second];
    assert(joined_lines(pair.drop_last()) == first);
}

/// A further text goes behind the others, after one newline.
pub proof fn lemma_joined_push(lines: Seq<Seq<char>>, next: Seq<char>)
    requires
        lines.len() > 0,
    ensures
        joined_lines(lines.push(next)) == joined_lines(lines) + seq!['\n'] + next,
{
    assert(lines.push(next).drop_last() =~= lines);
}

/// The location of a file inside a directory.
pub open spec fn path_in(directory: Seq<char>, file_name: Seq<char>) -> Seq<char> {
    directory + seq!['/'] + file_name
}

/// The text that `String::from_utf8_lossy` makes of a run of bytes.
pub uninterp spec fn lossy_text(bytes: Seq<u8>) -> Seq<char>;

/// The text that a run of bytes stands for when it is read leniently: the
/// characters that the bytes encode, where they are well-formed UTF-8;
/// otherwise what `String::from_utf8_lossy` makes of them, with U+FFFD in
/// place of each ill-formed stretch.
pub open spec fn lenient_text(bytes: Seq<u8>) -> Seq<char> {
    if valid_utf8(bytes) {
        decode_utf8(bytes)
    } else {
        lossy_text(bytes)
    }
}

/// Text that was written as UTF-8 is read back as it was.
pub proof fn lemma_lenient_text_of_utf8(text: Seq<char>)
    ensures
        lenient_text(encode_utf8(text)) == text,
{
    encode_utf8_valid_utf8(text);
    encode_utf8_decode_utf8(text);
}

/// Bytes below 128 stand for themselves: each is read as the ASCII character
/// of its number.
pub proof fn lemma_lenient_text_of_ascii(bytes: Seq<u8>)
    requires
        forall|i: int| 0 <= i < bytes.len() ==> bytes[i] < 128,
    ensures
        lenient_text(bytes) == Seq::new(bytes.len(), |i: int| bytes[i] as char),
{
    let text = Seq::new(bytes.len(), |i: int| bytes[i] as char);
    assert(is_ascii_chars(text));
    is_ascii_chars_encode_utf8(text);
    assert(encode_utf8(text) =~= bytes);
    lemma_lenient_text_of_utf8(text);
}

/// `String::from_utf8_lossy`, with the result taken as an owned string.
/// Bytes that are well-formed UTF-8 give exactly the characters they encode;
/// of other bytes the contract says only that the same bytes give the same
/// text.
#[verifier::external_body]
pub(crate) fn decode_lossy(bytes: &[u8]) -> (text: String)
    ensures
        valid_utf8(bytes@) ==> text@ == decode_utf8(bytes@),
        !valid_utf8(bytes@) ==> text@ == lossy_text(bytes@),
{
    String::from_utf8_lossy(bytes).into_owned()
}

/// Whether two strings hold the same characters.
pub fn same_text(a: &str, b: &str) -> (same: bool)
    ensures
        same == (a@ == b@),
{
    let x = a.as_bytes();
    let y = b.as_bytes();
    proof {
        // The characters are recovered from the bytes, so equal bytes mean
        // equal characters.
        encode_utf8_decode_utf8(a@);
        encode_utf8_decode_utf8(b@);
    }
    if x.len() != y.len() {
        return false;
    }
    let mut i: usize = 0;
    while i < x.len()
        invariant
            x@.len() == y@.len(),
            i <= x@.len(),
            forall|j: int| 0 <= j < i ==> x@[j] == y@[j],
            a@ == b@ ==> x@ == y@,
        decreases x@.len() - i,
    {
        if x[i] != y[i] {
            return false;
        }
        i += 1;
    }
    proof {
        assert(x@ =~= y@);
    }
    true
}

/// Whether a string holds a NUL character, which no string handed to the
/// engine may.
pub fn has_nul(s: &str) -> (found: bool)
    ensures
        found == s@.contains('\0'),
{
    let mut found = false;
    for c in it: s.chars()
        invariant
            it.seq() == s@,
            found <==> exists|j: int| 0 <= j < it.index() && s@[j] == '\0',
    {
        if c == '\0' {
            found = true;
        }
    }
    found
}

/// Strings the lines together with a single newline between neighbours.
pub fn join_lines(lines: &Vec<String>) -> (text: String)
    ensures
        text@ == joined_lines(texts_view(lines@)),
{
    let mut text = String::new();
    let mut i: usize = 0;
    while i < lines.len()
        invariant
            i <= lines@.len(),
            text@ == joined_lines(texts_view(lines@).take(i as int)),
        decreases lines@.len() - i,
    {
        proof {
            reveal_strlit("\n");
            let all = texts_view(lines@);
            assert(all.take(i + 1).drop_last() =~= all.take(i as int));
        }
        if i > 0 {
            text.append("\n");
        }
        text.append(lines[i].as_str());
        i += 1;
    }
    proof {
        assert(texts_view(lines@).take(lines@.len() as int) =~= texts_view(lines@));
    }
    text
}

/// Builds the location of a file inside a directory.
pub fn join_path(directory: &str, file_name: &str) -> (path: String)
    ensures
        path@ == path_in(directory@, file_name@),
{
    proof {
        reveal_strlit("/");
    }
    let mut path = String::from_str(directory);
    path.append("/");
    path.append(file_name);
    path
}

} // verus!
