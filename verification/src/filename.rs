//! The name under which the finished file is stored.

use crate::metadata::{artist_line, stringify_artists};
use vstd::prelude::*;
use vstd::string::StringExecFns;
use vstd::utf8::{encode_utf8, is_ascii_chars, is_ascii_chars_encode_utf8};

verus! {

/// Most bytes that a file name may have.
pub const NAME_LIMIT: usize = 255;

/// The text in which each occurrence of `from` has given way to `to`.
pub open spec fn substituted(text: Seq<char>, from: char, to: Seq<char>) -> Seq<char>
    decreases text.len(),
{
    if text.len() == 0 {
        Seq::empty()
    } else {
        substituted(text.drop_last(), from, to) + if text.last() == from {
            to
        } else {
            seq![text.last()]
        }
    }
}

/// `str::replace` with a pattern of a single character: every occurrence of
/// that character is replaced by `to`.
#[verifier::external_body]
fn replace(text: &str, from: &str, to: &str) -> (replaced: String)
    requires
        from@.len() == 1,
    ensures
        replaced@ == substituted(text@, from@[0], to@),
{
    text.replace(from, to)
}

/// `String::pop`: takes the last character off the string, if it has one.
#[verifier::external_body]
fn pop(text: &mut String) -> (last: Option<char>)
    ensures
        old(text)@.len() == 0 ==> last is None && final(text)@ == old(text)@,
        old(text)@.len() > 0 ==> last == Some(old(text)@.last()) && final(text)@ == old(
            text,
        )@.drop_last(),
{
    text.pop()
}

/// A text without its slashes.
pub open spec fn without_slashes(text: Seq<char>) -> Seq<char> {
    substituted(text, '/', Seq::empty())
}

/// The name before it is cut and given its extension: title and artists,
/// each without slashes, with a dash between them.
pub open spec fn stem(title: Seq<char>, artists: Seq<String>) -> Seq<char> {
    without_slashes(title) + " - "@ + without_slashes(artist_line(artists))
}

/// Whether `kept` is the number of characters that remain of `text` when
/// characters are taken off its end for as long as it has more than `limit`
/// bytes.
pub open spec fn is_cut(text: Seq<char>, limit: int, kept: int) -> bool {
    &&& 0 <= kept <= text.len()
    &&& encode_utf8(text.take(kept)).len() <= limit
    &&& forall|longer: int|
        kept < longer <= text.len() ==> encode_utf8(#[trigger] text.take(longer)).len() > limit
}

/// What remains of `text` when it is cut to `limit` bytes.
pub open spec fn cut(text: Seq<char>, limit: int) -> Seq<char> {
    text.take(choose|kept: int| is_cut(text, limit, kept))
}

/// A text is cut in one way only.
proof fn cut_is_unique(text: Seq<char>, limit: int, a: int, b: int)
    requires
        is_cut(text, limit, a),
        is_cut(text, limit, b),
    ensures
        a == b,
{
    if a < b {
        assert(encode_utf8(text.take(b)).len() > limit);
    } else if b < a {
        assert(encode_utf8(text.take(a)).len() > limit);
    }
}

/// The bytes of two texts in a row are the bytes of the one followed by the
/// bytes of the other.
proof fn bytes_of_concat(a: Seq<char>, b: Seq<char>)
    ensures
        encode_utf8(a + b) == encode_utf8(a) + encode_utf8(b),
    decreases a.len(),
{
    if a.len() == 0 {
        assert(a + b =~= b);
        assert(encode_utf8(a) + encode_utf8(b) =~= encode_utf8(b));
    } else {
        assert((a + b).drop_first() =~= a.drop_first() + b);
        bytes_of_concat(a.drop_first(), b);
        assert(encode_utf8(a + b) =~= encode_utf8(a) + encode_utf8(b));
    }
}

/// The extension has four bytes.
proof fn extension_len()
    ensures
        encode_utf8(".mp3"@).len() == 4,
{
    reveal_strlit(".mp3");
    let text = ".mp3"@;
    assert(text[0] == '.' && text[1] == 'm' && text[2] == 'p' && text[3] == '3');
    assert(is_ascii_chars(text));
    is_ascii_chars_encode_utf8(text);
}

/// Names the file of a track: `<title> - <artists>.mp3`, without any slash,
/// the part before the extension cut at the end so that the whole has at
/// most 255 bytes.
pub fn get_mp3_filename(title: &str, artists: &Vec<String>) -> (name: String)
    ensures
        name@ == cut(stem(title@, artists@), NAME_LIMIT - 4) + ".mp3"@,
        encode_utf8(name@).len() <= NAME_LIMIT,
{
    proof {
        extension_len();
        reveal_strlit("/");
        reveal_strlit("");
        assert(""@ =~= Seq::<char>::empty());
        assert("/"@[0] == '/');
    }
    let extension = ".mp3";
    let room = NAME_LIMIT - extension.as_bytes().len();
    let bare_title = replace(title, "/", "");
    let bare_artists = replace(stringify_artists(artists).as_str(), "/", "");
    let mut name = bare_title.concat(" - ").concat(bare_artists.as_str());
    let ghost whole = name@;
    assert(whole == stem(title@, artists@));
    assert(whole.take(whole.len() as int) =~= whole);
    while name.as_str().as_bytes().len() > room
        invariant
            room == NAME_LIMIT - 4,
            name@.len() <= whole.len(),
            name@ == whole.take(name@.len() as int),
            forall|longer: int|
                name@.len() < longer <= whole.len() ==> encode_utf8(
                    #[trigger] whole.take(longer),
                ).len() > room,
        decreases name@.len(),
    {
        let ghost before = name@;
        assert(before.len() > 0) by {
            if before.len() == 0 {
                assert(encode_utf8(before).len() == 0);
            }
        }
        pop(&mut name);
        assert(name@ =~= whole.take(name@.len() as int));
    }
    proof {
        assert(is_cut(whole, room as int, name@.len() as int));
        let kept = choose|kept: int| is_cut(whole, room as int, kept);
        cut_is_unique(whole, room as int, kept, name@.len() as int);
        bytes_of_concat(name@, ".mp3"@);
    }
    name.concat(extension)
}

} // verus!
