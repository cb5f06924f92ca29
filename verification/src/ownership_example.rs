use vstd::prelude::*;
use vstd::string::*;
use vstd::utf8::*;

verus! {

/// A new text, `hello`, handed to the caller.
pub fn gives_ownership() -> (text: String)
    ensures
        text@ == "hello"@,
{
    String::from_str("hello")
}

/// The text that came in, handed back.
pub fn takes_and_gives_back(a_string: String) -> (text: String)
    ensures
        text == a_string,
{
    a_string
}

/// The text that came in, with its length in bytes.
pub fn calculate_length(s: String) -> (r: (String, usize))
    ensures
        r.0 == s,
        r.1 == encode_utf8(s@).len(),
{
    let length = s.as_str().as_bytes().len();
    (s, length)
}

/// The length of a text, in bytes.
pub fn calculate_length_new(str: &String) -> (length: usize)
    ensures
        length == encode_utf8(str@).len(),
{
    str.as_str().as_bytes().len()
}

/// Appends a comma, a space and `world`.
pub fn change(some_string: &mut String)
    ensures
        final(some_string)@ == old(some_string)@ + ", world"@,
{
    some_string.append(", world");
}

/// A new text, `hello`, handed to the caller whole.
pub fn dangle() -> (text: String)
    ensures
        text@ == "hello"@,
{
    String::from_str("hello")
}

/// Where the first word of a text ends: the index of its first space, or
/// its length where it has none.
pub open spec fn first_word_end(bytes: Seq<u8>) -> int
    decreases bytes.len(),
{
    if bytes.len() == 0 || bytes[0] == 32 {
        0
    } else {
        1 + first_word_end(bytes.drop_first())
    }
}

/// The first word ends within the text, at a space or at the end, and no
/// space comes before.
pub proof fn lemma_first_word_end(bytes: Seq<u8>)
    ensures
        0 <= first_word_end(bytes) <= bytes.len(),
        first_word_end(bytes) < bytes.len() ==> bytes[first_word_end(bytes)] == 32,
        forall|k: int| 0 <= k < first_word_end(bytes) ==> bytes[k] != 32,
    decreases bytes.len(),
{
    if !(bytes.len() == 0 || bytes[0] == 32) {
        let rest = bytes.drop_first();
        lemma_first_word_end(rest);
        assert forall|k: int| 0 <= k < first_word_end(bytes) implies bytes[k] != 32 by {
            if k > 0 {
                assert(rest[k - 1] == bytes[k]);
            }
        }
    }
}

/// The first index that holds a space, or the length, is where the first
/// word ends.
proof fn lemma_first_word_end_is(bytes: Seq<u8>, end: int)
    requires
        0 <= end <= bytes.len(),
        end < bytes.len() ==> bytes[end] == 32,
        forall|k: int| 0 <= k < end ==> bytes[k] != 32,
    ensures
        first_word_end(bytes) == end,
    decreases bytes.len(),
{
    if end > 0 {
        let rest = bytes.drop_first();
        assert forall|k: int| 0 <= k < end - 1 implies rest[k] != 32 by {
            assert(rest[k] == bytes[k + 1]);
        }
        assert(bytes[0] != 32);
        lemma_first_word_end_is(rest, end - 1);
    }
}

/// The first word of a text: what stands before its first space, or all of
/// it where it has no space.
pub fn first_word(s: &str) -> (word: &str)
    ensures
        word.spec_bytes() == s.spec_bytes().subrange(0, first_word_end(s.spec_bytes())),
{
    let bytes = s.as_bytes();
    let mut i: usize = 0;
    while i < bytes.len()
        invariant
            i <= bytes@.len(),
            bytes@ == s.spec_bytes(),
            forall|k: int| 0 <= k < i ==> bytes@[k] != 32,
        decreases bytes@.len() - i,
    {
        if bytes[i] == 32u8 {
            proof {
                lemma_first_word_end_is(bytes@, i as int);
                encode_utf8_valid_utf8(s@);
                assert(!is_continuation_byte(32u8)) by (bit_vector);
                is_char_boundary_iff_not_is_continuation_byte(bytes@, i as int);
            }
            let (word, _) = s.split_at(i);
            return word;
        }
        i = i + 1;
    }
    proof {
        lemma_first_word_end_is(bytes@, i as int);
        assert(s.spec_bytes().subrange(0, i as int) =~= s.spec_bytes());
    }
    s
}

} // verus!
