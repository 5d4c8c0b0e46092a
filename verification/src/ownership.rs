//! Texts handed over, lent and given back.

use vstd::prelude::*;
use vstd::string::StringExecFns;
use vstd::string::StringSliceAdditionalSpecFns;
use vstd::utf8::encode_utf8;

verus! {

/// The number of bytes that a text takes.
pub open spec fn byte_len(text: Seq<char>) -> nat {
    encode_utf8(text).len()
}

/// How two texts are put together: the first, a space, the second, and an
/// exclamation mark.
pub open spec fn joined(first: Seq<char>, second: Seq<char>) -> Seq<char> {
    first + " "@ + second + "!"@
}

/// Takes a text over and gives it back together with its length in bytes.
pub fn strange_calculate_length(s: String) -> (pair: (String, usize))
    ensures
        pair.0@ == s@,
        pair.1 == byte_len(s@) as usize,
{
    let len: usize = s.as_str().len();
    (s, len)
}

/// The length in bytes of a text that is only lent.
pub fn normal_calculate_length(s: &String) -> (len: usize)
    ensures
        len == byte_len(s@) as usize,
{
    s.as_str().len()
}

/// Puts two texts together into a new one and leaves both as they are.
pub fn sum_strings(s1: &String, s2: &String) -> (s: String)
    ensures
        s@ == joined(s1@, s2@),
{
    let mut s: String = String::from_str("");
    proof {
        reveal_strlit("");
        assert(""@ =~= Seq::<char>::empty());
    }
    s.append(s1.as_str());
    s.append(" ");
    s.append(s2.as_str());
    s.append("!");
    assert(s@ =~= joined(s1@, s2@));
    s
}

/// A text made here and handed to the caller.
pub fn correct_return_ref() -> (s: String)
    ensures
        s@ == "hello"@,
{
    let s: String = String::from_str("hello");
    s
}

/// A text made here and handed to the caller.
pub fn give_ownership() -> (some_string: String)
    ensures
        some_string@ == "hello"@,
{
    let some_string: String = String::from_str("hello");
    some_string
}

/// Takes a text over and hands the same text back.
pub fn takes_and_gives_back(a_string: String) -> (same: String)
    ensures
        same == a_string,
{
    a_string
}

} // verus!
