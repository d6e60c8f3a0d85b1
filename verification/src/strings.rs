use vstd::prelude::*;
use vstd::string::StringExecFns;
use vstd::utf8::encode_utf8;

verus! {

/// The greeting line for a name: the name behind a fixed salutation.
pub fn greet(name: String) -> (r: String)
    ensures
        r@ == "hello "@ + name@,
{
    let mut r = "hello ".to_owned();
    r.append(name.as_str());
    r
}

/// Hands a string back together with its length in bytes, so that one call
/// yields both values.
pub fn return_multiple_value(s: String) -> (r: (String, usize))
    requires
        encode_utf8(s@).len() <= usize::MAX,
    ensures
        r.0 == s,
        r.1 == encode_utf8(s@).len(),
{
    let len = s.as_str().len();
    (s, len)
}

/// The length of a borrowed string, in bytes of its encoding; the string
/// itself is only read, never taken.
pub fn calculate_length(s: &String) -> (r: usize)
    requires
        encode_utf8(s@).len() <= usize::MAX,
    ensures
        r == encode_utf8(s@).len(),
{
    s.as_str().len()
}

/// Extends a borrowed string in place by a fixed suffix.
pub fn change(some_string: &mut String)
    ensures
        final(some_string)@ == old(some_string)@ + ", world"@,
{
    some_string.append(", world");
}

/// Builds a fresh string and moves it out to the caller.
pub fn gives_ownership() -> (r: String)
    ensures
        r@ == "hello"@,
{
    let some_string = "hello".to_owned();
    some_string
}

/// Takes a string by value and hands the very same string back.
pub fn takes_and_gives_back(a_string: String) -> (r: String)
    ensures
        r == a_string,
{
    a_string
}

} // verus!
