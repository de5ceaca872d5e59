use vstd::prelude::*;

verus! {

/// A character of the anti-forgery token alphabet: the ASCII uppercase
/// letters, lowercase letters and digits.
pub open spec fn is_token_char(c: char) -> bool {
    ||| 65 <= (c as int) && (c as int) <= 90
    ||| 97 <= (c as int) && (c as int) <= 122
    ||| 48 <= (c as int) && (c as int) <= 57
}

/// Relies on rand::Rng::gen_range on the range 0..bound: the sample is
/// uniform over the range, so in particular it is below the bound.
#[verifier::external_body]
fn random_below(bound: usize) -> (r: usize)
    requires
        bound > 0,
    ensures
        r < bound,
{
    rand::Rng::gen_range(&mut rand::thread_rng(), 0..bound)
}

/// Relies on String::push: it appends exactly the given character.
#[verifier::external_body]
fn push_char(s: &mut String, c: char)
    ensures
        final(s)@ == old(s)@.push(c),
{
    s.push(c)
}

/// The character of the 62-letter token alphabet at a given position:
/// uppercase letters first, then lowercase, then digits.
fn token_char(idx: usize) -> (c: char)
    requires
        idx < 62,
    ensures
        is_token_char(c),
{
    let b: u8 = if idx < 26 {
        65 + (idx as u8)
    } else if idx < 52 {
        97 + (idx as u8 - 26)
    } else {
        48 + (idx as u8 - 52)
    };
    b as char
}

/// Draws a fresh anti-forgery token: `length` characters, each chosen
/// from the alphanumeric alphabet.
pub fn generate_random_string(length: usize) -> (s: String)
    ensures
        s@.len() == length,
        forall|i: int| 0 <= i < length ==> is_token_char(#[trigger] s@[i]),
{
    let mut s = String::new();
    let mut i: usize = 0;
    while i < length
        invariant
            i <= length,
            s@.len() == i,
            forall|j: int| 0 <= j < i ==> is_token_char(#[trigger] s@[j]),
        decreases length - i,
    {
        let idx = random_below(62);
        let c = token_char(idx);
        push_char(&mut s, c);
        i += 1;
    }
    s
}

} // verus!
