use crate::errors::TextError;
use rand::seq::IndexedRandom;
use rand::seq::SliceRandom;
use vstd::prelude::*;

verus! {

broadcast use {
    vstd::seq_lib::group_to_multiset_ensures,
    vstd::multiset::group_multiset_axioms,
    vstd::multiset::group_multiset_properties,
};

/// Whether a byte is an ASCII uppercase letter.
pub open spec fn is_upper_byte(b: u8) -> bool {
    65 <= b <= 90
}

/// Whether a byte is an ASCII lowercase letter.
pub open spec fn is_lower_byte(b: u8) -> bool {
    97 <= b <= 122
}

/// Whether a byte is an ASCII digit.
pub open spec fn is_number_byte(b: u8) -> bool {
    48 <= b <= 57
}

/// Whether a byte is one of the password symbols `!@#$%^&*_`
/// (ASCII 33, 64, 35, 36, 37, 94, 38, 42, 95).
pub open spec fn is_symbol_byte(b: u8) -> bool {
    ||| b == 33
    ||| b == 64
    ||| b == 35
    ||| b == 36
    ||| b == 37
    ||| b == 94
    ||| b == 38
    ||| b == 42
    ||| b == 95
}

/// Whether a byte belongs to one of the character classes that are not
/// switched off.
pub open spec fn in_enabled_classes(
    b: u8,
    no_uppercase: bool,
    no_lowercase: bool,
    no_numbers: bool,
    no_symbols: bool,
) -> bool {
    ||| (!no_uppercase && is_upper_byte(b))
    ||| (!no_lowercase && is_lower_byte(b))
    ||| (!no_numbers && is_number_byte(b))
    ||| (!no_symbols && is_symbol_byte(b))
}

/// Whether every byte of `s` belongs to an enabled character class.
pub open spec fn all_bytes_enabled(
    s: Seq<u8>,
    no_uppercase: bool,
    no_lowercase: bool,
    no_numbers: bool,
    no_symbols: bool,
) -> bool {
    forall|i: int|
        0 <= i < s.len() ==> in_enabled_classes(
            #[trigger] s[i],
            no_uppercase,
            no_lowercase,
            no_numbers,
            no_symbols,
        )
}

/// Whether `s` holds at least one ASCII uppercase letter.
pub open spec fn has_upper_byte(s: Seq<u8>) -> bool {
    exists|i: int| 0 <= i < s.len() && is_upper_byte(#[trigger] s[i])
}

/// Whether `s` holds at least one ASCII lowercase letter.
pub open spec fn has_lower_byte(s: Seq<u8>) -> bool {
    exists|i: int| 0 <= i < s.len() && is_lower_byte(#[trigger] s[i])
}

/// Whether `s` holds at least one ASCII digit.
pub open spec fn has_number_byte(s: Seq<u8>) -> bool {
    exists|i: int| 0 <= i < s.len() && is_number_byte(#[trigger] s[i])
}

/// Whether `s` holds at least one password symbol.
pub open spec fn has_symbol_byte(s: Seq<u8>) -> bool {
    exists|i: int| 0 <= i < s.len() && is_symbol_byte(#[trigger] s[i])
}

/// Whether a character is an ASCII uppercase letter.
pub open spec fn is_upper_char(c: char) -> bool {
    65 <= c as u32 <= 90
}

/// Whether a character is an ASCII lowercase letter.
pub open spec fn is_lower_char(c: char) -> bool {
    97 <= c as u32 <= 122
}

/// Whether a character is an ASCII digit.
pub open spec fn is_number_char(c: char) -> bool {
    48 <= c as u32 <= 57
}

/// Whether a character is one of the password symbols `!@#$%^&*_`.
pub open spec fn is_symbol_char(c: char) -> bool {
    ||| c as u32 == 33
    ||| c as u32 == 64
    ||| c as u32 == 35
    ||| c as u32 == 36
    ||| c as u32 == 37
    ||| c as u32 == 94
    ||| c as u32 == 38
    ||| c as u32 == 42
    ||| c as u32 == 95
}

/// Whether a character belongs to one of the character classes that are
/// not switched off.
pub open spec fn char_in_enabled_classes(
    c: char,
    no_uppercase: bool,
    no_lowercase: bool,
    no_numbers: bool,
    no_symbols: bool,
) -> bool {
    ||| (!no_uppercase && is_upper_char(c))
    ||| (!no_lowercase && is_lower_char(c))
    ||| (!no_numbers && is_number_char(c))
    ||| (!no_symbols && is_symbol_char(c))
}

/// Whether every character of `s` belongs to an enabled character class.
pub open spec fn all_chars_enabled(
    s: Seq<char>,
    no_uppercase: bool,
    no_lowercase: bool,
    no_numbers: bool,
    no_symbols: bool,
) -> bool {
    forall|i: int|
        0 <= i < s.len() ==> char_in_enabled_classes(
            #[trigger] s[i],
            no_uppercase,
            no_lowercase,
            no_numbers,
            no_symbols,
        )
}

/// Whether `s` holds at least one ASCII uppercase letter.
pub open spec fn has_upper_char(s: Seq<char>) -> bool {
    exists|i: int| 0 <= i < s.len() && is_upper_char(#[trigger] s[i])
}

/// Whether `s` holds at least one ASCII lowercase letter.
pub open spec fn has_lower_char(s: Seq<char>) -> bool {
    exists|i: int| 0 <= i < s.len() && is_lower_char(#[trigger] s[i])
}

/// Whether `s` holds at least one ASCII digit.
pub open spec fn has_number_char(s: Seq<char>) -> bool {
    exists|i: int| 0 <= i < s.len() && is_number_char(#[trigger] s[i])
}

/// Whether `s` holds at least one password symbol.
pub open spec fn has_symbol_char(s: Seq<char>) -> bool {
    exists|i: int| 0 <= i < s.len() && is_symbol_char(#[trigger] s[i])
}

/// How many character classes are enabled.
pub open spec fn enabled_count(
    no_uppercase: bool,
    no_lowercase: bool,
    no_numbers: bool,
    no_symbols: bool,
) -> int {
    (if !no_uppercase { 1int } else { 0int })
    + (if !no_lowercase { 1int } else { 0int })
    + (if !no_numbers { 1int } else { 0int })
    + (if !no_symbols { 1int } else { 0int })
}

/// Relies on `String::from_utf8`: ASCII bytes decode to the string of
/// exactly those characters.
#[verifier::external_body]
fn ascii_string(bytes: Vec<u8>) -> (r: String)
    requires
        forall|i: int| 0 <= i < bytes@.len() ==> bytes@[i] < 128,
    ensures
        r@.len() == bytes@.len(),
        forall|i: int| 0 <= i < r@.len() ==> #[trigger] r@[i] as u32 == bytes@[i] as u32,
{
    String::from_utf8(bytes).unwrap()
}

/// Relies on rand's `IndexedRandom::choose` with `ThreadRng` (a
/// cryptographically secure generator): some element of the non-empty slice.
/// Which element comes back is random, so nothing more is promised.
#[verifier::external_body]
fn choose_byte(s: &[u8]) -> (r: u8)
    requires
        s@.len() > 0,
    ensures
        s@.contains(r),
{
    *s.choose(&mut rand::rng()).unwrap()
}

/// Relies on rand's `SliceRandom::shuffle` with `ThreadRng`: a random
/// in-place permutation, so the multiset of bytes is unchanged.
#[verifier::external_body]
fn shuffle_bytes(v: &mut Vec<u8>)
    ensures
        final(v)@.to_multiset() == old(v)@.to_multiset(),
{
    v.shuffle(&mut rand::rng());
}

/// Appends the bytes `lo..=hi` to `v`.
fn push_byte_range(v: &mut Vec<u8>, lo: u8, hi: u8)
    requires
        lo <= hi < 255,
        old(v)@.len() + (hi - lo) + 1 <= usize::MAX,
    ensures
        final(v)@.len() == old(v)@.len() + (hi - lo) + 1,
        forall|i: int| 0 <= i < old(v)@.len() ==> final(v)@[i] == old(v)@[i],
        forall|i: int|
            old(v)@.len() <= i < final(v)@.len() ==> lo <= #[trigger] final(v)@[i] <= hi,
{
    let ghost orig = v@;
    let mut b: u8 = lo;
    while b <= hi
        invariant
            lo <= b <= hi + 1,
            hi < 255,
            orig.len() + (hi - lo) + 1 <= usize::MAX,
            v@.len() == orig.len() + (b - lo),
            forall|i: int| 0 <= i < orig.len() ==> v@[i] == orig[i],
            forall|i: int| orig.len() <= i < v@.len() ==> lo <= #[trigger] v@[i] <= hi,
        decreases hi + 1 - b,
    {
        v.push(b);
        b = b + 1;
    }
}

/// Appends the nine password symbols to `v`.
fn push_symbol_bytes(v: &mut Vec<u8>)
    requires
        old(v)@.len() + 9 <= usize::MAX,
    ensures
        final(v)@.len() == old(v)@.len() + 9,
        forall|i: int| 0 <= i < old(v)@.len() ==> final(v)@[i] == old(v)@[i],
        forall|i: int|
            old(v)@.len() <= i < final(v)@.len() ==> is_symbol_byte(#[trigger] final(v)@[i]),
{
    v.push(33);
    v.push(64);
    v.push(35);
    v.push(36);
    v.push(37);
    v.push(94);
    v.push(38);
    v.push(42);
    v.push(95);
}

/// Draws `length` random bytes over the enabled character classes, with at
/// least one byte from every enabled class, in random order.
pub(crate) fn genpass_bytes(
    length: u8,
    no_uppercase: bool,
    no_lowercase: bool,
    no_numbers: bool,
    no_symbols: bool,
) -> (r: Vec<u8>)
    requires
        !(no_uppercase && no_lowercase && no_numbers && no_symbols),
        enabled_count(no_uppercase, no_lowercase, no_numbers, no_symbols) <= length as int,
    ensures
        r@.len() == length as int,
        all_bytes_enabled(r@, no_uppercase, no_lowercase, no_numbers, no_symbols),
        !no_uppercase ==> has_upper_byte(r@),
        !no_lowercase ==> has_lower_byte(r@),
        !no_numbers ==> has_number_byte(r@),
        !no_symbols ==> has_symbol_byte(r@),
{
    let mut chars: Vec<u8> = Vec::new();
    let mut password: Vec<u8> = Vec::new();
    let ghost mut wit_upper: u8 = 0;
    let ghost mut wit_lower: u8 = 0;
    let ghost mut wit_number: u8 = 0;
    let ghost mut wit_symbol: u8 = 0;

    if !no_uppercase {
        let mut class: Vec<u8> = Vec::new();
        push_byte_range(&mut class, 65, 90);
        let c = choose_byte(class.as_slice());
        password.push(c);
        proof {
            wit_upper = c;
            assert(is_upper_byte(c));
            assert(password@.to_multiset().count(c) > 0);
        }
        chars.append(&mut class);
    }
    if !no_lowercase {
        let mut class: Vec<u8> = Vec::new();
        push_byte_range(&mut class, 97, 122);
        let c = choose_byte(class.as_slice());
        password.push(c);
        proof {
            wit_lower = c;
            assert(is_lower_byte(c));
            assert(password@.to_multiset().count(c) > 0);
        }
        chars.append(&mut class);
    }
    if !no_numbers {
        let mut class: Vec<u8> = Vec::new();
        push_byte_range(&mut class, 48, 57);
        let c = choose_byte(class.as_slice());
        password.push(c);
        proof {
            wit_number = c;
            assert(is_number_byte(c));
            assert(password@.to_multiset().count(c) > 0);
        }
        chars.append(&mut class);
    }
    if !no_symbols {
        let mut class: Vec<u8> = Vec::new();
        push_symbol_bytes(&mut class);
        let c = choose_byte(class.as_slice());
        password.push(c);
        proof {
            wit_symbol = c;
            assert(is_symbol_byte(c));
            assert(password@.to_multiset().count(c) > 0);
        }
        chars.append(&mut class);
    }

    let target: usize = length as usize;
    while password.len() < target
        invariant
            chars@.len() > 0,
            password@.len() <= target,
            target == length as int,
            all_bytes_enabled(chars@, no_uppercase, no_lowercase, no_numbers, no_symbols),
            all_bytes_enabled(password@, no_uppercase, no_lowercase, no_numbers, no_symbols),
            !no_uppercase ==> is_upper_byte(wit_upper) && password@.to_multiset().count(wit_upper)
                > 0,
            !no_lowercase ==> is_lower_byte(wit_lower) && password@.to_multiset().count(wit_lower)
                > 0,
            !no_numbers ==> is_number_byte(wit_number) && password@.to_multiset().count(wit_number)
                > 0,
            !no_symbols ==> is_symbol_byte(wit_symbol) && password@.to_multiset().count(wit_symbol)
                > 0,
        decreases target - password@.len(),
    {
        let c = choose_byte(chars.as_slice());
        password.push(c);
    }

    let ghost pre = password@;
    shuffle_bytes(&mut password);
    proof {
        assert(password@.to_multiset().len() == password@.len());
        assert(pre.to_multiset().len() == pre.len());
        assert forall|i: int|
            0 <= i < password@.len() implies in_enabled_classes(
            #[trigger] password@[i],
            no_uppercase,
            no_lowercase,
            no_numbers,
            no_symbols,
        ) by {
            let x = password@[i];
            assert(password@.contains(x));
            assert(password@.to_multiset().count(x) > 0);
            assert(pre.to_multiset().count(x) > 0);
            assert(pre.contains(x));
            let j = choose|j: int| 0 <= j < pre.len() && pre[j] == x;
            assert(in_enabled_classes(pre[j], no_uppercase, no_lowercase, no_numbers, no_symbols));
        }
        if !no_uppercase {
            assert(password@.to_multiset().count(wit_upper) > 0);
            assert(password@.contains(wit_upper));
            let k = choose|k: int| 0 <= k < password@.len() && password@[k] == wit_upper;
            assert(is_upper_byte(password@[k]));
            assert(has_upper_byte(password@));
        }
        if !no_lowercase {
            assert(password@.to_multiset().count(wit_lower) > 0);
            assert(password@.contains(wit_lower));
            let k = choose|k: int| 0 <= k < password@.len() && password@[k] == wit_lower;
            assert(is_lower_byte(password@[k]));
            assert(has_lower_byte(password@));
        }
        if !no_numbers {
            assert(password@.to_multiset().count(wit_number) > 0);
            assert(password@.contains(wit_number));
            let k = choose|k: int| 0 <= k < password@.len() && password@[k] == wit_number;
            assert(is_number_byte(password@[k]));
            assert(has_number_byte(password@));
        }
        if !no_symbols {
            assert(password@.to_multiset().count(wit_symbol) > 0);
            assert(password@.contains(wit_symbol));
            let k = choose|k: int| 0 <= k < password@.len() && password@[k] == wit_symbol;
            assert(is_symbol_byte(password@[k]));
            assert(has_symbol_byte(password@));
        }
    }
    password
}

/// Generates a random password of `length` characters over the enabled
/// character classes, with at least one character from every enabled class.
///
/// At least one class must be left enabled, and `length` must leave room
/// for one character of each enabled class.
pub fn process_genpass(
    length: u8,
    no_uppercase: bool,
    no_lowercase: bool,
    no_numbers: bool,
    no_symbols: bool,
) -> (r: Result<String, TextError>)
    requires
        !(no_uppercase && no_lowercase && no_numbers && no_symbols),
        enabled_count(no_uppercase, no_lowercase, no_numbers, no_symbols) <= length as int,
    ensures
        r is Ok,
        r matches Ok(s) ==> {
            &&& s@.len() == length as int
            &&& all_chars_enabled(s@, no_uppercase, no_lowercase, no_numbers, no_symbols)
            &&& !no_uppercase ==> has_upper_char(s@)
            &&& !no_lowercase ==> has_lower_char(s@)
            &&& !no_numbers ==> has_number_char(s@)
            &&& !no_symbols ==> has_symbol_char(s@)
        },
{
    let bytes = genpass_bytes(length, no_uppercase, no_lowercase, no_numbers, no_symbols);
    let ghost bv = bytes@;
    let s = ascii_string(bytes);
    proof {
        assert forall|i: int|
            0 <= i < s@.len() implies char_in_enabled_classes(
            #[trigger] s@[i],
            no_uppercase,
            no_lowercase,
            no_numbers,
            no_symbols,
        ) by {
            assert(in_enabled_classes(bv[i], no_uppercase, no_lowercase, no_numbers, no_symbols));
            assert(s@[i] as u32 == bv[i] as u32);
        }
        if !no_uppercase {
            let j = choose|j: int| 0 <= j < bv.len() && is_upper_byte(bv[j]);
            assert(s@[j] as u32 == bv[j] as u32);
            assert(is_upper_char(s@[j]));
            assert(has_upper_char(s@));
        }
        if !no_lowercase {
            let j = choose|j: int| 0 <= j < bv.len() && is_lower_byte(bv[j]);
            assert(s@[j] as u32 == bv[j] as u32);
            assert(is_lower_char(s@[j]));
            assert(has_lower_char(s@));
        }
        if !no_numbers {
            let j = choose|j: int| 0 <= j < bv.len() && is_number_byte(bv[j]);
            assert(s@[j] as u32 == bv[j] as u32);
            assert(is_number_char(s@[j]));
            assert(has_number_char(s@));
        }
        if !no_symbols {
            let j = choose|j: int| 0 <= j < bv.len() && is_symbol_byte(bv[j]);
            assert(s@[j] as u32 == bv[j] as u32);
            assert(is_symbol_char(s@[j]));
            assert(has_symbol_char(s@));
        }
    }
    Ok(s)
}

} // verus!
