//! Random passwords over four classes of characters.
//!
//! Which characters are drawn is left to chance. What is proved holds of
//! every draw: the length, that no character comes from a class that was not
//! asked for, and that every class asked for is present.

use crate::strings::{is_ascii_bytes, lemma_ascii_bytes_are_text, string_from_utf8};
use rand::seq::SliceRandom;
use vstd::prelude::*;
use vstd::string::StringSliceAdditionalSpecFns;
use vstd::utf8::{decode_utf8_encode_utf8, encode_utf8, is_ascii_chars_encode_utf8};

verus! {

/// The upper-case letters.
pub const UPPER: &'static str = "ABCDEFGHIJKLMNOPQRSTUVWXYZ";

/// The lower-case letters that passwords draw on.
pub const LOWER: &'static str = "abcdefghijklmnopqrs";

/// The digits that passwords draw on.
pub const NUMBER: &'static str = "123456789";

/// The symbols that passwords draw on.
pub const SYMBOL: &'static str = "!@#$%^&*()_+{}<>?_";

/// Calls `SliceRandom::choose` with the thread's random number generator.
///
/// Assumed: what is chosen is an element of the slice, and nothing is chosen
/// only where the slice is empty. The call aborts the process if the
/// generator cannot be seeded from the operating system.
#[verifier::external_body]
fn pick(pool: &[u8]) -> (picked: Option<u8>)
    ensures
        match picked {
            Some(byte) => pool@.contains(byte),
            None => pool@.len() == 0,
        },
{
    pool.choose(&mut rand::thread_rng()).copied()
}

/// Calls `SliceRandom::shuffle` with the thread's random number generator.
///
/// Assumed: the elements are reordered, none is added, dropped or changed.
/// The call aborts the process if the generator cannot be seeded from the
/// operating system.
#[verifier::external_body]
fn shuffle(bytes: &mut Vec<u8>)
    ensures
        final(bytes)@.to_multiset() == old(bytes)@.to_multiset(),
{
    bytes.shuffle(&mut rand::thread_rng());
}

/// The bytes of `pool` if the class is asked for, none otherwise.
pub open spec fn enabled(asked: bool, pool: &str) -> Seq<u8> {
    if asked {
        pool.spec_bytes()
    } else {
        Seq::empty()
    }
}

/// All the bytes that a password may hold: those of the classes asked for.
pub open spec fn allowed(upper: bool, lower: bool, number: bool, symbol: bool) -> Seq<u8> {
    enabled(upper, UPPER) + enabled(lower, LOWER) + enabled(number, NUMBER) + enabled(
        symbol,
        SYMBOL,
    )
}

/// How many classes are asked for.
pub open spec fn class_count(upper: bool, lower: bool, number: bool, symbol: bool) -> nat {
    let u: nat = if upper { 1 } else { 0 };
    let l: nat = if lower { 1 } else { 0 };
    let n: nat = if number { 1 } else { 0 };
    let s: nat = if symbol { 1 } else { 0 };
    u + l + n + s
}

/// Whether `password` holds a byte of `pool`.
pub open spec fn draws_on(password: Seq<u8>, pool: &str) -> bool {
    exists|i: int| 0 <= i < password.len() && pool.spec_bytes().contains(#[trigger] password[i])
}

/// Whether `password` is one that may be generated for the length and the
/// classes asked for.
pub open spec fn is_password(
    password: Seq<u8>,
    length: u8,
    upper: bool,
    lower: bool,
    number: bool,
    symbol: bool,
) -> bool {
    &&& password.len() == length
    &&& forall|i: int|
        0 <= i < password.len() ==> allowed(upper, lower, number, symbol).contains(
            #[trigger] password[i],
        )
    &&& upper ==> draws_on(password, UPPER)
    &&& lower ==> draws_on(password, LOWER)
    &&& number ==> draws_on(password, NUMBER)
    &&& symbol ==> draws_on(password, SYMBOL)
}

/// Whether a password of `length` characters can be made of the classes
/// asked for: it has room for one character of each class, and it is empty if
/// no class is asked for.
pub open spec fn can_generate(length: u8, upper: bool, lower: bool, number: bool, symbol: bool) -> bool {
    &&& class_count(upper, lower, number, symbol) <= length
    &&& length > 0 ==> class_count(upper, lower, number, symbol) > 0
}

/// The four pools are not empty and hold ASCII only.
pub proof fn lemma_pools()
    ensures
        UPPER.spec_bytes().len() == 26,
        LOWER.spec_bytes().len() == 19,
        NUMBER.spec_bytes().len() == 9,
        SYMBOL.spec_bytes().len() == 18,
        forall|b: u8| allowed(true, true, true, true).contains(b) ==> b < 128,
{
    reveal_strlit("ABCDEFGHIJKLMNOPQRSTUVWXYZ");
    reveal_strlit("abcdefghijklmnopqrs");
    reveal_strlit("123456789");
    reveal_strlit("!@#$%^&*()_+{}<>?_");
    is_ascii_chars_encode_utf8(UPPER@);
    is_ascii_chars_encode_utf8(LOWER@);
    is_ascii_chars_encode_utf8(NUMBER@);
    is_ascii_chars_encode_utf8(SYMBOL@);
}

/// Whether every byte of `password` is one of `chars`.
pub open spec fn within(password: Seq<u8>, chars: Seq<u8>) -> bool {
    forall|i: int| 0 <= i < password.len() ==> chars.contains(#[trigger] password[i])
}

/// A password that grows by one byte keeps drawing on the pools it drew on.
proof fn lemma_push_keeps_drawing(password: Seq<u8>, byte: u8, pool: &str)
    requires
        draws_on(password, pool),
    ensures
        draws_on(password.push(byte), pool),
{
    let i = choose|i: int| 0 <= i < password.len() && pool.spec_bytes().contains(password[i]);
    assert(password.push(byte)[i] == password[i]);
}

/// A password that grows by a byte of a pool draws on that pool.
proof fn lemma_push_draws(password: Seq<u8>, byte: u8, pool: &str)
    requires
        pool.spec_bytes().contains(byte),
    ensures
        draws_on(password.push(byte), pool),
{
    assert(password.push(byte)[password.len() as int] == byte);
}

/// A password stays within the characters to draw from when it grows by one
/// of them, and when more characters are added to draw from.
proof fn lemma_push_stays_within(password: Seq<u8>, byte: u8, chars: Seq<u8>, more: Seq<u8>)
    requires
        within(password, chars),
        (chars + more).contains(byte),
    ensures
        within(password.push(byte), chars + more),
{
    assert forall|i: int| 0 <= i < password.push(byte).len() implies (chars + more).contains(
        #[trigger] password.push(byte)[i],
    ) by {
        if i < password.len() {
            let j = choose|j: int| 0 <= j < chars.len() && chars[j] == password[i];
            assert((chars + more)[j] == password[i]);
        }
    }
}

/// Any reordering of a password is a password for the same length and
/// classes.
pub proof fn lemma_reordering_keeps_password(
    before: Seq<u8>,
    after: Seq<u8>,
    length: u8,
    upper: bool,
    lower: bool,
    number: bool,
    symbol: bool,
)
    requires
        is_password(before, length, upper, lower, number, symbol),
        before.to_multiset() == after.to_multiset(),
    ensures
        is_password(after, length, upper, lower, number, symbol),
{
    before.to_multiset_ensures();
    after.to_multiset_ensures();
    assert forall|i: int| 0 <= i < after.len() implies allowed(
        upper,
        lower,
        number,
        symbol,
    ).contains(#[trigger] after[i]) by {
        assert(after.contains(after[i]));
        assert(before.to_multiset().count(after[i]) > 0);
    }
    lemma_reordering_keeps_drawing(before, after, UPPER);
    lemma_reordering_keeps_drawing(before, after, LOWER);
    lemma_reordering_keeps_drawing(before, after, NUMBER);
    lemma_reordering_keeps_drawing(before, after, SYMBOL);
}

/// A reordered password draws on the pools it drew on before.
proof fn lemma_reordering_keeps_drawing(before: Seq<u8>, after: Seq<u8>, pool: &str)
    requires
        before.to_multiset() == after.to_multiset(),
    ensures
        draws_on(before, pool) ==> draws_on(after, pool),
{
    before.to_multiset_ensures();
    after.to_multiset_ensures();
    if draws_on(before, pool) {
        let i = choose|i: int| 0 <= i < before.len() && pool.spec_bytes().contains(before[i]);
        assert(before.contains(before[i]));
        assert(after.to_multiset().count(before[i]) > 0);
        let j = choose|j: int| 0 <= j < after.len() && after[j] == before[i];
        assert(pool.spec_bytes().contains(after[j]));
    }
}

/// Opens a class: its characters join those to draw from, and one of them,
/// drawn at random, joins the password.
fn open_class(pool: &'static str, chars: &mut Vec<u8>, password: &mut Vec<u8>)
    requires
        pool.spec_bytes().len() > 0,
        within(old(password)@, old(chars)@),
    ensures
        final(chars)@ == old(chars)@ + pool.spec_bytes(),
        final(password)@.len() == old(password)@.len() + 1,
        within(final(password)@, final(chars)@),
        draws_on(final(password)@, pool),
        forall|other: &str| draws_on(old(password)@, other) ==> draws_on(final(password)@, other),
{
    let bytes = pool.as_bytes();
    chars.extend_from_slice(bytes);
    assert(chars@ =~= old(chars)@ + pool.spec_bytes());
    let first = pick(bytes).unwrap();
    password.push(first);
    proof {
        let i = choose|i: int| 0 <= i < bytes@.len() && bytes@[i] == first;
        assert(chars@[old(chars)@.len() + i] == first);
        lemma_push_stays_within(old(password)@, first, old(chars)@, pool.spec_bytes());
        lemma_push_draws(old(password)@, first, pool);
        assert forall|other: &str| draws_on(old(password)@, other) implies draws_on(
            password@,
            other,
        ) by {
            lemma_push_keeps_drawing(old(password)@, first, other);
        }
    }
}

/// Draws a password of `length` characters: one of each class asked for,
/// the rest from all of those classes together, in random order.
pub fn generate_password(length: u8, upper: bool, lower: bool, number: bool, symbol: bool) -> (password:
    Vec<u8>)
    requires
        can_generate(length, upper, lower, number, symbol),
    ensures
        is_password(password@, length, upper, lower, number, symbol),
{
    proof {
        lemma_pools();
    }
    let mut password: Vec<u8> = Vec::new();
    let mut chars: Vec<u8> = Vec::new();
    if upper {
        open_class(UPPER, &mut chars, &mut password);
    }
    if lower {
        open_class(LOWER, &mut chars, &mut password);
    }
    if number {
        open_class(NUMBER, &mut chars, &mut password);
    }
    if symbol {
        open_class(SYMBOL, &mut chars, &mut password);
    }
    assert(chars@ =~= allowed(upper, lower, number, symbol));
    while password.len() < length as usize
        invariant
            chars@ == allowed(upper, lower, number, symbol),
            password@.len() <= length,
            length > 0 ==> chars@.len() > 0,
            within(password@, chars@),
            upper ==> draws_on(password@, UPPER),
            lower ==> draws_on(password@, LOWER),
            number ==> draws_on(password@, NUMBER),
            symbol ==> draws_on(password@, SYMBOL),
        decreases length - password@.len(),
    {
        let ghost before = password@;
        let next = pick(chars.as_slice()).unwrap();
        password.push(next);
        proof {
            assert(chars@ + Seq::<u8>::empty() =~= chars@);
            lemma_push_stays_within(before, next, chars@, Seq::empty());
            if upper {
                lemma_push_keeps_drawing(before, next, UPPER);
            }
            if lower {
                lemma_push_keeps_drawing(before, next, LOWER);
            }
            if number {
                lemma_push_keeps_drawing(before, next, NUMBER);
            }
            if symbol {
                lemma_push_keeps_drawing(before, next, SYMBOL);
            }
        }
    }
    let ghost drawn = password@;
    shuffle(&mut password);
    proof {
        lemma_reordering_keeps_password(drawn, password@, length, upper, lower, number, symbol);
    }
    password
}

/// Draws a password as `generate_password` does and returns it as text. The
/// text is ASCII: its characters are the bytes drawn, one for one.
pub fn process_genpass(length: u8, upper: bool, lower: bool, number: bool, symbol: bool) -> (password:
    String)
    requires
        can_generate(length, upper, lower, number, symbol),
    ensures
        password@.len() == length,
        is_password(encode_utf8(password@), length, upper, lower, number, symbol),
{
    let bytes = generate_password(length, upper, lower, number, symbol);
    proof {
        lemma_password_is_ascii(bytes@, length, upper, lower, number, symbol);
        lemma_ascii_bytes_are_text(bytes@);
        decode_utf8_encode_utf8(bytes@);
    }
    string_from_utf8(bytes).unwrap()
}

/// Every password is ASCII.
pub proof fn lemma_password_is_ascii(
    password: Seq<u8>,
    length: u8,
    upper: bool,
    lower: bool,
    number: bool,
    symbol: bool,
)
    requires
        is_password(password, length, upper, lower, number, symbol),
    ensures
        is_ascii_bytes(password),
{
    lemma_pools();
    assert forall|i: int| 0 <= i < password.len() implies #[trigger] password[i] < 128 by {
        lemma_allowed_is_among_all(password[i], upper, lower, number, symbol);
    }
}

/// What is allowed for some classes is allowed when all are asked for.
proof fn lemma_allowed_is_among_all(byte: u8, upper: bool, lower: bool, number: bool, symbol: bool)
    requires
        allowed(upper, lower, number, symbol).contains(byte),
    ensures
        allowed(true, true, true, true).contains(byte),
{
    let some = allowed(upper, lower, number, symbol);
    let all = allowed(true, true, true, true);
    let u = UPPER.spec_bytes();
    let l = LOWER.spec_bytes();
    let n = NUMBER.spec_bytes();
    let s = SYMBOL.spec_bytes();
    let j = choose|j: int| 0 <= j < some.len() && some[j] == byte;
    if u.contains(byte) {
        let k = choose|k: int| 0 <= k < u.len() && u[k] == byte;
        assert(all[k] == byte);
    } else if l.contains(byte) {
        let k = choose|k: int| 0 <= k < l.len() && l[k] == byte;
        assert(all[u.len() + k] == byte);
    } else if n.contains(byte) {
        let k = choose|k: int| 0 <= k < n.len() && n[k] == byte;
        assert(all[u.len() + l.len() + k] == byte);
    } else if s.contains(byte) {
        let k = choose|k: int| 0 <= k < s.len() && s[k] == byte;
        assert(all[u.len() + l.len() + n.len() + k] == byte);
    } else {
        let eu = enabled(upper, UPPER);
        let el = enabled(lower, LOWER);
        let en = enabled(number, NUMBER);
        let es = enabled(symbol, SYMBOL);
        if j < eu.len() {
            assert(u[j] == byte);
        } else if j < eu.len() + el.len() {
            assert(l[j - eu.len()] == byte);
        } else if j < eu.len() + el.len() + en.len() {
            assert(n[j - eu.len() - el.len()] == byte);
        } else {
            assert(s[j - eu.len() - el.len() - en.len()] == byte);
        }
    }
}

} // verus!
