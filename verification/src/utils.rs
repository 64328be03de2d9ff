//! Numbers in another radix, the clock, random integers, and the
//! `verify_fp` token.

use vstd::prelude::*;
use rand::Rng;
use std::time::{Duration, SystemTime, SystemTimeError};
use crate::text::{append_chars, chars_of, string_of};

verus! {

/// The character for the digit `d`: `0` to `9`, then `a` to `z`.
pub open spec fn digit_char(d: int) -> char {
    if d < 10 {
        (48 + d) as char
    } else {
        (87 + d) as char
    }
}

/// The digits of `x` in base `radix`, the most significant first, without
/// leading zeros; zero is the one digit `0`.
pub open spec fn radix_digits(x: nat, radix: nat) -> Seq<char>
    decreases x,
{
    if radix < 2 || x < radix {
        seq![digit_char(x as int)]
    } else {
        proof {
            assert(x / radix < x) by (nonlinear_arith)
                requires
                    radix >= 2,
                    x >= radix,
            ;
        }
        radix_digits(x / radix, radix).push(digit_char((x % radix) as int))
    }
}

/// The character of one digit below 36.
fn digit_of(d: u8) -> (c: char)
    requires
        d < 36,
    ensures
        c == digit_char(d as int),
{
    if d < 10 {
        (48 + d) as char
    } else {
        (87 + d) as char
    }
}

/// Writes `x` in base `radix`, with the digits `0` to `9` and `a` to `z`.
pub fn format_radix(x: u128, radix: u32) -> (out: String)
    requires
        2 <= radix <= 36,
    ensures
        out@ == radix_digits(x as nat, radix as nat),
{
    let base = radix as u128;
    let mut low_first: Vec<char> = Vec::new();
    let mut rest = x;
    loop
        invariant_except_break
            base == radix,
            2 <= radix <= 36,
            radix_digits(x as nat, radix as nat) == radix_digits(rest as nat, radix as nat)
                + Seq::new(low_first@.len(), |i: int| low_first@[low_first@.len() - 1 - i]),
        ensures
            radix_digits(x as nat, radix as nat) == Seq::new(
                low_first@.len(),
                |i: int| low_first@[low_first@.len() - 1 - i],
            ),
        decreases rest,
    {
        let ghost before = low_first@;
        let ghost written = Seq::new(before.len(), |i: int| before[before.len() - 1 - i]);
        let m = rest % base;
        let digit = digit_of(m as u8);
        low_first.push(digit);
        assert(Seq::new(low_first@.len(), |i: int| low_first@[low_first@.len() - 1 - i])
            =~= seq![digit] + written);
        if rest < base {
            assert(rest % base == rest) by (nonlinear_arith)
                requires
                    rest < base,
            ;
            assert(radix_digits(rest as nat, radix as nat) =~= seq![digit]);
            break ;
        }
        assert(radix_digits(rest as nat, radix as nat) =~= radix_digits(
            (rest / base) as nat,
            radix as nat,
        ).push(digit));
        assert(rest / base < rest) by (nonlinear_arith)
            requires
                base >= 2,
                rest >= base,
        ;
        rest = rest / base;
    }
    let mut high_first: Vec<char> = Vec::new();
    let mut i: usize = low_first.len();
    while i > 0
        invariant
            i <= low_first.len(),
            high_first@ == Seq::new(
                (low_first@.len() - i) as nat,
                |k: int| low_first@[low_first@.len() - 1 - k],
            ),
        decreases i,
    {
        i -= 1;
        high_first.push(low_first[i]);
    }
    string_of(high_first.as_slice())
}

/// `std::time::SystemTime`: a reading of the system clock.
#[verifier::external_type_specification]
#[verifier::external_body]
pub struct ExSystemTime(SystemTime);

/// `std::time::SystemTimeError`: the second of two times was the later one.
#[verifier::external_type_specification]
#[verifier::external_body]
pub struct ExSystemTimeError(SystemTimeError);

/// `SystemTime::now` reads the system clock: nothing is known of the result.
pub assume_specification[ SystemTime::now ]() -> (now: SystemTime)
;

/// `SystemTime::duration_since` gives the time that passed since `earlier`,
/// or an error where `earlier` is the later of the two.
pub assume_specification[ SystemTime::duration_since ](
    time: &SystemTime,
    earlier: SystemTime,
) -> (passed: Result<Duration, SystemTimeError>)
;

/// The whole milliseconds that a duration holds.
pub uninterp spec fn duration_millis(duration: Duration) -> u128;

/// `Duration::as_millis` gives the whole milliseconds of a duration: a
/// function of the duration alone.
pub assume_specification[ Duration::as_millis ](duration: &Duration) -> (millis: u128)
    ensures
        millis == duration_millis(*duration),
;

/// The constant `std::time::UNIX_EPOCH`.
#[verifier::external_body]
fn unix_epoch() -> (epoch: SystemTime) {
    std::time::UNIX_EPOCH
}

/// The whole milliseconds of the time that the clock says has passed since
/// the Unix epoch; `None` exactly where it says that it stands before the
/// epoch.
pub fn millis_since_epoch(passed: Result<Duration, SystemTimeError>) -> (millis: Option<u128>)
    ensures
        match passed {
            Ok(duration) => millis == Some(duration_millis(duration)),
            Err(_) => millis is None,
        },
{
    match passed {
        Ok(passed) => Some(passed.as_millis()),
        Err(_) => None,
    }
}

/// The milliseconds that have passed since the Unix epoch, or `None` where
/// the system clock stands before it.
pub fn date_now() -> (millis: Option<u128>) {
    millis_since_epoch(SystemTime::now().duration_since(unix_epoch()))
}

/// Calls `rand::thread_rng` and `gen_range` on an exclusive range: an
/// integer of the range, drawn uniformly. The crate panics on an empty
/// range.
#[verifier::external_body]
pub fn get_random_int(a: i32, b: i32) -> (drawn: i32)
    requires
        a < b,
    ensures
        a <= drawn < b,
{
    rand::thread_rng().gen_range(a..b)
}

/// The character at index `i` of the token alphabet: the digits, then the
/// upper case letters, then the lower case letters.
pub open spec fn alphabet_char(i: int) -> char {
    if i < 10 {
        (48 + i) as char
    } else if i < 36 {
        (55 + i) as char
    } else {
        (61 + i) as char
    }
}

/// The places of the token body that no draw fills.
pub open spec fn is_fixed(position: int) -> bool {
    position == 8 || position == 13 || position == 14 || position == 18 || position == 23
}

/// How many places below `position` no draw fills.
pub open spec fn fixed_before(position: int) -> int {
    (if position > 8 { 1int } else { 0int })
        + (if position > 13 { 1int } else { 0int })
        + (if position > 14 { 1int } else { 0int })
        + (if position > 18 { 1int } else { 0int })
        + (if position > 23 { 1int } else { 0int })
}

/// The character at `position` of the token body. The draws are used up in
/// ascending order of the places that they fill. At place 19 the draw `i`
/// picks the index `(3 & i) | 8`, elsewhere the index `i`.
pub open spec fn body_char(position: int, draws: Seq<u8>) -> char {
    if position == 14 {
        '4'
    } else if is_fixed(position) {
        '_'
    } else {
        let i = draws[position - fixed_before(position)];
        if position == 19 {
            alphabet_char(((3u8 & i) | 8u8) as int)
        } else {
            alphabet_char(i as int)
        }
    }
}

/// The 36 characters of the token body.
pub open spec fn verify_fp_body(draws: Seq<u8>) -> Seq<char> {
    Seq::new(36, |position: int| body_char(position, draws))
}

/// One draw for each of the 31 free places, each an index of the alphabet.
pub open spec fn valid_draws(draws: Seq<u8>) -> bool {
    &&& draws.len() == 31
    &&& forall|i: int| 0 <= i < draws.len() ==> draws[i] < 62
}

/// The word that every token starts with, up to the time stamp.
pub open spec fn verify_fp_prefix() -> Seq<char> {
    seq!['v', 'e', 'r', 'i', 'f', 'y', '_']
}

/// The token for a time in milliseconds and 31 draws: `verify_`, the time
/// in base 36, `_`, and the body.
pub open spec fn verify_fp_of(now_ms: nat, draws: Seq<u8>) -> Seq<char> {
    verify_fp_prefix() + radix_digits(now_ms, 36) + seq!['_'] + verify_fp_body(draws)
}

/// The character of the token alphabet at index `i`.
fn alphabet_at(i: u8) -> (c: char)
    requires
        i < 62,
    ensures
        c == alphabet_char(i as int),
{
    if i < 10 {
        (48 + i) as char
    } else if i < 36 {
        (55 + i) as char
    } else {
        (61 + i) as char
    }
}

/// The token for the time `now_ms` and the draws `draws`.
pub fn verify_fp_from(now_ms: u128, draws: &[u8]) -> (token: String)
    requires
        valid_draws(draws@),
    ensures
        token@ == verify_fp_of(now_ms as nat, draws@),
{
    let stamp = format_radix(now_ms, 36);
    let mut out = chars_of("verify_");
    proof {
        reveal_strlit("verify_");
        assert(out@ =~= verify_fp_prefix());
    }
    append_chars(&mut out, chars_of(stamp.as_str()).as_slice());
    out.push('_');
    let ghost head = out@;
    let mut position: usize = 0;
    let mut used: usize = 0;
    while position < 36
        invariant
            position <= 36,
            valid_draws(draws@),
            used == position - fixed_before(position as int),
            out@ == head + verify_fp_body(draws@).take(position as int),
        decreases 36 - position,
    {
        let c = if position == 14 {
            '4'
        } else if position == 8 || position == 13 || position == 18 || position == 23 {
            '_'
        } else {
            let i = draws[used];
            used += 1;
            if position == 19 {
                assert(((3u8 & i) | 8u8) < 62) by (bit_vector);
                alphabet_at((3 & i) | 8)
            } else {
                alphabet_at(i)
            }
        };
        assert(c == body_char(position as int, draws@));
        out.push(c);
        position += 1;
        assert(verify_fp_body(draws@).take(position as int) =~= verify_fp_body(draws@).take(
            position - 1,
        ).push(c));
    }
    assert(verify_fp_body(draws@).take(36) =~= verify_fp_body(draws@));
    string_of(out.as_slice())
}

/// A character of a time stamp: a digit or a lower case letter.
pub open spec fn is_stamp_char(c: char) -> bool {
    ('0' <= c && c <= '9') || ('a' <= c && c <= 'z')
}

/// A character of the token alphabet: a digit or a letter.
pub open spec fn is_token_char(c: char) -> bool {
    ('0' <= c && c <= '9') || ('A' <= c && c <= 'Z') || ('a' <= c && c <= 'z')
}

/// The shape of a token body: 36 characters, `_` at the places 8, 13, 18
/// and 23, `4` at place 14, one of `8`, `9`, `A`, `B` at place 19, and a
/// character of the alphabet at every other place.
pub open spec fn is_token_body(body: Seq<char>) -> bool {
    &&& body.len() == 36
    &&& forall|p: int|
        0 <= p < 36 ==> if p == 8 || p == 13 || p == 18 || p == 23 {
            #[trigger] body[p] == '_'
        } else if p == 14 {
            body[p] == '4'
        } else if p == 19 {
            body[p] == '8' || body[p] == '9' || body[p] == 'A' || body[p] == 'B'
        } else {
            is_token_char(body[p])
        }
}

/// The shape of a token: `verify_`, a time stamp of at least one character,
/// `_`, and a body.
pub open spec fn is_verify_fp(token: Seq<char>) -> bool {
    let n = token.len() as int;
    &&& n >= 7 + 1 + 1 + 36
    &&& token.take(7) == verify_fp_prefix()
    &&& forall|i: int| 7 <= i < n - 37 ==> is_stamp_char(#[trigger] token[i])
    &&& token[n - 37] == '_'
    &&& is_token_body(token.skip(n - 36))
}

/// The value of the digit `c`; a character that is no digit counts as zero.
pub open spec fn digit_value(c: char) -> nat {
    if '0' <= c && c <= '9' {
        (c as int - 48) as nat
    } else if 'a' <= c && c <= 'z' {
        (c as int - 87) as nat
    } else {
        0
    }
}

/// The number that `digits` write in base `radix`, the most significant
/// digit first.
pub open spec fn radix_value(digits: Seq<char>, radix: nat) -> nat
    decreases digits.len(),
{
    if digits.len() == 0 {
        0
    } else {
        radix_value(digits.drop_last(), radix) * radix + digit_value(digits.last())
    }
}

/// The digits of a number are digits of the base, at least one, and they
/// write the number; the first is `0` only for zero.
pub proof fn lemma_radix_digits(x: nat, radix: nat)
    requires
        2 <= radix <= 36,
    ensures
        radix_digits(x, radix).len() >= 1,
        forall|i: int|
            0 <= i < radix_digits(x, radix).len() ==> is_stamp_char(
                #[trigger] radix_digits(x, radix)[i],
            ) && digit_value(radix_digits(x, radix)[i]) < radix,
        radix_value(radix_digits(x, radix), radix) == x,
        x > 0 ==> radix_digits(x, radix)[0] != '0',
    decreases x,
{
    let digits = radix_digits(x, radix);
    if x < radix {
        assert(digits.drop_last() =~= Seq::<char>::empty());
        assert(radix_value(digits.drop_last(), radix) == 0);
        assert(radix_value(digits, radix) == 0 * radix + digit_value(digits.last()));
    } else {
        let high = x / radix;
        let low = x % radix;
        assert(high < x && high > 0 && x == high * radix + low && 0 <= low < radix)
            by (nonlinear_arith)
            requires
                radix >= 2,
                x >= radix,
                high == x / radix,
                low == x % radix,
        ;
        lemma_radix_digits(high, radix);
        assert(digits.drop_last() =~= radix_digits(high, radix));
        assert(digits.last() == digit_char(low as int));
        assert(digits[0] == radix_digits(high, radix)[0]);
    }
}

/// Every token that is built from a time and valid draws has the shape of
/// a token.
pub proof fn lemma_verify_fp_shape(now_ms: nat, draws: Seq<u8>)
    requires
        valid_draws(draws),
    ensures
        is_verify_fp(verify_fp_of(now_ms, draws)),
{
    let stamp = radix_digits(now_ms, 36);
    let body = verify_fp_body(draws);
    let token = verify_fp_of(now_ms, draws);
    let n = token.len() as int;
    lemma_radix_digits(now_ms, 36);
    assert(n == 7 + stamp.len() + 1 + 36);
    assert(token.take(7) =~= verify_fp_prefix());
    assert forall|i: int| 7 <= i < n - 37 implies is_stamp_char(#[trigger] token[i]) by {
        assert(token[i] == stamp[i - 7]);
    }
    assert(token.skip(n - 36) =~= body);
    assert forall|p: int| 0 <= p < 36 && !is_fixed(p) implies is_token_char(#[trigger] body[p])
        && (p == 19 ==> body[p] == '8' || body[p] == '9' || body[p] == 'A' || body[p] == 'B') by {
        let i = draws[p - fixed_before(p)];
        assert(i < 62);
        if p == 19 {
            let k = (3u8 & i) | 8u8;
            assert(k == 8 || k == 9 || k == 10 || k == 11) by (bit_vector)
                requires
                    k == (3u8 & i) | 8u8,
            ;
        }
    }
    assert(is_token_body(body));
}

/// A token for the clock reading `now`: the time in base 36 and 31 random
/// draws. There is a token exactly where there is a reading; no draw is
/// made without one.
pub fn verify_fp_at(now: Option<u128>) -> (token: Option<String>)
    ensures
        token is Some <==> now is Some,
        token matches Some(t) ==> is_verify_fp(t@) && exists|draws: Seq<u8>|
            valid_draws(draws) && t@ == #[trigger] verify_fp_of(now->0 as nat, draws),
{
    let now_ms = match now {
        Some(millis) => millis,
        None => {
            return None;
        },
    };
    let mut draws: Vec<u8> = Vec::new();
    while draws.len() < 31
        invariant
            draws@.len() <= 31,
            forall|i: int| 0 <= i < draws@.len() ==> draws@[i] < 62,
        decreases 31 - draws@.len(),
    {
        let drawn = get_random_int(0, 62);
        draws.push(drawn as u8);
    }
    let token = verify_fp_from(now_ms, draws.as_slice());
    proof {
        lemma_verify_fp_shape(now_ms as nat, draws@);
    }
    Some(token)
}

/// A fresh token: the time of the system clock in base 36 and 31 random
/// draws. `None` where the clock stands before the Unix epoch.
pub fn generate_verify_fp() -> (token: Option<String>)
    ensures
        token matches Some(t) ==> is_verify_fp(t@) && exists|now_ms: nat, draws: Seq<u8>|
            valid_draws(draws) && t@ == #[trigger] verify_fp_of(now_ms, draws),
{
    let now = date_now();
    let token = verify_fp_at(now);
    proof {
        if token is Some {
            let text = token->0@;
            let draws = choose|draws: Seq<u8>|
                valid_draws(draws) && text == #[trigger] verify_fp_of(now->0 as nat, draws);
            assert(valid_draws(draws) && text == verify_fp_of(now->0 as nat, draws));
        }
    }
    token
}

} // verus!
