use vstd::prelude::*;
use vstd::string::StringExecFns;

use crate::constants::{ONE_MILLI_NEAR, SECOND};
use crate::errors::KatherineError;
use crate::types::EpochMillis;

verus! {

/// `requested` lies strictly within one milli-NEAR of `total`, on either
/// side: total - 0.001 NEAR < requested < total + 0.001 NEAR.
pub open spec fn spec_is_close(requested: u128, total: u128) -> bool {
    &&& requested > total - ONE_MILLI_NEAR
    &&& requested < total + ONE_MILLI_NEAR
}

/// Returns true when total - 0.001 NEAR < requested < total + 0.001 NEAR.
/// It lets a user who asks for "all" of a balance shown rounded in a UI
/// withdraw the whole balance without leaving dust behind.
pub fn is_close(requested: u128, total: u128) -> (r: bool)
    requires
        total + ONE_MILLI_NEAR <= u128::MAX,
    ensures
        r == spec_is_close(requested, total),
{
    let above_lower = if total >= ONE_MILLI_NEAR {
        requested > total - ONE_MILLI_NEAR
    } else {
        true
    };
    above_lower && requested < total + ONE_MILLI_NEAR
}

/// `amount * numerator / denominator`, rounded down, computed without any
/// intermediate bound (the product may exceed 128 bits).
pub open spec fn spec_proportional(amount: u128, numerator: u128, denominator: u128) -> int {
    (amount as int * numerator as int) / (denominator as int)
}

/// The quotient is defined and fits in 128 bits.
pub open spec fn proportional_fits(amount: u128, numerator: u128, denominator: u128) -> bool {
    denominator > 0 && spec_proportional(amount, numerator, denominator) <= u128::MAX
}

proof fn lemma_shift_step(n: u128, i: u128)
    by (bit_vector)
    requires
        i < 127,
    ensures
        n >> i == ((n >> (i + 1)) * 2) + ((n >> i) & 1),
        (n >> i) & 1 <= 1,
{
}

proof fn lemma_shift_top(n: u128)
    by (bit_vector)
    ensures
        n >> 127u128 == (n >> 127u128) & 1,
        (n >> 127u128) & 1 <= 1,
{
}

proof fn lemma_shift_le(n: u128, i: u128)
    by (bit_vector)
    requires
        i < 128,
    ensures
        n >> i <= n,
{
}

proof fn lemma_shift_zero(n: u128)
    by (bit_vector)
    ensures
        n >> 0u128 == n,
{
}

proof fn lemma_double(a: int, p: int, q: int, r: int, d: int, q1: int, r1: int)
    by (nonlinear_arith)
    requires
        d > 0,
        a * p == q * d + r,
        0 <= r < d,
        (r >= d - r && r1 == r - (d - r) && q1 == 2 * q + 1) || (r < d - r && r1 == r + r && q1
            == 2 * q),
    ensures
        a * (2 * p) == q1 * d + r1,
        0 <= r1 < d,
{
}

proof fn lemma_add_once(a: int, p: int, q1: int, r1: int, d: int, qa: int, ra: int, q2: int, r2: int)
    by (nonlinear_arith)
    requires
        d > 0,
        a * p == q1 * d + r1,
        a == qa * d + ra,
        0 <= ra < d,
        0 <= r1 < d,
        (r1 >= d - ra && r2 == r1 - (d - ra) && q2 == q1 + qa + 1) || (r1 < d - ra && r2 == r1
            + ra && q2 == q1 + qa),
    ensures
        a * (p + 1) == q2 * d + r2,
        0 <= r2 < d,
{
}

proof fn lemma_quotient_bound(a: int, p: int, n: int, q: int, r: int, d: int)
    requires
        d > 0,
        0 <= p <= n,
        a >= 0,
        a * p == q * d + r,
        0 <= r < d,
    ensures
        q == (a * p) / d,
        q <= (a * n) / d,
{
    vstd::arithmetic::div_mod::lemma_fundamental_div_mod_converse_div(a * p, d, q, r);
    if a > 0 {
        vstd::arithmetic::mul::lemma_mul_left_inequality(a, p, n);
        assert(a * p <= a * n);
    } else {
        assert(a * p == 0 && a * n == 0) by (nonlinear_arith)
            requires
                a == 0,
        ;
    }
    vstd::arithmetic::div_mod::lemma_div_is_ordered(a * p, a * n, d);
}

/// `amount * numerator / denominator` rounded down, or `None` when the
/// denominator is zero or the quotient does not fit in 128 bits.
pub fn checked_proportional(amount: u128, numerator: u128, denominator: u128) -> (r: Option<u128>)
    ensures
        r is None <==> !proportional_fits(amount, numerator, denominator),
        r matches Some(v) ==> v == spec_proportional(amount, numerator, denominator),
{
    if denominator == 0 {
        return None;
    }
    let d = denominator;
    let qa = amount / d;
    let ra = amount % d;
    proof {
        vstd::arithmetic::div_mod::lemma_fundamental_div_mod(amount as int, d as int);
        assert(amount == qa * d + ra) by (nonlinear_arith)
            requires
                amount == d * qa + ra,
        ;
    }
    let ghost a = amount as int;
    let ghost n = numerator as int;
    let ghost bound = spec_proportional(amount, numerator, denominator);
    let mut q: u128 = 0;
    let mut r: u128 = 0;
    let mut i: u128 = 128;
    let ghost mut p: int = 0;
    assert(a * p == 0) by (nonlinear_arith)
        requires
            p == 0,
    ;
    while i > 0
        invariant
            0 < d,
            d == denominator,
            a == amount,
            n == numerator,
            bound == spec_proportional(amount, numerator, denominator),
            a == qa * d + ra,
            0 <= ra < d,
            i <= 128,
            i == 128 ==> p == 0,
            i < 128 ==> p == (numerator >> i) as int,
            0 <= p <= n,
            a * p == q * d + r,
            r < d,
            q <= bound,
        decreases i,
    {
        i = i - 1;
        let bit = (numerator >> i) & 1;
        let ghost p_new = (numerator >> i) as int;
        proof {
            if i == 127 {
                lemma_shift_top(numerator);
            } else {
                lemma_shift_step(numerator, i);
            }
            lemma_shift_le(numerator, i);
            assert(p_new == 2 * p + bit);
        }
        // Double the accumulated prefix.
        let ghost r0 = r as int;
        let c: u128 = if r >= d - r {
            r = r - (d - r);
            1
        } else {
            r = r + r;
            0
        };
        let ghost q1 = 2 * q + c;
        proof {
            lemma_double(a, p, q as int, r0, d as int, q1, r as int);
            lemma_quotient_bound(a, 2 * p, n, q1, r as int, d as int);
        }
        if q > (u128::MAX - c) / 2 {
            return None;
        }
        q = 2 * q + c;
        if bit == 1 {
            // Add one more `amount` to the prefix.
            let ghost r1 = r as int;
            let c2: u128 = if r >= d - ra {
                r = r - (d - ra);
                1
            } else {
                r = r + ra;
                0
            };
            let ghost q2 = q + qa + c2;
            proof {
                lemma_add_once(a, 2 * p, q as int, r1, d as int, qa as int, ra as int, q2, r as int);
                lemma_quotient_bound(a, 2 * p + 1, n, q2, r as int, d as int);
            }
            if q > u128::MAX - qa || q + qa > u128::MAX - c2 {
                return None;
            }
            q = q + qa + c2;
        }
        proof {
            p = p_new;
        }
    }
    proof {
        lemma_shift_zero(numerator);
        lemma_quotient_bound(a, n, n, q as int, r as int, d as int);
    }
    Some(q)
}

/// `amount * numerator / denominator`, rounded down. The product is formed
/// in 256 bits, so only the quotient has to fit in 128 bits.
pub fn proportional(amount: u128, numerator: u128, denominator: u128) -> (r: u128)
    requires
        proportional_fits(amount, numerator, denominator),
    ensures
        r == spec_proportional(amount, numerator, denominator),
{
    checked_proportional(amount, numerator, denominator).unwrap()
}

/// `amount * numerator / denominator`, or the error the contract reports
/// when the quotient is undefined or too large.
pub open spec fn spec_proportional_result(amount: u128, numerator: u128, denominator: u128) -> Result<
    u128,
    KatherineError,
> {
    if denominator == 0 {
        Err(KatherineError::DivisionByZero)
    } else if spec_proportional(amount, numerator, denominator) > u128::MAX {
        Err(KatherineError::ArithmeticOverflow)
    } else {
        Ok(spec_proportional(amount, numerator, denominator) as u128)
    }
}

pub fn proportional_result(amount: u128, numerator: u128, denominator: u128) -> (r: Result<
    u128,
    KatherineError,
>)
    ensures
        r == spec_proportional_result(amount, numerator, denominator),
{
    match checked_proportional(amount, numerator, denominator) {
        Some(v) => Ok(v),
        None => if denominator == 0 {
            Err(KatherineError::DivisionByZero)
        } else {
            Err(KatherineError::ArithmeticOverflow)
        },
    }
}

/// Scaling by `d / d` gives the amount back.
pub proof fn lemma_proportional_identity(amount: u128, d: u128)
    requires
        d > 0,
    ensures
        proportional_fits(amount, d, d),
        spec_proportional(amount, d, d) == amount,
{
    vstd::arithmetic::div_mod::lemma_div_multiples_vanish(amount as int, d as int);
    assert(amount as int * d as int == d as int * amount as int) by (nonlinear_arith);
}

/// A share (`numerator <= denominator`) of an amount never exceeds it, so it
/// always fits.
pub proof fn lemma_proportional_share(amount: u128, numerator: u128, denominator: u128)
    requires
        denominator > 0,
        numerator <= denominator,
    ensures
        proportional_fits(amount, numerator, denominator),
        0 <= spec_proportional(amount, numerator, denominator) <= amount,
{
    let a = amount as int;
    let n = numerator as int;
    let d = denominator as int;
    assert(0 <= a * n <= a * d) by (nonlinear_arith)
        requires
            0 <= a,
            0 <= n <= d,
    ;
    vstd::arithmetic::div_mod::lemma_div_is_ordered(a * n, a * d, d);
    vstd::arithmetic::div_mod::lemma_div_multiples_vanish(a, d);
    assert(a * d == d * a) by (nonlinear_arith);
    vstd::arithmetic::div_mod::lemma_div_pos_is_pos(a * n, d);
}

/// The quotient grows with the amount.
pub proof fn lemma_proportional_monotonic(a1: u128, a2: u128, numerator: u128, denominator: u128)
    requires
        denominator > 0,
        a1 <= a2,
    ensures
        spec_proportional(a1, numerator, denominator) <= spec_proportional(a2, numerator, denominator),
{
    assert(a1 as int * numerator as int <= a2 as int * numerator as int) by (nonlinear_arith)
        requires
            a1 <= a2,
    ;
    vstd::arithmetic::div_mod::lemma_div_is_ordered(
        a1 as int * numerator as int,
        a2 as int * numerator as int,
        denominator as int,
    );
}

/// Converting an amount at one rate and back never gives more than the
/// amount: rounding only loses.
pub proof fn lemma_proportional_round_trip(amount: u128, p1: u128, p2: u128)
    requires
        p1 > 0,
        p2 > 0,
        proportional_fits(amount, p1, p2),
    ensures
        proportional_fits(spec_proportional(amount, p1, p2) as u128, p2, p1),
        spec_proportional(spec_proportional(amount, p1, p2) as u128, p2, p1) <= amount,
{
    let a = amount as int;
    let x = spec_proportional(amount, p1, p2);
    let b = p1 as int;
    let c = p2 as int;
    vstd::arithmetic::div_mod::lemma_fundamental_div_mod(a * b, c);
    vstd::arithmetic::div_mod::lemma_mod_pos_bound(a * b, c);
    assert(x * c <= a * b) by (nonlinear_arith)
        requires
            a * b == c * x + (a * b) % c,
            0 <= (a * b) % c,
    ;
    vstd::arithmetic::div_mod::lemma_div_is_ordered(x * c, a * b, b);
    vstd::arithmetic::div_mod::lemma_div_multiples_vanish(a, b);
    assert(a * b == b * a) by (nonlinear_arith);
    vstd::arithmetic::div_mod::lemma_div_pos_is_pos(a * b, c);
    vstd::arithmetic::div_mod::lemma_div_pos_is_pos(x * c, b);
    assert(x * c >= 0) by (nonlinear_arith)
        requires
            x >= 0,
            c > 0,
    ;
}

/// The last step of a release split into `steps` equal parts:
/// `amount * i / steps` for the largest `i` in `1..steps` whose value does not
/// exceed `result`, provided the values up to it all stay within it.
pub open spec fn spec_release_step(amount: u128, result: int, steps: u128, i: int) -> bool {
    &&& 1 <= i < steps
    &&& (amount as int * i) / (steps as int) <= result
    &&& (i + 1 < steps ==> (amount as int * (i + 1)) / (steps as int) > result)
}

/// The release of tokens in steps. Returns the largest
/// `amount * i / steps` (`0 < i < steps`) that does not exceed
/// `amount * numerator / denominator`, or 0.
pub fn proportional_with_steps(amount: u128, numerator: u128, denominator: u128, steps: u128) -> (r: u128)
    requires
        proportional_fits(amount, numerator, denominator),
    ensures
        (exists|i: int| #[trigger]
            spec_release_step(amount, spec_proportional(amount, numerator, denominator), steps, i)
                && r == (amount as int * i) / (steps as int))
            || (r == 0 && (steps <= 1 || (amount as int * 1) / (steps as int) > spec_proportional(
            amount,
            numerator,
            denominator,
        ))),
{
    let mut amount_to_release: u128 = 0;
    let result = proportional(amount, numerator, denominator);
    let mut index: u128 = 1;
    let ghost mut last: int = 0;
    while index < steps
        invariant
            1 <= index,
            result == spec_proportional(amount, numerator, denominator),
            index == 1 ==> amount_to_release == 0,
            index > 1 ==> index <= steps && last == index - 1 && amount_to_release == (amount as int
                * last) / (steps as int) && amount_to_release <= result,
        decreases steps - index,
    {
        proof {
            lemma_proportional_share(amount, index, steps);
        }
        let proportion = proportional(amount, index, steps);
        if proportion <= result {
            amount_to_release = proportion;
            proof {
                last = index as int;
            }
        } else {
            proof {
                if index > 1 {
                    assert(spec_release_step(amount, result as int, steps, last));
                }
            }
            return amount_to_release;
        }
        index = index + 1;
    }
    proof {
        if index > 1 {
            assert(spec_release_step(amount, result as int, steps, last));
        }
    }
    amount_to_release
}

/// The part of `amount` released linearly between `cliff_timestamp` and
/// `end_timestamp`, at time `now`.
pub open spec fn spec_linear_release(amount: u128, cliff_timestamp: u64, end_timestamp: u64, now: u64) -> int {
    if now < cliff_timestamp {
        0
    } else if now >= end_timestamp {
        amount as int
    } else {
        spec_proportional(amount, (now - cliff_timestamp) as u128, (end_timestamp - cliff_timestamp) as u128)
    }
}

/// The part of `amount` released at time `now` when the release is linear
/// from `cliff_timestamp` (nothing) to `end_timestamp` (everything).
pub fn get_linear_release_proportion(
    amount: u128,
    cliff_timestamp: EpochMillis,
    end_timestamp: EpochMillis,
    now: EpochMillis,
) -> (r: u128)
    ensures
        r == spec_linear_release(amount, cliff_timestamp, end_timestamp, now),
        r <= amount,
{
    if now < cliff_timestamp {
        0
    } else if now >= end_timestamp {
        amount
    } else {
        let numerator = now as u128 - cliff_timestamp as u128;
        let denominator = end_timestamp as u128 - cliff_timestamp as u128;
        proof {
            lemma_proportional_share(amount, numerator, denominator);
        }
        proportional(amount, numerator, denominator)
    }
}

/// The released part never shrinks as time passes.
pub proof fn lemma_linear_release_monotonic(amount: u128, cliff: u64, end: u64, t1: u64, t2: u64)
    requires
        t1 <= t2,
    ensures
        spec_linear_release(amount, cliff, end, t1) <= spec_linear_release(amount, cliff, end, t2),
        spec_linear_release(amount, cliff, end, t2) <= amount,
{
    if t1 >= cliff && t1 < end {
        lemma_proportional_share(amount, (t1 - cliff) as u128, (end - cliff) as u128);
    }
    if t2 >= cliff && t2 < end {
        lemma_proportional_share(amount, (t2 - cliff) as u128, (end - cliff) as u128);
        let d = (end - cliff) as int;
        let a = amount as int;
        assert(a * (t1 - cliff) <= a * (t2 - cliff)) by (nonlinear_arith)
            requires
                a >= 0,
                t1 <= t2,
        ;
        if t1 >= cliff {
            vstd::arithmetic::div_mod::lemma_div_is_ordered(a * (t1 - cliff), a * (t2 - cliff), d);
        }
    }
}

/// The block timestamp (nanoseconds) in milliseconds.
pub fn get_current_epoch_millis(block_timestamp: u64) -> (r: EpochMillis)
    ensures
        r == block_timestamp / 1_000_000,
{
    block_timestamp / 1_000_000
}

/// The block timestamp (nanoseconds) divided by one second.
pub fn get_epoch_millis(block_timestamp: u64) -> (r: EpochMillis)
    ensures
        r == block_timestamp / SECOND,
{
    block_timestamp / SECOND
}

/// `-`, `_` or `.`: the separators allowed in a NEAR account id.
pub open spec fn is_account_separator(c: u8) -> bool {
    c == 45 || c == 95 || c == 46
}

/// A lower-case letter, a digit or a separator.
pub open spec fn is_account_char(c: u8) -> bool {
    (97 <= c <= 122) || (48 <= c <= 57) || is_account_separator(c)
}

/// A well-formed NEAR account id: 2 to 64 bytes of lower-case letters, digits
/// and separators, with no separator first, last, or next to another one.
pub open spec fn spec_valid_account_id(s: Seq<u8>) -> bool {
    &&& 2 <= s.len() <= 64
    &&& forall|i: int| 0 <= i < s.len() ==> is_account_char(#[trigger] s[i])
    &&& !is_account_separator(s[0])
    &&& !is_account_separator(s.last())
    &&& forall|i: int|
        0 <= i < s.len() - 1 ==> !(is_account_separator(#[trigger] s[i]) && is_account_separator(
            s[i + 1],
        ))
}

/// Calls `near_sdk::env::is_valid_account_id`, which accepts exactly the
/// byte strings of `spec_valid_account_id` (length between 2 and 64, and the
/// pattern `^(([a-z\d]+[-_])*[a-z\d]+\.)*([a-z\d]+[-_])*[a-z\d]+$`).
#[verifier::external_body]
fn is_valid_account_id(account_id: &[u8]) -> (r: bool)
    ensures
        r == spec_valid_account_id(account_id@),
{
    near_sdk::env::is_valid_account_id(account_id)
}

/// The string that a JSON text holds, when the text is one JSON string.
pub uninterp spec fn json_string(text: Seq<char>) -> Option<Seq<char>>;

/// Characters that stand for themselves inside a JSON string: no double
/// quote, no backslash and no control character.
pub open spec fn plain_json_chars(s: Seq<char>) -> bool {
    forall|i: int| 0 <= i < s.len() ==> {
        &&& #[trigger] s[i] != '\u{22}'
        &&& s[i] != '\\'
        &&& (s[i] as int) >= 32
    }
}

/// A double quote, plain characters and a double quote.
pub open spec fn plain_json_string(t: Seq<char>) -> bool {
    &&& t.len() >= 2
    &&& t[0] == '\u{22}'
    &&& t[t.len() - 1] == '\u{22}'
    &&& plain_json_chars(t.subrange(1, t.len() - 1))
}

/// Calls `near_sdk::serde_json::from_str::<String>`: the string that the JSON
/// text holds, with its escapes resolved, is whatever that parse gives, a
/// function of the text alone, and `None` when the parse fails. A text that
/// is a double quote, plain characters and a double quote holds those
/// characters (the parser copies every byte up to the closing quote that is
/// neither a quote, a backslash nor a control character).
#[verifier::external_body]
fn parse_json_string(text: &str) -> (r: Option<String>)
    ensures
        match r {
            Some(s) => json_string(text@) == Some(s@),
            None => json_string(text@) is None,
        },
        plain_json_string(text@) ==> r is Some,
        r matches Some(s) ==> (plain_json_string(text@) ==> s@ == text@.subrange(1, text@.len() - 1)),
{
    near_sdk::serde_json::from_str::<String>(text).ok()
}

/// `s` between two double quotes: the JSON text of a string written as `s`.
pub open spec fn json_quoted(s: Seq<char>) -> Seq<char> {
    seq!['\u{22}'] + s + seq!['\u{22}']
}

fn quote(s: &str) -> (r: String)
    ensures
        r@ == json_quoted(s@),
{
    let mut r = String::from_str("\"");
    r.append(s);
    r.append("\"");
    proof {
        reveal_strlit("\"");
    }
    assert(r@ =~= json_quoted(s@));
    r
}

/// The account id that `account_id` names when read as the content of a JSON
/// string, if the text parses and the string is a valid account id.
pub open spec fn spec_account_from_json(account_id: Seq<char>) -> Option<Seq<char>> {
    match json_string(json_quoted(account_id)) {
        Some(s) => if spec_valid_account_id(vstd::utf8::encode_utf8(s)) {
            Some(s)
        } else {
            None
        },
        None => None,
    }
}

/// The account that receives a transfer addressed to `account_id`.
pub open spec fn account_receiver(account_id: Seq<char>) -> Seq<char> {
    spec_account_from_json(account_id).unwrap()
}

/// Checks the string read from a JSON account id: a valid account id is
/// handed back, anything else is refused.
pub fn check_account_id(parsed: Option<String>) -> (r: Result<String, KatherineError>)
    ensures
        match r {
            Ok(id) => parsed matches Some(s) && id@ == s@ && spec_valid_account_id(vstd::utf8::encode_utf8(s@)),
            Err(e) => e == KatherineError::InvalidAccountId && !(parsed matches Some(s) && spec_valid_account_id(
                vstd::utf8::encode_utf8(s@),
            )),
        },
{
    match parsed {
        Some(s) => if is_valid_account_id(s.as_str().as_bytes()) {
            Ok(s)
        } else {
            Err(KatherineError::InvalidAccountId)
        },
        None => Err(KatherineError::InvalidAccountId),
    }
}

/// Reads `account_id` as the content of a JSON string and checks that it is a
/// valid NEAR account id. An id of plain characters reads as itself.
pub fn convert_to_valid_account_id(account_id: String) -> (r: Result<String, KatherineError>)
    ensures
        match r {
            Ok(id) => spec_account_from_json(account_id@) == Some(id@),
            Err(e) => e == KatherineError::InvalidAccountId && spec_account_from_json(account_id@) is None,
        },
        plain_json_chars(account_id@) ==> json_string(json_quoted(account_id@)) == Some(account_id@),
{
    let text = quote(account_id.as_str());
    proof {
        assert(text@.subrange(1, text@.len() - 1) =~= account_id@);
    }
    check_account_id(parse_json_string(text.as_str()))
}

/// The amount that a JSON reply holds as a decimal string (the form of
/// near_sdk's `U128`), if it holds one.
pub uninterp spec fn json_u128(bytes: Seq<u8>) -> Option<u128>;

/// Calls `near_sdk::serde_json::from_slice::<near_sdk::json_types::U128>` on
/// the bytes of a reply: the amount is whatever that parse gives, a function
/// of the bytes alone, and `None` when the parse fails.
#[verifier::external_body]
pub(crate) fn parse_json_u128(bytes: &[u8]) -> (r: Option<u128>)
    ensures
        r == json_u128(bytes@),
{
    near_sdk::serde_json::from_slice::<near_sdk::json_types::U128>(bytes).ok().map(|p| p.0)
}

/// `s` ends with `suffix`.
pub open spec fn spec_ends_with(s: Seq<char>, suffix: Seq<char>) -> bool {
    suffix.len() <= s.len() && s.subrange(s.len() - suffix.len(), s.len() as int) == suffix
}

pub fn ends_with(s: &str, suffix: &str) -> (r: bool)
    ensures
        r == spec_ends_with(s@, suffix@),
{
    let n = s.unicode_len();
    let m = suffix.unicode_len();
    if m > n {
        return false;
    }
    let mut i: usize = 0;
    while i < m
        invariant
            n == s@.len(),
            m == suffix@.len(),
            m <= n,
            i <= m,
            forall|j: int| 0 <= j < i ==> s@[n - m + j] == suffix@[j],
        decreases m - i,
    {
        if s.get_char(n - m + i) != suffix.get_char(i) {
            assert(s@.subrange(n - m, n as int)[i as int] != suffix@[i as int]);
            return false;
        }
        i = i + 1;
    }
    assert(s@.subrange(n - m, n as int) =~= suffix@);
    true
}

/// The value of a string of decimal digits.
pub open spec fn digits_value(s: Seq<char>) -> int
    decreases s.len(),
{
    if s.len() == 0 {
        0
    } else {
        digits_value(s.drop_last()) * 10 + (s.last() as int - 48)
    }
}

pub open spec fn all_digits(s: Seq<char>) -> bool {
    forall|i: int| 0 <= i < s.len() ==> '0' <= #[trigger] s[i] <= '9'
}

/// A decimal `u32` as Rust's `str::parse::<u32>` reads it: an optional `+`,
/// then at least one digit, and a value that fits in 32 bits.
pub open spec fn spec_parse_u32(s: Seq<char>) -> Option<u32> {
    let d = if s.len() > 0 && s[0] == '+' { s.subrange(1, s.len() as int) } else { s };
    if d.len() > 0 && all_digits(d) && digits_value(d) <= u32::MAX {
        Some(digits_value(d) as u32)
    } else {
        None
    }
}

proof fn lemma_digits_value_grows(s: Seq<char>, k: int)
    requires
        all_digits(s),
        0 <= k <= s.len(),
    ensures
        0 <= digits_value(s.subrange(0, k)) <= digits_value(s),
    decreases s.len() - k,
{
    if k < s.len() {
        lemma_digits_value_grows(s, k + 1);
        let t = s.subrange(0, k + 1);
        assert(t.drop_last() =~= s.subrange(0, k));
        assert(all_digits(t));
    } else {
        assert(s.subrange(0, k) =~= s);
    }
    lemma_digits_value_nonneg(s.subrange(0, k));
}

proof fn lemma_digits_value_nonneg(s: Seq<char>)
    requires
        all_digits(s),
    ensures
        digits_value(s) >= 0,
    decreases s.len(),
{
    if s.len() > 0 {
        assert(all_digits(s.drop_last()));
        lemma_digits_value_nonneg(s.drop_last());
    }
}

/// Reads a decimal `u32` the way `str::parse::<u32>` does.
pub fn parse_u32(s: &str) -> (r: Option<u32>)
    ensures
        r == spec_parse_u32(s@),
{
    let n = s.unicode_len();
    let mut start: usize = 0;
    if n > 0 && s.get_char(0) == '+' {
        start = 1;
    }
    let ghost d = if s@.len() > 0 && s@[0] == '+' { s@.subrange(1, s@.len() as int) } else { s@ };
    assert(d =~= s@.subrange(start as int, n as int));
    assert(spec_parse_u32(s@) == (if d.len() > 0 && all_digits(d) && digits_value(d) <= u32::MAX {
        Some(digits_value(d) as u32)
    } else {
        None
    }));
    if start == n {
        return None;
    }
    let mut acc: u64 = 0;
    let mut i: usize = start;
    while i < n
        invariant
            n == s@.len(),
            start <= i <= n,
            start < n,
            d =~= s@.subrange(start as int, n as int),
            spec_parse_u32(s@) == (if d.len() > 0 && all_digits(d) && digits_value(d) <= u32::MAX {
                Some(digits_value(d) as u32)
            } else {
                None
            }),
            all_digits(s@.subrange(start as int, i as int)),
            acc == digits_value(s@.subrange(start as int, i as int)),
            acc <= u32::MAX,
        decreases n - i,
    {
        let c = s.get_char(i);
        if c < '0' || c > '9' {
            assert(d[i - start] == c);
            assert(!all_digits(d));
            return None;
        }
        let digit = (c as u32 - '0' as u32) as u64;
        let ghost pre = s@.subrange(start as int, i as int);
        let ghost next = s@.subrange(start as int, i + 1);
        assert(next.drop_last() =~= pre);
        assert(next.last() == c);
        acc = acc * 10 + digit;
        assert(all_digits(next)) by {
            assert forall|j: int| 0 <= j < next.len() implies '0' <= #[trigger] next[j] <= '9' by {
                if j < pre.len() {
                    assert(next[j] == pre[j]);
                }
            }
        }
        if acc > u32::MAX as u64 {
            proof {
                assert(digits_value(next) == digits_value(pre) * 10 + (c as int - 48));
                assert(acc == digits_value(next));
                if all_digits(d) {
                    assert(next =~= d.subrange(0, i + 1 - start));
                    lemma_digits_value_grows(d, i + 1 - start);
                    assert(digits_value(d) > u32::MAX);
                }
            }
            return None;
        }
        i = i + 1;
    }
    Some(acc as u32)
}

/// The character of the decimal digit `d`.
pub open spec fn digit_char(d: nat) -> char {
    if d == 0 {
        '0'
    } else if d == 1 {
        '1'
    } else if d == 2 {
        '2'
    } else if d == 3 {
        '3'
    } else if d == 4 {
        '4'
    } else if d == 5 {
        '5'
    } else if d == 6 {
        '6'
    } else if d == 7 {
        '7'
    } else if d == 8 {
        '8'
    } else {
        '9'
    }
}

/// `n` written in decimal, without leading zeros.
pub open spec fn decimal(n: nat) -> Seq<char>
    decreases n,
{
    if n < 10 {
        seq![digit_char(n)]
    } else {
        decimal(n / 10).push(digit_char(n % 10))
    }
}

fn digit_str(d: u128) -> (r: &'static str)
    requires
        d < 10,
    ensures
        r@ == seq![digit_char(d as nat)],
{
    if d == 0 {
        proof { reveal_strlit("0"); }
        assert("0"@ =~= seq!['0']);
        "0"
    } else if d == 1 {
        proof { reveal_strlit("1"); }
        assert("1"@ =~= seq!['1']);
        "1"
    } else if d == 2 {
        proof { reveal_strlit("2"); }
        assert("2"@ =~= seq!['2']);
        "2"
    } else if d == 3 {
        proof { reveal_strlit("3"); }
        assert("3"@ =~= seq!['3']);
        "3"
    } else if d == 4 {
        proof { reveal_strlit("4"); }
        assert("4"@ =~= seq!['4']);
        "4"
    } else if d == 5 {
        proof { reveal_strlit("5"); }
        assert("5"@ =~= seq!['5']);
        "5"
    } else if d == 6 {
        proof { reveal_strlit("6"); }
        assert("6"@ =~= seq!['6']);
        "6"
    } else if d == 7 {
        proof { reveal_strlit("7"); }
        assert("7"@ =~= seq!['7']);
        "7"
    } else if d == 8 {
        proof { reveal_strlit("8"); }
        assert("8"@ =~= seq!['8']);
        "8"
    } else {
        proof { reveal_strlit("9"); }
        assert("9"@ =~= seq!['9']);
        "9"
    }
}

/// `n` written in decimal.
pub fn decimal_string(n: u128) -> (r: String)
    ensures
        r@ == decimal(n as nat),
    decreases n,
{
    if n < 10 {
        String::from_str(digit_str(n))
    } else {
        let mut r = decimal_string(n / 10);
        r.append(digit_str(n % 10));
        r
    }
}

} // verus!
