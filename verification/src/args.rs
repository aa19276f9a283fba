//! Argument model: pairs a flat token list into flag/value pairs and
//! collects the raw texts of the three parameters the calculator needs.
//!
//! The policy mirrors the command line it serves: a flag at each even
//! index takes the token after it as its value; an odd-length list has no
//! valid pairing and is malformed; a later duplicate of a flag silently
//! overwrites the earlier one; unrecognized flags are ignored. A value
//! that reads as zero — numeric reading happens outside this library, so
//! it is handed in as one flag per pair — rejects the whole list with the
//! error of its flag.

use vstd::prelude::*;
use crate::text::str_eq;

verus! {

/// One flag with the value token that followed it.
pub struct KeyValueArg {
    pub key: String,
    pub value: String,
}

/// Why a token list was rejected.
#[derive(Clone, Copy, PartialEq, Eq, Structural, Debug)]
pub enum ParseError {
    /// The token list has odd length, so no flag/value pairing exists.
    MalformedArguments,
    /// The amount value reads as zero or is not a number.
    InvalidAmount,
    /// The interest-rate value reads as zero or is not a number.
    InvalidRate,
    /// The period value reads as zero or is not a number.
    InvalidPeriod,
}

/// Splits an even-length token list into (flag, value) pairs: the flag at
/// each even index, its value at the next index, in input order.
pub fn get_kv(args: Vec<String>) -> (r: Vec<KeyValueArg>)
    requires
        args@.len() % 2 == 0,
    ensures
        r@.len() == args@.len() / 2,
        forall|i: int|
            0 <= i < r@.len() ==> r@[i].key@ == args@[2 * i]@ && r@[i].value@ == args@[2 * i
                + 1]@,
{
    let mut kv_vec: Vec<KeyValueArg> = Vec::new();
    let n = args.len() / 2;
    let mut i: usize = 0;
    while i < n
        invariant
            args@.len() % 2 == 0,
            args@.len() <= usize::MAX,
            n == args@.len() / 2,
            i <= n,
            kv_vec@.len() == i,
            forall|j: int|
                0 <= j < i ==> kv_vec@[j].key@ == args@[2 * j]@ && kv_vec@[j].value@ == args@[2 * j
                    + 1]@,
        decreases n - i,
    {
        kv_vec.push(
            KeyValueArg {
                key: args[2 * i].clone(),
                value: args[2 * i + 1].clone(),
            },
        );
        i += 1;
    }
    kv_vec
}

/// The number of complete flag/value pairs in a token list.
pub open spec fn n_pairs(tokens: Seq<String>) -> int {
    tokens.len() as int / 2
}

/// The flag of the `i`-th pair.
pub open spec fn key_at(tokens: Seq<String>, i: int) -> Seq<char> {
    tokens[2 * i]@
}

/// The value of the `i`-th pair.
pub open spec fn value_at(tokens: Seq<String>, i: int) -> Seq<char> {
    tokens[2 * i + 1]@
}

/// Whether a flag is one of the three the calculator reads.
pub open spec fn recognized_key(key: Seq<char>) -> bool {
    key == "-a"@ || key == "-i"@ || key == "-p"@
}

/// The error charged to a recognized flag whose value reads as zero.
pub open spec fn error_for_key(key: Seq<char>) -> ParseError {
    if key == "-a"@ {
        ParseError::InvalidAmount
    } else if key == "-i"@ {
        ParseError::InvalidRate
    } else {
        ParseError::InvalidPeriod
    }
}

/// Whether the `i`-th pair rejects the list: its flag is recognized and
/// its value reads as zero.
pub open spec fn pair_fails(tokens: Seq<String>, zero: Seq<bool>, i: int) -> bool {
    recognized_key(key_at(tokens, i)) && zero[i]
}

/// The error of the first failing pair at or after `i`, if any.
pub open spec fn first_failure_from(tokens: Seq<String>, zero: Seq<bool>, i: int) -> Option<
    ParseError,
>
    decreases n_pairs(tokens) - i,
{
    if i < 0 || i >= n_pairs(tokens) {
        None
    } else if pair_fails(tokens, zero, i) {
        Some(error_for_key(key_at(tokens, i)))
    } else {
        first_failure_from(tokens, zero, i + 1)
    }
}

/// The error of the first failing pair of the list, if any.
pub open spec fn first_failure(tokens: Seq<String>, zero: Seq<bool>) -> Option<ParseError> {
    first_failure_from(tokens, zero, 0)
}

/// The value of the last pair among the first `n` whose flag is `key`.
pub open spec fn last_value_upto(tokens: Seq<String>, key: Seq<char>, n: int) -> Option<Seq<char>>
    decreases n,
{
    if n <= 0 {
        None
    } else if key_at(tokens, n - 1) == key {
        Some(value_at(tokens, n - 1))
    } else {
        last_value_upto(tokens, key, n - 1)
    }
}

/// The value of the last pair whose flag is `key`, if any: the
/// last-write-wins reading of duplicate flags.
pub open spec fn last_value(tokens: Seq<String>, key: Seq<char>) -> Option<Seq<char>> {
    last_value_upto(tokens, key, n_pairs(tokens))
}

/// The raw value texts supplied for the three parameters; `None` where
/// the flag never occurred.
pub struct RawArgs {
    pub amount: Option<String>,
    pub i_rate: Option<String>,
    pub period: Option<String>,
}

proof fn lemma_flags_distinct()
    ensures
        "-a"@ != "-i"@,
        "-a"@ != "-p"@,
        "-i"@ != "-p"@,
{
    broadcast use vstd::string::group_string_axioms;

    reveal_strlit("-a");
    reveal_strlit("-i");
    reveal_strlit("-p");
    assert("-a"@[1] == 'a');
    assert("-i"@[1] == 'i');
    assert("-p"@[1] == 'p');
}

proof fn lemma_first_failure_skip(tokens: Seq<String>, zero: Seq<bool>, i: int)
    requires
        0 <= i <= n_pairs(tokens),
        forall|j: int| 0 <= j < i ==> !pair_fails(tokens, zero, j),
    ensures
        first_failure_from(tokens, zero, 0) == first_failure_from(tokens, zero, i),
    decreases i,
{
    if i > 0 {
        lemma_first_failure_skip(tokens, zero, i - 1);
        assert(first_failure_from(tokens, zero, i - 1) == first_failure_from(tokens, zero, i));
    }
}

/// Collects the raw parameter texts from a token list.
///
/// `value_is_zero` carries, for each complete pair, whether that pair's
/// value token reads as zero (or fails to read) as a number; the numeric
/// reading itself happens outside this library.
///
/// An odd-length list is malformed whatever it holds. Otherwise the first
/// pair whose recognized flag carries a zero-reading value rejects the
/// list with that flag's error; with no such pair, each parameter gets
/// the value of the last pair that supplied it.
pub fn parse_args(tokens: &Vec<String>, value_is_zero: &Vec<bool>) -> (r: Result<
    RawArgs,
    ParseError,
>)
    requires
        value_is_zero@.len() == n_pairs(tokens@),
    ensures
        tokens@.len() % 2 != 0 ==> r == Err::<RawArgs, ParseError>(ParseError::MalformedArguments),
        tokens@.len() % 2 == 0 ==> ((r is Err) <==> (first_failure(tokens@, value_is_zero@)
            is Some)),
        tokens@.len() % 2 == 0 && r is Err ==> Some(r->Err_0) == first_failure(
            tokens@,
            value_is_zero@,
        ),
        r is Ok ==> r->Ok_0.amount.deep_view() == last_value(tokens@, "-a"@),
        r is Ok ==> r->Ok_0.i_rate.deep_view() == last_value(tokens@, "-i"@),
        r is Ok ==> r->Ok_0.period.deep_view() == last_value(tokens@, "-p"@),
{
    if tokens.len() % 2 != 0 {
        return Err(ParseError::MalformedArguments);
    }
    let n = tokens.len() / 2;
    let mut amount: Option<String> = None;
    let mut i_rate: Option<String> = None;
    let mut period: Option<String> = None;
    let mut i: usize = 0;
    while i < n
        invariant
            tokens@.len() % 2 == 0,
            tokens@.len() <= usize::MAX,
            n == n_pairs(tokens@),
            value_is_zero@.len() == n,
            i <= n,
            forall|j: int| 0 <= j < i ==> !pair_fails(tokens@, value_is_zero@, j),
            amount.deep_view() == last_value_upto(tokens@, "-a"@, i as int),
            i_rate.deep_view() == last_value_upto(tokens@, "-i"@, i as int),
            period.deep_view() == last_value_upto(tokens@, "-p"@, i as int),
        decreases n - i,
    {
        proof {
            lemma_flags_distinct();
        }
        let key = &tokens[2 * i];
        let value = &tokens[2 * i + 1];
        if str_eq(key.as_str(), "-a") {
            if value_is_zero[i] {
                proof {
                    lemma_first_failure_skip(tokens@, value_is_zero@, i as int);
                }
                return Err(ParseError::InvalidAmount);
            }
            amount = Some(value.clone());
        } else if str_eq(key.as_str(), "-i") {
            if value_is_zero[i] {
                proof {
                    lemma_first_failure_skip(tokens@, value_is_zero@, i as int);
                }
                return Err(ParseError::InvalidRate);
            }
            i_rate = Some(value.clone());
        } else if str_eq(key.as_str(), "-p") {
            if value_is_zero[i] {
                proof {
                    lemma_first_failure_skip(tokens@, value_is_zero@, i as int);
                }
                return Err(ParseError::InvalidPeriod);
            }
            period = Some(value.clone());
        }
        i += 1;
    }
    proof {
        lemma_first_failure_skip(tokens@, value_is_zero@, n as int);
    }
    Ok(RawArgs { amount, i_rate, period })
}

} // verus!
