//! Period resolution: maps a human-readable period name — English or
//! Spanish, in any letter case — to a payment frequency, and gives each
//! frequency its periods-per-year count. Unknown names are reported,
//! never defaulted.

use vstd::prelude::*;
use crate::text::{chars_match_str, chars_of};

verus! {

/// A payment frequency: how many payment periods one year holds.
#[derive(Clone, Copy, PartialEq, Eq, Structural, Debug)]
pub enum Period {
    Year,
    Semester,
    Month,
    Week,
    Day,
}

/// The number of payment periods in one year for each frequency.
pub open spec fn spec_periods_per_year(p: Period) -> int {
    match p {
        Period::Year => 1,
        Period::Semester => 2,
        Period::Month => 12,
        Period::Week => 52,
        Period::Day => 365,
    }
}

impl Period {
    /// The number of payment periods in one year for this frequency.
    pub fn periods_per_year(&self) -> (n: u64)
        ensures
            n == spec_periods_per_year(*self),
    {
        match self {
            Period::Year => 1,
            Period::Semester => 2,
            Period::Month => 12,
            Period::Week => 52,
            Period::Day => 365,
        }
    }
}

/// Lower-case folding used for period-name comparison: the ASCII letters
/// fold to lower case, as do the two accented capitals that occur in the
/// Spanish period names; every other character stands as it is.
pub open spec fn fold_char(c: char) -> char {
    match c {
        'A' => 'a',
        'B' => 'b',
        'C' => 'c',
        'D' => 'd',
        'E' => 'e',
        'F' => 'f',
        'G' => 'g',
        'H' => 'h',
        'I' => 'i',
        'J' => 'j',
        'K' => 'k',
        'L' => 'l',
        'M' => 'm',
        'N' => 'n',
        'O' => 'o',
        'P' => 'p',
        'Q' => 'q',
        'R' => 'r',
        'S' => 's',
        'T' => 't',
        'U' => 'u',
        'V' => 'v',
        'W' => 'w',
        'X' => 'x',
        'Y' => 'y',
        'Z' => 'z',
        'Ñ' => 'ñ',
        'Í' => 'í',
        _ => c,
    }
}

/// A character sequence after lower-case folding.
pub open spec fn fold(s: Seq<char>) -> Seq<char> {
    s.map_values(|c: char| fold_char(c))
}

/// The period that a name denotes, or `None` for an unrecognized name.
/// Each period answers to its English and its Spanish name, compared
/// after lower-case folding.
pub open spec fn spec_resolve(token: Seq<char>) -> Option<Period> {
    let t = fold(token);
    if t == "year"@ || t == "año"@ {
        Some(Period::Year)
    } else if t == "semester"@ || t == "semestre"@ {
        Some(Period::Semester)
    } else if t == "month"@ || t == "mes"@ {
        Some(Period::Month)
    } else if t == "week"@ || t == "semana"@ {
        Some(Period::Week)
    } else if t == "day"@ || t == "día"@ {
        Some(Period::Day)
    } else {
        None
    }
}

fn fold_char_exec(c: char) -> (r: char)
    ensures
        r == fold_char(c),
{
    match c {
        'A' => 'a',
        'B' => 'b',
        'C' => 'c',
        'D' => 'd',
        'E' => 'e',
        'F' => 'f',
        'G' => 'g',
        'H' => 'h',
        'I' => 'i',
        'J' => 'j',
        'K' => 'k',
        'L' => 'l',
        'M' => 'm',
        'N' => 'n',
        'O' => 'o',
        'P' => 'p',
        'Q' => 'q',
        'R' => 'r',
        'S' => 's',
        'T' => 't',
        'U' => 'u',
        'V' => 'v',
        'W' => 'w',
        'X' => 'x',
        'Y' => 'y',
        'Z' => 'z',
        'Ñ' => 'ñ',
        'Í' => 'í',
        _ => c,
    }
}

fn fold_chars(v: &Vec<char>) -> (w: Vec<char>)
    ensures
        w@ == fold(v@),
{
    let mut w: Vec<char> = Vec::new();
    let mut i: usize = 0;
    while i < v.len()
        invariant
            i <= v@.len(),
            w@.len() == i,
            forall|j: int| 0 <= j < i ==> w@[j] == fold_char(v@[j]),
        decreases v@.len() - i,
    {
        let c = fold_char_exec(v[i]);
        w.push(c);
        i += 1;
    }
    proof {
        assert(w@ =~= fold(v@));
    }
    w
}

/// Maps a period name — English or Spanish, in any letter case — to its
/// `Period`; an unrecognized name yields `None`, never a default.
pub fn resolve(token: &str) -> (r: Option<Period>)
    ensures
        r == spec_resolve(token@),
{
    let raw = chars_of(token);
    let t = fold_chars(&raw);
    if chars_match_str(&t, "year") || chars_match_str(&t, "año") {
        Some(Period::Year)
    } else if chars_match_str(&t, "semester") || chars_match_str(&t, "semestre") {
        Some(Period::Semester)
    } else if chars_match_str(&t, "month") || chars_match_str(&t, "mes") {
        Some(Period::Month)
    } else if chars_match_str(&t, "week") || chars_match_str(&t, "semana") {
        Some(Period::Week)
    } else if chars_match_str(&t, "day") || chars_match_str(&t, "día") {
        Some(Period::Day)
    } else {
        None
    }
}

/// Resolution is case-insensitive: two names that agree after lower-case
/// folding resolve to the same period (or both to none).
pub proof fn lemma_resolve_case_insensitive(s: Seq<char>, t: Seq<char>)
    requires
        fold(s) == fold(t),
    ensures
        spec_resolve(s) == spec_resolve(t),
{
}

} // verus!
