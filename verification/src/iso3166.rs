//! ISO 3166-1 country codes: the assignment table, case normalization, and
//! the resolution of alpha-2 or alpha-3 input to a canonical alpha-3 code.

use vstd::prelude::*;
use vstd::string::StrSliceExecFns;

use crate::models::CheckError;

verus! {

/// One row of the ISO 3166-1 assignment table: the alpha-2 code and the
/// alpha-3 code of the same country.
#[derive(Clone, Copy)]
pub struct IsoEntry {
    pub a2: (char, char),
    pub a3: (char, char, char),
}

/// A canonical alpha-3 country code, held as its three (uppercase) characters.
#[derive(Clone, Copy, PartialEq, Eq, Structural, Debug)]
pub struct CountryCode {
    pub c0: char,
    pub c1: char,
    pub c2: char,
}

impl View for CountryCode {
    type V = Seq<char>;

    open spec fn view(&self) -> Seq<char> {
        seq![self.c0, self.c1, self.c2]
    }
}

/// Uppercases one ASCII letter; every other character is left unchanged.
pub open spec fn spec_upper_char(c: char) -> char {
    match c {
        'a' => 'A',
        'b' => 'B',
        'c' => 'C',
        'd' => 'D',
        'e' => 'E',
        'f' => 'F',
        'g' => 'G',
        'h' => 'H',
        'i' => 'I',
        'j' => 'J',
        'k' => 'K',
        'l' => 'L',
        'm' => 'M',
        'n' => 'N',
        'o' => 'O',
        'p' => 'P',
        'q' => 'Q',
        'r' => 'R',
        's' => 'S',
        't' => 'T',
        'u' => 'U',
        'v' => 'V',
        'w' => 'W',
        'x' => 'X',
        'y' => 'Y',
        'z' => 'Z',
        _ => c,
    }
}

/// Uppercases every character of a code.
pub open spec fn spec_upper(s: Seq<char>) -> Seq<char> {
    s.map_values(|c: char| spec_upper_char(c))
}

pub fn upper_char(c: char) -> (r: char)
    ensures
        r == spec_upper_char(c),
{
    match c {
        'a' => 'A',
        'b' => 'B',
        'c' => 'C',
        'd' => 'D',
        'e' => 'E',
        'f' => 'F',
        'g' => 'G',
        'h' => 'H',
        'i' => 'I',
        'j' => 'J',
        'k' => 'K',
        'l' => 'L',
        'm' => 'M',
        'n' => 'N',
        'o' => 'O',
        'p' => 'P',
        'q' => 'Q',
        'r' => 'R',
        's' => 'S',
        't' => 'T',
        'u' => 'U',
        'v' => 'V',
        'w' => 'W',
        'x' => 'X',
        'y' => 'Y',
        'z' => 'Z',
        _ => c,
    }
}

/// Table rows whose alpha-2 code starts with 'A'.
pub open spec fn entries_a() -> Seq<IsoEntry> {
    seq![
        IsoEntry { a2: ('A', 'D'), a3: ('A', 'N', 'D') },
        IsoEntry { a2: ('A', 'E'), a3: ('A', 'R', 'E') },
        IsoEntry { a2: ('A', 'F'), a3: ('A', 'F', 'G') },
        IsoEntry { a2: ('A', 'G'), a3: ('A', 'T', 'G') },
        IsoEntry { a2: ('A', 'I'), a3: ('A', 'I', 'A') },
        IsoEntry { a2: ('A', 'L'), a3: ('A', 'L', 'B') },
        IsoEntry { a2: ('A', 'M'), a3: ('A', 'R', 'M') },
        IsoEntry { a2: ('A', 'O'), a3: ('A', 'G', 'O') },
        IsoEntry { a2: ('A', 'Q'), a3: ('A', 'T', 'A') },
        IsoEntry { a2: ('A', 'R'), a3: ('A', 'R', 'G') },
        IsoEntry { a2: ('A', 'S'), a3: ('A', 'S', 'M') },
        IsoEntry { a2: ('A', 'T'), a3: ('A', 'U', 'T') },
        IsoEntry { a2: ('A', 'U'), a3: ('A', 'U', 'S') },
        IsoEntry { a2: ('A', 'W'), a3: ('A', 'B', 'W') },
        IsoEntry { a2: ('A', 'X'), a3: ('A', 'L', 'A') },
        IsoEntry { a2: ('A', 'Z'), a3: ('A', 'Z', 'E') },
    ]
}

fn push_entries_a(v: &mut Vec<IsoEntry>)
    ensures
        final(v)@ == old(v)@ + entries_a(),
{
    v.push(IsoEntry { a2: ('A', 'D'), a3: ('A', 'N', 'D') });
    v.push(IsoEntry { a2: ('A', 'E'), a3: ('A', 'R', 'E') });
    v.push(IsoEntry { a2: ('A', 'F'), a3: ('A', 'F', 'G') });
    v.push(IsoEntry { a2: ('A', 'G'), a3: ('A', 'T', 'G') });
    v.push(IsoEntry { a2: ('A', 'I'), a3: ('A', 'I', 'A') });
    v.push(IsoEntry { a2: ('A', 'L'), a3: ('A', 'L', 'B') });
    v.push(IsoEntry { a2: ('A', 'M'), a3: ('A', 'R', 'M') });
    v.push(IsoEntry { a2: ('A', 'O'), a3: ('A', 'G', 'O') });
    v.push(IsoEntry { a2: ('A', 'Q'), a3: ('A', 'T', 'A') });
    v.push(IsoEntry { a2: ('A', 'R'), a3: ('A', 'R', 'G') });
    v.push(IsoEntry { a2: ('A', 'S'), a3: ('A', 'S', 'M') });
    v.push(IsoEntry { a2: ('A', 'T'), a3: ('A', 'U', 'T') });
    v.push(IsoEntry { a2: ('A', 'U'), a3: ('A', 'U', 'S') });
    v.push(IsoEntry { a2: ('A', 'W'), a3: ('A', 'B', 'W') });
    v.push(IsoEntry { a2: ('A', 'X'), a3: ('A', 'L', 'A') });
    v.push(IsoEntry { a2: ('A', 'Z'), a3: ('A', 'Z', 'E') });
    proof {
        assert(v@ =~= old(v)@ + entries_a());
    }
}

/// Table rows whose alpha-2 code starts with 'B'.
pub open spec fn entries_b() -> Seq<IsoEntry> {
    seq![
        IsoEntry { a2: ('B', 'A'), a3: ('B', 'I', 'H') },
        IsoEntry { a2: ('B', 'B'), a3: ('B', 'R', 'B') },
        IsoEntry { a2: ('B', 'D'), a3: ('B', 'G', 'D') },
        IsoEntry { a2: ('B', 'E'), a3: ('B', 'E', 'L') },
        IsoEntry { a2: ('B', 'F'), a3: ('B', 'F', 'A') },
        IsoEntry { a2: ('B', 'G'), a3: ('B', 'G', 'R') },
        IsoEntry { a2: ('B', 'H'), a3: ('B', 'H', 'R') },
        IsoEntry { a2: ('B', 'I'), a3: ('B', 'D', 'I') },
        IsoEntry { a2: ('B', 'J'), a3: ('B', 'E', 'N') },
        IsoEntry { a2: ('B', 'L'), a3: ('B', 'L', 'M') },
        IsoEntry { a2: ('B', 'M'), a3: ('B', 'M', 'U') },
        IsoEntry { a2: ('B', 'N'), a3: ('B', 'R', 'N') },
        IsoEntry { a2: ('B', 'O'), a3: ('B', 'O', 'L') },
        IsoEntry { a2: ('B', 'Q'), a3: ('B', 'E', 'S') },
        IsoEntry { a2: ('B', 'R'), a3: ('B', 'R', 'A') },
        IsoEntry { a2: ('B', 'S'), a3: ('B', 'H', 'S') },
        IsoEntry { a2: ('B', 'T'), a3: ('B', 'T', 'N') },
        IsoEntry { a2: ('B', 'V'), a3: ('B', 'V', 'T') },
        IsoEntry { a2: ('B', 'W'), a3: ('B', 'W', 'A') },
        IsoEntry { a2: ('B', 'Y'), a3: ('B', 'L', 'R') },
        IsoEntry { a2: ('B', 'Z'), a3: ('B', 'L', 'Z') },
    ]
}

fn push_entries_b(v: &mut Vec<IsoEntry>)
    ensures
        final(v)@ == old(v)@ + entries_b(),
{
    v.push(IsoEntry { a2: ('B', 'A'), a3: ('B', 'I', 'H') });
    v.push(IsoEntry { a2: ('B', 'B'), a3: ('B', 'R', 'B') });
    v.push(IsoEntry { a2: ('B', 'D'), a3: ('B', 'G', 'D') });
    v.push(IsoEntry { a2: ('B', 'E'), a3: ('B', 'E', 'L') });
    v.push(IsoEntry { a2: ('B', 'F'), a3: ('B', 'F', 'A') });
    v.push(IsoEntry { a2: ('B', 'G'), a3: ('B', 'G', 'R') });
    v.push(IsoEntry { a2: ('B', 'H'), a3: ('B', 'H', 'R') });
    v.push(IsoEntry { a2: ('B', 'I'), a3: ('B', 'D', 'I') });
    v.push(IsoEntry { a2: ('B', 'J'), a3: ('B', 'E', 'N') });
    v.push(IsoEntry { a2: ('B', 'L'), a3: ('B', 'L', 'M') });
    v.push(IsoEntry { a2: ('B', 'M'), a3: ('B', 'M', 'U') });
    v.push(IsoEntry { a2: ('B', 'N'), a3: ('B', 'R', 'N') });
    v.push(IsoEntry { a2: ('B', 'O'), a3: ('B', 'O', 'L') });
    v.push(IsoEntry { a2: ('B', 'Q'), a3: ('B', 'E', 'S') });
    v.push(IsoEntry { a2: ('B', 'R'), a3: ('B', 'R', 'A') });
    v.push(IsoEntry { a2: ('B', 'S'), a3: ('B', 'H', 'S') });
    v.push(IsoEntry { a2: ('B', 'T'), a3: ('B', 'T', 'N') });
    v.push(IsoEntry { a2: ('B', 'V'), a3: ('B', 'V', 'T') });
    v.push(IsoEntry { a2: ('B', 'W'), a3: ('B', 'W', 'A') });
    v.push(IsoEntry { a2: ('B', 'Y'), a3: ('B', 'L', 'R') });
    v.push(IsoEntry { a2: ('B', 'Z'), a3: ('B', 'L', 'Z') });
    proof {
        assert(v@ =~= old(v)@ + entries_b());
    }
}

/// Table rows whose alpha-2 code starts with 'C'.
pub open spec fn entries_c() -> Seq<IsoEntry> {
    seq![
        IsoEntry { a2: ('C', 'A'), a3: ('C', 'A', 'N') },
        IsoEntry { a2: ('C', 'C'), a3: ('C', 'C', 'K') },
        IsoEntry { a2: ('C', 'D'), a3: ('C', 'O', 'D') },
        IsoEntry { a2: ('C', 'F'), a3: ('C', 'A', 'F') },
        IsoEntry { a2: ('C', 'G'), a3: ('C', 'O', 'G') },
        IsoEntry { a2: ('C', 'H'), a3: ('C', 'H', 'E') },
        IsoEntry { a2: ('C', 'I'), a3: ('C', 'I', 'V') },
        IsoEntry { a2: ('C', 'K'), a3: ('C', 'O', 'K') },
        IsoEntry { a2: ('C', 'L'), a3: ('C', 'H', 'L') },
        IsoEntry { a2: ('C', 'M'), a3: ('C', 'M', 'R') },
        IsoEntry { a2: ('C', 'N'), a3: ('C', 'H', 'N') },
        IsoEntry { a2: ('C', 'O'), a3: ('C', 'O', 'L') },
        IsoEntry { a2: ('C', 'R'), a3: ('C', 'R', 'I') },
        IsoEntry { a2: ('C', 'U'), a3: ('C', 'U', 'B') },
        IsoEntry { a2: ('C', 'V'), a3: ('C', 'P', 'V') },
        IsoEntry { a2: ('C', 'W'), a3: ('C', 'U', 'W') },
        IsoEntry { a2: ('C', 'X'), a3: ('C', 'X', 'R') },
        IsoEntry { a2: ('C', 'Y'), a3: ('C', 'Y', 'P') },
        IsoEntry { a2: ('C', 'Z'), a3: ('C', 'Z', 'E') },
    ]
}

fn push_entries_c(v: &mut Vec<IsoEntry>)
    ensures
        final(v)@ == old(v)@ + entries_c(),
{
    v.push(IsoEntry { a2: ('C', 'A'), a3: ('C', 'A', 'N') });
    v.push(IsoEntry { a2: ('C', 'C'), a3: ('C', 'C', 'K') });
    v.push(IsoEntry { a2: ('C', 'D'), a3: ('C', 'O', 'D') });
    v.push(IsoEntry { a2: ('C', 'F'), a3: ('C', 'A', 'F') });
    v.push(IsoEntry { a2: ('C', 'G'), a3: ('C', 'O', 'G') });
    v.push(IsoEntry { a2: ('C', 'H'), a3: ('C', 'H', 'E') });
    v.push(IsoEntry { a2: ('C', 'I'), a3: ('C', 'I', 'V') });
    v.push(IsoEntry { a2: ('C', 'K'), a3: ('C', 'O', 'K') });
    v.push(IsoEntry { a2: ('C', 'L'), a3: ('C', 'H', 'L') });
    v.push(IsoEntry { a2: ('C', 'M'), a3: ('C', 'M', 'R') });
    v.push(IsoEntry { a2: ('C', 'N'), a3: ('C', 'H', 'N') });
    v.push(IsoEntry { a2: ('C', 'O'), a3: ('C', 'O', 'L') });
    v.push(IsoEntry { a2: ('C', 'R'), a3: ('C', 'R', 'I') });
    v.push(IsoEntry { a2: ('C', 'U'), a3: ('C', 'U', 'B') });
    v.push(IsoEntry { a2: ('C', 'V'), a3: ('C', 'P', 'V') });
    v.push(IsoEntry { a2: ('C', 'W'), a3: ('C', 'U', 'W') });
    v.push(IsoEntry { a2: ('C', 'X'), a3: ('C', 'X', 'R') });
    v.push(IsoEntry { a2: ('C', 'Y'), a3: ('C', 'Y', 'P') });
    v.push(IsoEntry { a2: ('C', 'Z'), a3: ('C', 'Z', 'E') });
    proof {
        assert(v@ =~= old(v)@ + entries_c());
    }
}

/// Table rows whose alpha-2 code starts with 'D'.
pub open spec fn entries_d() -> Seq<IsoEntry> {
    seq![
        IsoEntry { a2: ('D', 'E'), a3: ('D', 'E', 'U') },
        IsoEntry { a2: ('D', 'J'), a3: ('D', 'J', 'I') },
        IsoEntry { a2: ('D', 'K'), a3: ('D', 'N', 'K') },
        IsoEntry { a2: ('D', 'M'), a3: ('D', 'M', 'A') },
        IsoEntry { a2: ('D', 'O'), a3: ('D', 'O', 'M') },
        IsoEntry { a2: ('D', 'Z'), a3: ('D', 'Z', 'A') },
    ]
}

fn push_entries_d(v: &mut Vec<IsoEntry>)
    ensures
        final(v)@ == old(v)@ + entries_d(),
{
    v.push(IsoEntry { a2: ('D', 'E'), a3: ('D', 'E', 'U') });
    v.push(IsoEntry { a2: ('D', 'J'), a3: ('D', 'J', 'I') });
    v.push(IsoEntry { a2: ('D', 'K'), a3: ('D', 'N', 'K') });
    v.push(IsoEntry { a2: ('D', 'M'), a3: ('D', 'M', 'A') });
    v.push(IsoEntry { a2: ('D', 'O'), a3: ('D', 'O', 'M') });
    v.push(IsoEntry { a2: ('D', 'Z'), a3: ('D', 'Z', 'A') });
    proof {
        assert(v@ =~= old(v)@ + entries_d());
    }
}

/// Table rows whose alpha-2 code starts with 'E'.
pub open spec fn entries_e() -> Seq<IsoEntry> {
    seq![
        IsoEntry { a2: ('E', 'C'), a3: ('E', 'C', 'U') },
        IsoEntry { a2: ('E', 'E'), a3: ('E', 'S', 'T') },
        IsoEntry { a2: ('E', 'G'), a3: ('E', 'G', 'Y') },
        IsoEntry { a2: ('E', 'H'), a3: ('E', 'S', 'H') },
        IsoEntry { a2: ('E', 'R'), a3: ('E', 'R', 'I') },
        IsoEntry { a2: ('E', 'S'), a3: ('E', 'S', 'P') },
        IsoEntry { a2: ('E', 'T'), a3: ('E', 'T', 'H') },
    ]
}

fn push_entries_e(v: &mut Vec<IsoEntry>)
    ensures
        final(v)@ == old(v)@ + entries_e(),
{
    v.push(IsoEntry { a2: ('E', 'C'), a3: ('E', 'C', 'U') });
    v.push(IsoEntry { a2: ('E', 'E'), a3: ('E', 'S', 'T') });
    v.push(IsoEntry { a2: ('E', 'G'), a3: ('E', 'G', 'Y') });
    v.push(IsoEntry { a2: ('E', 'H'), a3: ('E', 'S', 'H') });
    v.push(IsoEntry { a2: ('E', 'R'), a3: ('E', 'R', 'I') });
    v.push(IsoEntry { a2: ('E', 'S'), a3: ('E', 'S', 'P') });
    v.push(IsoEntry { a2: ('E', 'T'), a3: ('E', 'T', 'H') });
    proof {
        assert(v@ =~= old(v)@ + entries_e());
    }
}

/// Table rows whose alpha-2 code starts with 'F'.
pub open spec fn entries_f() -> Seq<IsoEntry> {
    seq![
        IsoEntry { a2: ('F', 'I'), a3: ('F', 'I', 'N') },
        IsoEntry { a2: ('F', 'J'), a3: ('F', 'J', 'I') },
        IsoEntry { a2: ('F', 'K'), a3: ('F', 'L', 'K') },
        IsoEntry { a2: ('F', 'M'), a3: ('F', 'S', 'M') },
        IsoEntry { a2: ('F', 'O'), a3: ('F', 'R', 'O') },
        IsoEntry { a2: ('F', 'R'), a3: ('F', 'R', 'A') },
    ]
}

fn push_entries_f(v: &mut Vec<IsoEntry>)
    ensures
        final(v)@ == old(v)@ + entries_f(),
{
    v.push(IsoEntry { a2: ('F', 'I'), a3: ('F', 'I', 'N') });
    v.push(IsoEntry { a2: ('F', 'J'), a3: ('F', 'J', 'I') });
    v.push(IsoEntry { a2: ('F', 'K'), a3: ('F', 'L', 'K') });
    v.push(IsoEntry { a2: ('F', 'M'), a3: ('F', 'S', 'M') });
    v.push(IsoEntry { a2: ('F', 'O'), a3: ('F', 'R', 'O') });
    v.push(IsoEntry { a2: ('F', 'R'), a3: ('F', 'R', 'A') });
    proof {
        assert(v@ =~= old(v)@ + entries_f());
    }
}

/// Table rows whose alpha-2 code starts with 'G'.
pub open spec fn entries_g() -> Seq<IsoEntry> {
    seq![
        IsoEntry { a2: ('G', 'A'), a3: ('G', 'A', 'B') },
        IsoEntry { a2: ('G', 'B'), a3: ('G', 'B', 'R') },
        IsoEntry { a2: ('G', 'D'), a3: ('G', 'R', 'D') },
        IsoEntry { a2: ('G', 'E'), a3: ('G', 'E', 'O') },
        IsoEntry { a2: ('G', 'F'), a3: ('G', 'U', 'F') },
        IsoEntry { a2: ('G', 'G'), a3: ('G', 'G', 'Y') },
        IsoEntry { a2: ('G', 'H'), a3: ('G', 'H', 'A') },
        IsoEntry { a2: ('G', 'I'), a3: ('G', 'I', 'B') },
        IsoEntry { a2: ('G', 'L'), a3: ('G', 'R', 'L') },
        IsoEntry { a2: ('G', 'M'), a3: ('G', 'M', 'B') },
        IsoEntry { a2: ('G', 'N'), a3: ('G', 'I', 'N') },
        IsoEntry { a2: ('G', 'P'), a3: ('G', 'L', 'P') },
        IsoEntry { a2: ('G', 'Q'), a3: ('G', 'N', 'Q') },
        IsoEntry { a2: ('G', 'R'), a3: ('G', 'R', 'C') },
        IsoEntry { a2: ('G', 'S'), a3: ('S', 'G', 'S') },
        IsoEntry { a2: ('G', 'T'), a3: ('G', 'T', 'M') },
        IsoEntry { a2: ('G', 'U'), a3: ('G', 'U', 'M') },
        IsoEntry { a2: ('G', 'W'), a3: ('G', 'N', 'B') },
        IsoEntry { a2: ('G', 'Y'), a3: ('G', 'U', 'Y') },
    ]
}

fn push_entries_g(v: &mut Vec<IsoEntry>)
    ensures
        final(v)@ == old(v)@ + entries_g(),
{
    v.push(IsoEntry { a2: ('G', 'A'), a3: ('G', 'A', 'B') });
    v.push(IsoEntry { a2: ('G', 'B'), a3: ('G', 'B', 'R') });
    v.push(IsoEntry { a2: ('G', 'D'), a3: ('G', 'R', 'D') });
    v.push(IsoEntry { a2: ('G', 'E'), a3: ('G', 'E', 'O') });
    v.push(IsoEntry { a2: ('G', 'F'), a3: ('G', 'U', 'F') });
    v.push(IsoEntry { a2: ('G', 'G'), a3: ('G', 'G', 'Y') });
    v.push(IsoEntry { a2: ('G', 'H'), a3: ('G', 'H', 'A') });
    v.push(IsoEntry { a2: ('G', 'I'), a3: ('G', 'I', 'B') });
    v.push(IsoEntry { a2: ('G', 'L'), a3: ('G', 'R', 'L') });
    v.push(IsoEntry { a2: ('G', 'M'), a3: ('G', 'M', 'B') });
    v.push(IsoEntry { a2: ('G', 'N'), a3: ('G', 'I', 'N') });
    v.push(IsoEntry { a2: ('G', 'P'), a3: ('G', 'L', 'P') });
    v.push(IsoEntry { a2: ('G', 'Q'), a3: ('G', 'N', 'Q') });
    v.push(IsoEntry { a2: ('G', 'R'), a3: ('G', 'R', 'C') });
    v.push(IsoEntry { a2: ('G', 'S'), a3: ('S', 'G', 'S') });
    v.push(IsoEntry { a2: ('G', 'T'), a3: ('G', 'T', 'M') });
    v.push(IsoEntry { a2: ('G', 'U'), a3: ('G', 'U', 'M') });
    v.push(IsoEntry { a2: ('G', 'W'), a3: ('G', 'N', 'B') });
    v.push(IsoEntry { a2: ('G', 'Y'), a3: ('G', 'U', 'Y') });
    proof {
        assert(v@ =~= old(v)@ + entries_g());
    }
}

/// Table rows whose alpha-2 code starts with 'H'.
pub open spec fn entries_h() -> Seq<IsoEntry> {
    seq![
        IsoEntry { a2: ('H', 'K'), a3: ('H', 'K', 'G') },
        IsoEntry { a2: ('H', 'M'), a3: ('H', 'M', 'D') },
        IsoEntry { a2: ('H', 'N'), a3: ('H', 'N', 'D') },
        IsoEntry { a2: ('H', 'R'), a3: ('H', 'R', 'V') },
        IsoEntry { a2: ('H', 'T'), a3: ('H', 'T', 'I') },
        IsoEntry { a2: ('H', 'U'), a3: ('H', 'U', 'N') },
    ]
}

fn push_entries_h(v: &mut Vec<IsoEntry>)
    ensures
        final(v)@ == old(v)@ + entries_h(),
{
    v.push(IsoEntry { a2: ('H', 'K'), a3: ('H', 'K', 'G') });
    v.push(IsoEntry { a2: ('H', 'M'), a3: ('H', 'M', 'D') });
    v.push(IsoEntry { a2: ('H', 'N'), a3: ('H', 'N', 'D') });
    v.push(IsoEntry { a2: ('H', 'R'), a3: ('H', 'R', 'V') });
    v.push(IsoEntry { a2: ('H', 'T'), a3: ('H', 'T', 'I') });
    v.push(IsoEntry { a2: ('H', 'U'), a3: ('H', 'U', 'N') });
    proof {
        assert(v@ =~= old(v)@ + entries_h());
    }
}

/// Table rows whose alpha-2 code starts with 'I'.
pub open spec fn entries_i() -> Seq<IsoEntry> {
    seq![
        IsoEntry { a2: ('I', 'D'), a3: ('I', 'D', 'N') },
        IsoEntry { a2: ('I', 'E'), a3: ('I', 'R', 'L') },
        IsoEntry { a2: ('I', 'L'), a3: ('I', 'S', 'R') },
        IsoEntry { a2: ('I', 'M'), a3: ('I', 'M', 'N') },
        IsoEntry { a2: ('I', 'N'), a3: ('I', 'N', 'D') },
        IsoEntry { a2: ('I', 'O'), a3: ('I', 'O', 'T') },
        IsoEntry { a2: ('I', 'Q'), a3: ('I', 'R', 'Q') },
        IsoEntry { a2: ('I', 'R'), a3: ('I', 'R', 'N') },
        IsoEntry { a2: ('I', 'S'), a3: ('I', 'S', 'L') },
        IsoEntry { a2: ('I', 'T'), a3: ('I', 'T', 'A') },
    ]
}

fn push_entries_i(v: &mut Vec<IsoEntry>)
    ensures
        final(v)@ == old(v)@ + entries_i(),
{
    v.push(IsoEntry { a2: ('I', 'D'), a3: ('I', 'D', 'N') });
    v.push(IsoEntry { a2: ('I', 'E'), a3: ('I', 'R', 'L') });
    v.push(IsoEntry { a2: ('I', 'L'), a3: ('I', 'S', 'R') });
    v.push(IsoEntry { a2: ('I', 'M'), a3: ('I', 'M', 'N') });
    v.push(IsoEntry { a2: ('I', 'N'), a3: ('I', 'N', 'D') });
    v.push(IsoEntry { a2: ('I', 'O'), a3: ('I', 'O', 'T') });
    v.push(IsoEntry { a2: ('I', 'Q'), a3: ('I', 'R', 'Q') });
    v.push(IsoEntry { a2: ('I', 'R'), a3: ('I', 'R', 'N') });
    v.push(IsoEntry { a2: ('I', 'S'), a3: ('I', 'S', 'L') });
    v.push(IsoEntry { a2: ('I', 'T'), a3: ('I', 'T', 'A') });
    proof {
        assert(v@ =~= old(v)@ + entries_i());
    }
}

/// Table rows whose alpha-2 code starts with 'J'.
pub open spec fn entries_j() -> Seq<IsoEntry> {
    seq![
        IsoEntry { a2: ('J', 'E'), a3: ('J', 'E', 'Y') },
        IsoEntry { a2: ('J', 'M'), a3: ('J', 'A', 'M') },
        IsoEntry { a2: ('J', 'O'), a3: ('J', 'O', 'R') },
        IsoEntry { a2: ('J', 'P'), a3: ('J', 'P', 'N') },
    ]
}

fn push_entries_j(v: &mut Vec<IsoEntry>)
    ensures
        final(v)@ == old(v)@ + entries_j(),
{
    v.push(IsoEntry { a2: ('J', 'E'), a3: ('J', 'E', 'Y') });
    v.push(IsoEntry { a2: ('J', 'M'), a3: ('J', 'A', 'M') });
    v.push(IsoEntry { a2: ('J', 'O'), a3: ('J', 'O', 'R') });
    v.push(IsoEntry { a2: ('J', 'P'), a3: ('J', 'P', 'N') });
    proof {
        assert(v@ =~= old(v)@ + entries_j());
    }
}

/// Table rows whose alpha-2 code starts with 'K'.
pub open spec fn entries_k() -> Seq<IsoEntry> {
    seq![
        IsoEntry { a2: ('K', 'E'), a3: ('K', 'E', 'N') },
        IsoEntry { a2: ('K', 'G'), a3: ('K', 'G', 'Z') },
        IsoEntry { a2: ('K', 'H'), a3: ('K', 'H', 'M') },
        IsoEntry { a2: ('K', 'I'), a3: ('K', 'I', 'R') },
        IsoEntry { a2: ('K', 'M'), a3: ('C', 'O', 'M') },
        IsoEntry { a2: ('K', 'N'), a3: ('K', 'N', 'A') },
        IsoEntry { a2: ('K', 'P'), a3: ('P', 'R', 'K') },
        IsoEntry { a2: ('K', 'R'), a3: ('K', 'O', 'R') },
        IsoEntry { a2: ('K', 'W'), a3: ('K', 'W', 'T') },
        IsoEntry { a2: ('K', 'Y'), a3: ('C', 'Y', 'M') },
        IsoEntry { a2: ('K', 'Z'), a3: ('K', 'A', 'Z') },
    ]
}

fn push_entries_k(v: &mut Vec<IsoEntry>)
    ensures
        final(v)@ == old(v)@ + entries_k(),
{
    v.push(IsoEntry { a2: ('K', 'E'), a3: ('K', 'E', 'N') });
    v.push(IsoEntry { a2: ('K', 'G'), a3: ('K', 'G', 'Z') });
    v.push(IsoEntry { a2: ('K', 'H'), a3: ('K', 'H', 'M') });
    v.push(IsoEntry { a2: ('K', 'I'), a3: ('K', 'I', 'R') });
    v.push(IsoEntry { a2: ('K', 'M'), a3: ('C', 'O', 'M') });
    v.push(IsoEntry { a2: ('K', 'N'), a3: ('K', 'N', 'A') });
    v.push(IsoEntry { a2: ('K', 'P'), a3: ('P', 'R', 'K') });
    v.push(IsoEntry { a2: ('K', 'R'), a3: ('K', 'O', 'R') });
    v.push(IsoEntry { a2: ('K', 'W'), a3: ('K', 'W', 'T') });
    v.push(IsoEntry { a2: ('K', 'Y'), a3: ('C', 'Y', 'M') });
    v.push(IsoEntry { a2: ('K', 'Z'), a3: ('K', 'A', 'Z') });
    proof {
        assert(v@ =~= old(v)@ + entries_k());
    }
}

/// Table rows whose alpha-2 code starts with 'L'.
pub open spec fn entries_l() -> Seq<IsoEntry> {
    seq![
        IsoEntry { a2: ('L', 'A'), a3: ('L', 'A', 'O') },
        IsoEntry { a2: ('L', 'B'), a3: ('L', 'B', 'N') },
        IsoEntry { a2: ('L', 'C'), a3: ('L', 'C', 'A') },
        IsoEntry { a2: ('L', 'I'), a3: ('L', 'I', 'E') },
        IsoEntry { a2: ('L', 'K'), a3: ('L', 'K', 'A') },
        IsoEntry { a2: ('L', 'R'), a3: ('L', 'B', 'R') },
        IsoEntry { a2: ('L', 'S'), a3: ('L', 'S', 'O') },
        IsoEntry { a2: ('L', 'T'), a3: ('L', 'T', 'U') },
        IsoEntry { a2: ('L', 'U'), a3: ('L', 'U', 'X') },
        IsoEntry { a2: ('L', 'V'), a3: ('L', 'V', 'A') },
        IsoEntry { a2: ('L', 'Y'), a3: ('L', 'B', 'Y') },
    ]
}

fn push_entries_l(v: &mut Vec<IsoEntry>)
    ensures
        final(v)@ == old(v)@ + entries_l(),
{
    v.push(IsoEntry { a2: ('L', 'A'), a3: ('L', 'A', 'O') });
    v.push(IsoEntry { a2: ('L', 'B'), a3: ('L', 'B', 'N') });
    v.push(IsoEntry { a2: ('L', 'C'), a3: ('L', 'C', 'A') });
    v.push(IsoEntry { a2: ('L', 'I'), a3: ('L', 'I', 'E') });
    v.push(IsoEntry { a2: ('L', 'K'), a3: ('L', 'K', 'A') });
    v.push(IsoEntry { a2: ('L', 'R'), a3: ('L', 'B', 'R') });
    v.push(IsoEntry { a2: ('L', 'S'), a3: ('L', 'S', 'O') });
    v.push(IsoEntry { a2: ('L', 'T'), a3: ('L', 'T', 'U') });
    v.push(IsoEntry { a2: ('L', 'U'), a3: ('L', 'U', 'X') });
    v.push(IsoEntry { a2: ('L', 'V'), a3: ('L', 'V', 'A') });
    v.push(IsoEntry { a2: ('L', 'Y'), a3: ('L', 'B', 'Y') });
    proof {
        assert(v@ =~= old(v)@ + entries_l());
    }
}

/// Table rows whose alpha-2 code starts with 'M'.
pub open spec fn entries_m() -> Seq<IsoEntry> {
    seq![
        IsoEntry { a2: ('M', 'A'), a3: ('M', 'A', 'R') },
        IsoEntry { a2: ('M', 'C'), a3: ('M', 'C', 'O') },
        IsoEntry { a2: ('M', 'D'), a3: ('M', 'D', 'A') },
        IsoEntry { a2: ('M', 'E'), a3: ('M', 'N', 'E') },
        IsoEntry { a2: ('M', 'F'), a3: ('M', 'A', 'F') },
        IsoEntry { a2: ('M', 'G'), a3: ('M', 'D', 'G') },
        IsoEntry { a2: ('M', 'H'), a3: ('M', 'H', 'L') },
        IsoEntry { a2: ('M', 'K'), a3: ('M', 'K', 'D') },
        IsoEntry { a2: ('M', 'L'), a3: ('M', 'L', 'I') },
        IsoEntry { a2: ('M', 'M'), a3: ('M', 'M', 'R') },
        IsoEntry { a2: ('M', 'N'), a3: ('M', 'N', 'G') },
        IsoEntry { a2: ('M', 'O'), a3: ('M', 'A', 'C') },
        IsoEntry { a2: ('M', 'P'), a3: ('M', 'N', 'P') },
        IsoEntry { a2: ('M', 'Q'), a3: ('M', 'T', 'Q') },
        IsoEntry { a2: ('M', 'R'), a3: ('M', 'R', 'T') },
        IsoEntry { a2: ('M', 'S'), a3: ('M', 'S', 'R') },
        IsoEntry { a2: ('M', 'T'), a3: ('M', 'L', 'T') },
        IsoEntry { a2: ('M', 'U'), a3: ('M', 'U', 'S') },
        IsoEntry { a2: ('M', 'V'), a3: ('M', 'D', 'V') },
        IsoEntry { a2: ('M', 'W'), a3: ('M', 'W', 'I') },
        IsoEntry { a2: ('M', 'X'), a3: ('M', 'E', 'X') },
        IsoEntry { a2: ('M', 'Y'), a3: ('M', 'Y', 'S') },
        IsoEntry { a2: ('M', 'Z'), a3: ('M', 'O', 'Z') },
    ]
}

fn push_entries_m(v: &mut Vec<IsoEntry>)
    ensures
        final(v)@ == old(v)@ + entries_m(),
{
    v.push(IsoEntry { a2: ('M', 'A'), a3: ('M', 'A', 'R') });
    v.push(IsoEntry { a2: ('M', 'C'), a3: ('M', 'C', 'O') });
    v.push(IsoEntry { a2: ('M', 'D'), a3: ('M', 'D', 'A') });
    v.push(IsoEntry { a2: ('M', 'E'), a3: ('M', 'N', 'E') });
    v.push(IsoEntry { a2: ('M', 'F'), a3: ('M', 'A', 'F') });
    v.push(IsoEntry { a2: ('M', 'G'), a3: ('M', 'D', 'G') });
    v.push(IsoEntry { a2: ('M', 'H'), a3: ('M', 'H', 'L') });
    v.push(IsoEntry { a2: ('M', 'K'), a3: ('M', 'K', 'D') });
    v.push(IsoEntry { a2: ('M', 'L'), a3: ('M', 'L', 'I') });
    v.push(IsoEntry { a2: ('M', 'M'), a3: ('M', 'M', 'R') });
    v.push(IsoEntry { a2: ('M', 'N'), a3: ('M', 'N', 'G') });
    v.push(IsoEntry { a2: ('M', 'O'), a3: ('M', 'A', 'C') });
    v.push(IsoEntry { a2: ('M', 'P'), a3: ('M', 'N', 'P') });
    v.push(IsoEntry { a2: ('M', 'Q'), a3: ('M', 'T', 'Q') });
    v.push(IsoEntry { a2: ('M', 'R'), a3: ('M', 'R', 'T') });
    v.push(IsoEntry { a2: ('M', 'S'), a3: ('M', 'S', 'R') });
    v.push(IsoEntry { a2: ('M', 'T'), a3: ('M', 'L', 'T') });
    v.push(IsoEntry { a2: ('M', 'U'), a3: ('M', 'U', 'S') });
    v.push(IsoEntry { a2: ('M', 'V'), a3: ('M', 'D', 'V') });
    v.push(IsoEntry { a2: ('M', 'W'), a3: ('M', 'W', 'I') });
    v.push(IsoEntry { a2: ('M', 'X'), a3: ('M', 'E', 'X') });
    v.push(IsoEntry { a2: ('M', 'Y'), a3: ('M', 'Y', 'S') });
    v.push(IsoEntry { a2: ('M', 'Z'), a3: ('M', 'O', 'Z') });
    proof {
        assert(v@ =~= old(v)@ + entries_m());
    }
}

/// Table rows whose alpha-2 code starts with 'N'.
pub open spec fn entries_n() -> Seq<IsoEntry> {
    seq![
        IsoEntry { a2: ('N', 'A'), a3: ('N', 'A', 'M') },
        IsoEntry { a2: ('N', 'C'), a3: ('N', 'C', 'L') },
        IsoEntry { a2: ('N', 'E'), a3: ('N', 'E', 'R') },
        IsoEntry { a2: ('N', 'F'), a3: ('N', 'F', 'K') },
        IsoEntry { a2: ('N', 'G'), a3: ('N', 'G', 'A') },
        IsoEntry { a2: ('N', 'I'), a3: ('N', 'I', 'C') },
        IsoEntry { a2: ('N', 'L'), a3: ('N', 'L', 'D') },
        IsoEntry { a2: ('N', 'O'), a3: ('N', 'O', 'R') },
        IsoEntry { a2: ('N', 'P'), a3: ('N', 'P', 'L') },
        IsoEntry { a2: ('N', 'R'), a3: ('N', 'R', 'U') },
        IsoEntry { a2: ('N', 'U'), a3: ('N', 'I', 'U') },
        IsoEntry { a2: ('N', 'Z'), a3: ('N', 'Z', 'L') },
    ]
}

fn push_entries_n(v: &mut Vec<IsoEntry>)
    ensures
        final(v)@ == old(v)@ + entries_n(),
{
    v.push(IsoEntry { a2: ('N', 'A'), a3: ('N', 'A', 'M') });
    v.push(IsoEntry { a2: ('N', 'C'), a3: ('N', 'C', 'L') });
    v.push(IsoEntry { a2: ('N', 'E'), a3: ('N', 'E', 'R') });
    v.push(IsoEntry { a2: ('N', 'F'), a3: ('N', 'F', 'K') });
    v.push(IsoEntry { a2: ('N', 'G'), a3: ('N', 'G', 'A') });
    v.push(IsoEntry { a2: ('N', 'I'), a3: ('N', 'I', 'C') });
    v.push(IsoEntry { a2: ('N', 'L'), a3: ('N', 'L', 'D') });
    v.push(IsoEntry { a2: ('N', 'O'), a3: ('N', 'O', 'R') });
    v.push(IsoEntry { a2: ('N', 'P'), a3: ('N', 'P', 'L') });
    v.push(IsoEntry { a2: ('N', 'R'), a3: ('N', 'R', 'U') });
    v.push(IsoEntry { a2: ('N', 'U'), a3: ('N', 'I', 'U') });
    v.push(IsoEntry { a2: ('N', 'Z'), a3: ('N', 'Z', 'L') });
    proof {
        assert(v@ =~= old(v)@ + entries_n());
    }
}

/// Table rows whose alpha-2 code starts with 'O'.
pub open spec fn entries_o() -> Seq<IsoEntry> {
    seq![
        IsoEntry { a2: ('O', 'M'), a3: ('O', 'M', 'N') },
    ]
}

fn push_entries_o(v: &mut Vec<IsoEntry>)
    ensures
        final(v)@ == old(v)@ + entries_o(),
{
    v.push(IsoEntry { a2: ('O', 'M'), a3: ('O', 'M', 'N') });
    proof {
        assert(v@ =~= old(v)@ + entries_o());
    }
}

/// Table rows whose alpha-2 code starts with 'P'.
pub open spec fn entries_p() -> Seq<IsoEntry> {
    seq![
        IsoEntry { a2: ('P', 'A'), a3: ('P', 'A', 'N') },
        IsoEntry { a2: ('P', 'E'), a3: ('P', 'E', 'R') },
        IsoEntry { a2: ('P', 'F'), a3: ('P', 'Y', 'F') },
        IsoEntry { a2: ('P', 'G'), a3: ('P', 'N', 'G') },
        IsoEntry { a2: ('P', 'H'), a3: ('P', 'H', 'L') },
        IsoEntry { a2: ('P', 'K'), a3: ('P', 'A', 'K') },
        IsoEntry { a2: ('P', 'L'), a3: ('P', 'O', 'L') },
        IsoEntry { a2: ('P', 'M'), a3: ('S', 'P', 'M') },
        IsoEntry { a2: ('P', 'N'), a3: ('P', 'C', 'N') },
        IsoEntry { a2: ('P', 'R'), a3: ('P', 'R', 'I') },
        IsoEntry { a2: ('P', 'S'), a3: ('P', 'S', 'E') },
        IsoEntry { a2: ('P', 'T'), a3: ('P', 'R', 'T') },
        IsoEntry { a2: ('P', 'W'), a3: ('P', 'L', 'W') },
        IsoEntry { a2: ('P', 'Y'), a3: ('P', 'R', 'Y') },
    ]
}

fn push_entries_p(v: &mut Vec<IsoEntry>)
    ensures
        final(v)@ == old(v)@ + entries_p(),
{
    v.push(IsoEntry { a2: ('P', 'A'), a3: ('P', 'A', 'N') });
    v.push(IsoEntry { a2: ('P', 'E'), a3: ('P', 'E', 'R') });
    v.push(IsoEntry { a2: ('P', 'F'), a3: ('P', 'Y', 'F') });
    v.push(IsoEntry { a2: ('P', 'G'), a3: ('P', 'N', 'G') });
    v.push(IsoEntry { a2: ('P', 'H'), a3: ('P', 'H', 'L') });
    v.push(IsoEntry { a2: ('P', 'K'), a3: ('P', 'A', 'K') });
    v.push(IsoEntry { a2: ('P', 'L'), a3: ('P', 'O', 'L') });
    v.push(IsoEntry { a2: ('P', 'M'), a3: ('S', 'P', 'M') });
    v.push(IsoEntry { a2: ('P', 'N'), a3: ('P', 'C', 'N') });
    v.push(IsoEntry { a2: ('P', 'R'), a3: ('P', 'R', 'I') });
    v.push(IsoEntry { a2: ('P', 'S'), a3: ('P', 'S', 'E') });
    v.push(IsoEntry { a2: ('P', 'T'), a3: ('P', 'R', 'T') });
    v.push(IsoEntry { a2: ('P', 'W'), a3: ('P', 'L', 'W') });
    v.push(IsoEntry { a2: ('P', 'Y'), a3: ('P', 'R', 'Y') });
    proof {
        assert(v@ =~= old(v)@ + entries_p());
    }
}

/// Table rows whose alpha-2 code starts with 'Q'.
pub open spec fn entries_q() -> Seq<IsoEntry> {
    seq![
        IsoEntry { a2: ('Q', 'A'), a3: ('Q', 'A', 'T') },
    ]
}

fn push_entries_q(v: &mut Vec<IsoEntry>)
    ensures
        final(v)@ == old(v)@ + entries_q(),
{
    v.push(IsoEntry { a2: ('Q', 'A'), a3: ('Q', 'A', 'T') });
    proof {
        assert(v@ =~= old(v)@ + entries_q());
    }
}

/// Table rows whose alpha-2 code starts with 'R'.
pub open spec fn entries_r() -> Seq<IsoEntry> {
    seq![
        IsoEntry { a2: ('R', 'E'), a3: ('R', 'E', 'U') },
        IsoEntry { a2: ('R', 'O'), a3: ('R', 'O', 'U') },
        IsoEntry { a2: ('R', 'S'), a3: ('S', 'R', 'B') },
        IsoEntry { a2: ('R', 'U'), a3: ('R', 'U', 'S') },
        IsoEntry { a2: ('R', 'W'), a3: ('R', 'W', 'A') },
    ]
}

fn push_entries_r(v: &mut Vec<IsoEntry>)
    ensures
        final(v)@ == old(v)@ + entries_r(),
{
    v.push(IsoEntry { a2: ('R', 'E'), a3: ('R', 'E', 'U') });
    v.push(IsoEntry { a2: ('R', 'O'), a3: ('R', 'O', 'U') });
    v.push(IsoEntry { a2: ('R', 'S'), a3: ('S', 'R', 'B') });
    v.push(IsoEntry { a2: ('R', 'U'), a3: ('R', 'U', 'S') });
    v.push(IsoEntry { a2: ('R', 'W'), a3: ('R', 'W', 'A') });
    proof {
        assert(v@ =~= old(v)@ + entries_r());
    }
}

/// Table rows whose alpha-2 code starts with 'S'.
pub open spec fn entries_s() -> Seq<IsoEntry> {
    seq![
        IsoEntry { a2: ('S', 'A'), a3: ('S', 'A', 'U') },
        IsoEntry { a2: ('S', 'B'), a3: ('S', 'L', 'B') },
        IsoEntry { a2: ('S', 'C'), a3: ('S', 'Y', 'C') },
        IsoEntry { a2: ('S', 'D'), a3: ('S', 'D', 'N') },
        IsoEntry { a2: ('S', 'E'), a3: ('S', 'W', 'E') },
        IsoEntry { a2: ('S', 'G'), a3: ('S', 'G', 'P') },
        IsoEntry { a2: ('S', 'H'), a3: ('S', 'H', 'N') },
        IsoEntry { a2: ('S', 'I'), a3: ('S', 'V', 'N') },
        IsoEntry { a2: ('S', 'J'), a3: ('S', 'J', 'M') },
        IsoEntry { a2: ('S', 'K'), a3: ('S', 'V', 'K') },
        IsoEntry { a2: ('S', 'L'), a3: ('S', 'L', 'E') },
        IsoEntry { a2: ('S', 'M'), a3: ('S', 'M', 'R') },
        IsoEntry { a2: ('S', 'N'), a3: ('S', 'E', 'N') },
        IsoEntry { a2: ('S', 'O'), a3: ('S', 'O', 'M') },
        IsoEntry { a2: ('S', 'R'), a3: ('S', 'U', 'R') },
        IsoEntry { a2: ('S', 'S'), a3: ('S', 'S', 'D') },
        IsoEntry { a2: ('S', 'T'), a3: ('S', 'T', 'P') },
        IsoEntry { a2: ('S', 'V'), a3: ('S', 'L', 'V') },
        IsoEntry { a2: ('S', 'X'), a3: ('S', 'X', 'M') },
        IsoEntry { a2: ('S', 'Y'), a3: ('S', 'Y', 'R') },
        IsoEntry { a2: ('S', 'Z'), a3: ('S', 'W', 'Z') },
    ]
}

fn push_entries_s(v: &mut Vec<IsoEntry>)
    ensures
        final(v)@ == old(v)@ + entries_s(),
{
    v.push(IsoEntry { a2: ('S', 'A'), a3: ('S', 'A', 'U') });
    v.push(IsoEntry { a2: ('S', 'B'), a3: ('S', 'L', 'B') });
    v.push(IsoEntry { a2: ('S', 'C'), a3: ('S', 'Y', 'C') });
    v.push(IsoEntry { a2: ('S', 'D'), a3: ('S', 'D', 'N') });
    v.push(IsoEntry { a2: ('S', 'E'), a3: ('S', 'W', 'E') });
    v.push(IsoEntry { a2: ('S', 'G'), a3: ('S', 'G', 'P') });
    v.push(IsoEntry { a2: ('S', 'H'), a3: ('S', 'H', 'N') });
    v.push(IsoEntry { a2: ('S', 'I'), a3: ('S', 'V', 'N') });
    v.push(IsoEntry { a2: ('S', 'J'), a3: ('S', 'J', 'M') });
    v.push(IsoEntry { a2: ('S', 'K'), a3: ('S', 'V', 'K') });
    v.push(IsoEntry { a2: ('S', 'L'), a3: ('S', 'L', 'E') });
    v.push(IsoEntry { a2: ('S', 'M'), a3: ('S', 'M', 'R') });
    v.push(IsoEntry { a2: ('S', 'N'), a3: ('S', 'E', 'N') });
    v.push(IsoEntry { a2: ('S', 'O'), a3: ('S', 'O', 'M') });
    v.push(IsoEntry { a2: ('S', 'R'), a3: ('S', 'U', 'R') });
    v.push(IsoEntry { a2: ('S', 'S'), a3: ('S', 'S', 'D') });
    v.push(IsoEntry { a2: ('S', 'T'), a3: ('S', 'T', 'P') });
    v.push(IsoEntry { a2: ('S', 'V'), a3: ('S', 'L', 'V') });
    v.push(IsoEntry { a2: ('S', 'X'), a3: ('S', 'X', 'M') });
    v.push(IsoEntry { a2: ('S', 'Y'), a3: ('S', 'Y', 'R') });
    v.push(IsoEntry { a2: ('S', 'Z'), a3: ('S', 'W', 'Z') });
    proof {
        assert(v@ =~= old(v)@ + entries_s());
    }
}

/// Table rows whose alpha-2 code starts with 'T'.
pub open spec fn entries_t() -> Seq<IsoEntry> {
    seq![
        IsoEntry { a2: ('T', 'C'), a3: ('T', 'C', 'A') },
        IsoEntry { a2: ('T', 'D'), a3: ('T', 'C', 'D') },
        IsoEntry { a2: ('T', 'F'), a3: ('A', 'T', 'F') },
        IsoEntry { a2: ('T', 'G'), a3: ('T', 'G', 'O') },
        IsoEntry { a2: ('T', 'H'), a3: ('T', 'H', 'A') },
        IsoEntry { a2: ('T', 'J'), a3: ('T', 'J', 'K') },
        IsoEntry { a2: ('T', 'K'), a3: ('T', 'K', 'L') },
        IsoEntry { a2: ('T', 'L'), a3: ('T', 'L', 'S') },
        IsoEntry { a2: ('T', 'M'), a3: ('T', 'K', 'M') },
        IsoEntry { a2: ('T', 'N'), a3: ('T', 'U', 'N') },
        IsoEntry { a2: ('T', 'O'), a3: ('T', 'O', 'N') },
        IsoEntry { a2: ('T', 'R'), a3: ('T', 'U', 'R') },
        IsoEntry { a2: ('T', 'T'), a3: ('T', 'T', 'O') },
        IsoEntry { a2: ('T', 'V'), a3: ('T', 'U', 'V') },
        IsoEntry { a2: ('T', 'W'), a3: ('T', 'W', 'N') },
        IsoEntry { a2: ('T', 'Z'), a3: ('T', 'Z', 'A') },
    ]
}

fn push_entries_t(v: &mut Vec<IsoEntry>)
    ensures
        final(v)@ == old(v)@ + entries_t(),
{
    v.push(IsoEntry { a2: ('T', 'C'), a3: ('T', 'C', 'A') });
    v.push(IsoEntry { a2: ('T', 'D'), a3: ('T', 'C', 'D') });
    v.push(IsoEntry { a2: ('T', 'F'), a3: ('A', 'T', 'F') });
    v.push(IsoEntry { a2: ('T', 'G'), a3: ('T', 'G', 'O') });
    v.push(IsoEntry { a2: ('T', 'H'), a3: ('T', 'H', 'A') });
    v.push(IsoEntry { a2: ('T', 'J'), a3: ('T', 'J', 'K') });
    v.push(IsoEntry { a2: ('T', 'K'), a3: ('T', 'K', 'L') });
    v.push(IsoEntry { a2: ('T', 'L'), a3: ('T', 'L', 'S') });
    v.push(IsoEntry { a2: ('T', 'M'), a3: ('T', 'K', 'M') });
    v.push(IsoEntry { a2: ('T', 'N'), a3: ('T', 'U', 'N') });
    v.push(IsoEntry { a2: ('T', 'O'), a3: ('T', 'O', 'N') });
    v.push(IsoEntry { a2: ('T', 'R'), a3: ('T', 'U', 'R') });
    v.push(IsoEntry { a2: ('T', 'T'), a3: ('T', 'T', 'O') });
    v.push(IsoEntry { a2: ('T', 'V'), a3: ('T', 'U', 'V') });
    v.push(IsoEntry { a2: ('T', 'W'), a3: ('T', 'W', 'N') });
    v.push(IsoEntry { a2: ('T', 'Z'), a3: ('T', 'Z', 'A') });
    proof {
        assert(v@ =~= old(v)@ + entries_t());
    }
}

/// Table rows whose alpha-2 code starts with 'U'.
pub open spec fn entries_u() -> Seq<IsoEntry> {
    seq![
        IsoEntry { a2: ('U', 'A'), a3: ('U', 'K', 'R') },
        IsoEntry { a2: ('U', 'G'), a3: ('U', 'G', 'A') },
        IsoEntry { a2: ('U', 'M'), a3: ('U', 'M', 'I') },
        IsoEntry { a2: ('U', 'S'), a3: ('U', 'S', 'A') },
        IsoEntry { a2: ('U', 'Y'), a3: ('U', 'R', 'Y') },
        IsoEntry { a2: ('U', 'Z'), a3: ('U', 'Z', 'B') },
    ]
}

fn push_entries_u(v: &mut Vec<IsoEntry>)
    ensures
        final(v)@ == old(v)@ + entries_u(),
{
    v.push(IsoEntry { a2: ('U', 'A'), a3: ('U', 'K', 'R') });
    v.push(IsoEntry { a2: ('U', 'G'), a3: ('U', 'G', 'A') });
    v.push(IsoEntry { a2: ('U', 'M'), a3: ('U', 'M', 'I') });
    v.push(IsoEntry { a2: ('U', 'S'), a3: ('U', 'S', 'A') });
    v.push(IsoEntry { a2: ('U', 'Y'), a3: ('U', 'R', 'Y') });
    v.push(IsoEntry { a2: ('U', 'Z'), a3: ('U', 'Z', 'B') });
    proof {
        assert(v@ =~= old(v)@ + entries_u());
    }
}

/// Table rows whose alpha-2 code starts with 'V'.
pub open spec fn entries_v() -> Seq<IsoEntry> {
    seq![
        IsoEntry { a2: ('V', 'A'), a3: ('V', 'A', 'T') },
        IsoEntry { a2: ('V', 'C'), a3: ('V', 'C', 'T') },
        IsoEntry { a2: ('V', 'E'), a3: ('V', 'E', 'N') },
        IsoEntry { a2: ('V', 'G'), a3: ('V', 'G', 'B') },
        IsoEntry { a2: ('V', 'I'), a3: ('V', 'I', 'R') },
        IsoEntry { a2: ('V', 'N'), a3: ('V', 'N', 'M') },
        IsoEntry { a2: ('V', 'U'), a3: ('V', 'U', 'T') },
    ]
}

fn push_entries_v(v: &mut Vec<IsoEntry>)
    ensures
        final(v)@ == old(v)@ + entries_v(),
{
    v.push(IsoEntry { a2: ('V', 'A'), a3: ('V', 'A', 'T') });
    v.push(IsoEntry { a2: ('V', 'C'), a3: ('V', 'C', 'T') });
    v.push(IsoEntry { a2: ('V', 'E'), a3: ('V', 'E', 'N') });
    v.push(IsoEntry { a2: ('V', 'G'), a3: ('V', 'G', 'B') });
    v.push(IsoEntry { a2: ('V', 'I'), a3: ('V', 'I', 'R') });
    v.push(IsoEntry { a2: ('V', 'N'), a3: ('V', 'N', 'M') });
    v.push(IsoEntry { a2: ('V', 'U'), a3: ('V', 'U', 'T') });
    proof {
        assert(v@ =~= old(v)@ + entries_v());
    }
}

/// Table rows whose alpha-2 code starts with 'W'.
pub open spec fn entries_w() -> Seq<IsoEntry> {
    seq![
        IsoEntry { a2: ('W', 'F'), a3: ('W', 'L', 'F') },
        IsoEntry { a2: ('W', 'S'), a3: ('W', 'S', 'M') },
    ]
}

fn push_entries_w(v: &mut Vec<IsoEntry>)
    ensures
        final(v)@ == old(v)@ + entries_w(),
{
    v.push(IsoEntry { a2: ('W', 'F'), a3: ('W', 'L', 'F') });
    v.push(IsoEntry { a2: ('W', 'S'), a3: ('W', 'S', 'M') });
    proof {
        assert(v@ =~= old(v)@ + entries_w());
    }
}

/// Table rows whose alpha-2 code starts with 'Y'.
pub open spec fn entries_y() -> Seq<IsoEntry> {
    seq![
        IsoEntry { a2: ('Y', 'E'), a3: ('Y', 'E', 'M') },
        IsoEntry { a2: ('Y', 'T'), a3: ('M', 'Y', 'T') },
    ]
}

fn push_entries_y(v: &mut Vec<IsoEntry>)
    ensures
        final(v)@ == old(v)@ + entries_y(),
{
    v.push(IsoEntry { a2: ('Y', 'E'), a3: ('Y', 'E', 'M') });
    v.push(IsoEntry { a2: ('Y', 'T'), a3: ('M', 'Y', 'T') });
    proof {
        assert(v@ =~= old(v)@ + entries_y());
    }
}

/// Table rows whose alpha-2 code starts with 'Z'.
pub open spec fn entries_z() -> Seq<IsoEntry> {
    seq![
        IsoEntry { a2: ('Z', 'A'), a3: ('Z', 'A', 'F') },
        IsoEntry { a2: ('Z', 'M'), a3: ('Z', 'M', 'B') },
        IsoEntry { a2: ('Z', 'W'), a3: ('Z', 'W', 'E') },
    ]
}

fn push_entries_z(v: &mut Vec<IsoEntry>)
    ensures
        final(v)@ == old(v)@ + entries_z(),
{
    v.push(IsoEntry { a2: ('Z', 'A'), a3: ('Z', 'A', 'F') });
    v.push(IsoEntry { a2: ('Z', 'M'), a3: ('Z', 'M', 'B') });
    v.push(IsoEntry { a2: ('Z', 'W'), a3: ('Z', 'W', 'E') });
    proof {
        assert(v@ =~= old(v)@ + entries_z());
    }
}

/// The full ISO 3166-1 assignment table.
pub open spec fn iso_table_spec() -> Seq<IsoEntry> {
    entries_a() + entries_b() + entries_c() + entries_d() + entries_e() + entries_f() + entries_g() + entries_h() + entries_i() + entries_j() + entries_k() + entries_l() + entries_m() + entries_n() + entries_o() + entries_p() + entries_q() + entries_r() + entries_s() + entries_t() + entries_u() + entries_v() + entries_w() + entries_y() + entries_z()
}

/// Builds the assignment table.
pub fn iso_table() -> (v: Vec<IsoEntry>)
    ensures
        v@ == iso_table_spec(),
{
    let mut v: Vec<IsoEntry> = Vec::new();
    push_entries_a(&mut v);
    push_entries_b(&mut v);
    push_entries_c(&mut v);
    push_entries_d(&mut v);
    push_entries_e(&mut v);
    push_entries_f(&mut v);
    push_entries_g(&mut v);
    push_entries_h(&mut v);
    push_entries_i(&mut v);
    push_entries_j(&mut v);
    push_entries_k(&mut v);
    push_entries_l(&mut v);
    push_entries_m(&mut v);
    push_entries_n(&mut v);
    push_entries_o(&mut v);
    push_entries_p(&mut v);
    push_entries_q(&mut v);
    push_entries_r(&mut v);
    push_entries_s(&mut v);
    push_entries_t(&mut v);
    push_entries_u(&mut v);
    push_entries_v(&mut v);
    push_entries_w(&mut v);
    push_entries_y(&mut v);
    push_entries_z(&mut v);
    proof {
        assert(v@ =~= iso_table_spec());
    }
    v
}

/// First table row whose alpha-2 code is `(a, b)`.
pub open spec fn spec_find_alpha2(t: Seq<IsoEntry>, a: char, b: char) -> Option<IsoEntry>
    decreases t.len(),
{
    if t.len() == 0 {
        None
    } else if t[0].a2.0 == a && t[0].a2.1 == b {
        Some(t[0])
    } else {
        spec_find_alpha2(t.drop_first(), a, b)
    }
}

/// Whether some table row carries the alpha-3 code `(a, b, c)`.
pub open spec fn spec_has_alpha3(t: Seq<IsoEntry>, a: char, b: char, c: char) -> bool
    decreases t.len(),
{
    if t.len() == 0 {
        false
    } else if t[0].a3.0 == a && t[0].a3.1 == b && t[0].a3.2 == c {
        true
    } else {
        spec_has_alpha3(t.drop_first(), a, b, c)
    }
}

fn find_alpha2(t: &Vec<IsoEntry>, a: char, b: char) -> (r: Option<IsoEntry>)
    ensures
        r == spec_find_alpha2(t@, a, b),
{
    let n = t.len();
    let mut i: usize = 0;
    proof {
        assert(t@.skip(0) =~= t@);
    }
    while i < n
        invariant
            n == t@.len(),
            i <= n,
            spec_find_alpha2(t@, a, b) == spec_find_alpha2(t@.skip(i as int), a, b),
        decreases n - i,
    {
        let e = t[i];
        proof {
            assert(t@.skip(i as int)[0] == t@[i as int]);
            assert(t@.skip(i as int).drop_first() =~= t@.skip(i as int + 1));
        }
        if e.a2.0 == a && e.a2.1 == b {
            return Some(e);
        }
        i += 1;
    }
    None
}

fn has_alpha3(t: &Vec<IsoEntry>, a: char, b: char, c: char) -> (r: bool)
    ensures
        r == spec_has_alpha3(t@, a, b, c),
{
    let n = t.len();
    let mut i: usize = 0;
    proof {
        assert(t@.skip(0) =~= t@);
    }
    while i < n
        invariant
            n == t@.len(),
            i <= n,
            spec_has_alpha3(t@, a, b, c) == spec_has_alpha3(t@.skip(i as int), a, b, c),
        decreases n - i,
    {
        let e = t[i];
        proof {
            assert(t@.skip(i as int)[0] == t@[i as int]);
            assert(t@.skip(i as int).drop_first() =~= t@.skip(i as int + 1));
        }
        if e.a3.0 == a && e.a3.1 == b && e.a3.2 == c {
            return true;
        }
        i += 1;
    }
    false
}

/// What a country-code input resolves to: `Some` of the canonical alpha-3
/// code when the uppercased input is an assigned alpha-2 or alpha-3 code,
/// `None` otherwise.
pub open spec fn spec_normalize(code: Seq<char>) -> Option<Seq<char>> {
    let u = spec_upper(code);
    if code.len() == 2 {
        match spec_find_alpha2(iso_table_spec(), u[0], u[1]) {
            Some(e) => Some(seq![e.a3.0, e.a3.1, e.a3.2]),
            None => None,
        }
    } else if code.len() == 3 {
        if spec_has_alpha3(iso_table_spec(), u[0], u[1], u[2]) {
            Some(u)
        } else {
            None
        }
    } else {
        None
    }
}

/// A canonical code: three characters, assigned as an alpha-3 code by ISO
/// 3166-1.
pub open spec fn canonical_code(s: Seq<char>) -> bool {
    s.len() == 3 && spec_has_alpha3(iso_table_spec(), s[0], s[1], s[2])
}

/// The alpha-3 code of every row found by alpha-2 lookup is itself listed in
/// the table.
pub proof fn lemma_find_alpha2_has_alpha3(t: Seq<IsoEntry>, a: char, b: char)
    requires
        spec_find_alpha2(t, a, b) is Some,
    ensures
        spec_find_alpha2(t, a, b) matches Some(e) ==> spec_has_alpha3(t, e.a3.0, e.a3.1, e.a3.2),
    decreases t.len(),
{
    if t.len() == 0 {
    } else if t[0].a2.0 == a && t[0].a2.1 == b {
    } else {
        lemma_find_alpha2_has_alpha3(t.drop_first(), a, b);
    }
}

/// Whatever an input normalizes to is a canonical code.
pub proof fn lemma_normalize_canonical(code: Seq<char>, s: Seq<char>)
    requires
        spec_normalize(code) == Some(s),
    ensures
        canonical_code(s),
{
    let u = spec_upper(code);
    if code.len() == 2 {
        lemma_find_alpha2_has_alpha3(iso_table_spec(), u[0], u[1]);
    }
}

/// Resolves a raw country-code input to its canonical alpha-3 code, accepting
/// alpha-2 and alpha-3 forms in any case; every other input is rejected as
/// malformed.
pub fn normalize_country_code(code: &str) -> (r: Result<CountryCode, CheckError>)
    ensures
        (match r {
            Ok(cc) => spec_normalize(code@) == Some(cc@),
            Err(e) => spec_normalize(code@) is None && e == CheckError::MalformedCountryCode,
        }),
{
    let n = code.unicode_len();
    if n == 2 {
        let u0 = upper_char(code.get_char(0));
        let u1 = upper_char(code.get_char(1));
        let t = iso_table();
        match find_alpha2(&t, u0, u1) {
            Some(e) => {
                let cc = CountryCode { c0: e.a3.0, c1: e.a3.1, c2: e.a3.2 };
                Ok(cc)
            },
            None => Err(CheckError::MalformedCountryCode),
        }
    } else if n == 3 {
        let u0 = upper_char(code.get_char(0));
        let u1 = upper_char(code.get_char(1));
        let u2 = upper_char(code.get_char(2));
        let t = iso_table();
        if has_alpha3(&t, u0, u1, u2) {
            let cc = CountryCode { c0: u0, c1: u1, c2: u2 };
            proof {
                assert(cc@ =~= spec_upper(code@));
            }
            Ok(cc)
        } else {
            Err(CheckError::MalformedCountryCode)
        }
    } else {
        Err(CheckError::MalformedCountryCode)
    }
}

} // verus!
