//! Validation and normalisation of address (house) numbers.

use vstd::prelude::*;
use crate::strings::{chars_of, lower_of, lowercase, string_of};
use crate::tokenize::{is_ws, is_ws_char};

verus! {

/// Why an address number is rejected.
#[derive(Clone, Copy, Debug, PartialEq, Eq, Structural)]
pub enum NumberError {
    /// Not one of the supported shapes.
    Unsupported,
    /// Longer than 10 characters.
    TooLong,
}

pub open spec fn is_digit(c: char) -> bool {
    '0' <= c && c <= '9'
}

pub open spec fn is_az(c: char) -> bool {
    'a' <= c && c <= 'z'
}

pub open spec fn is_dir(c: char) -> bool {
    c == 'n' || c == 'e' || c == 's' || c == 'w'
}

/// The index just past the run of digits starting at `i`.
pub open spec fn digits_end(s: Seq<char>, i: int) -> int
    decreases s.len() - i,
{
    if i < 0 || i >= s.len() || !is_digit(s[i]) {
        i
    } else {
        digits_end(s, i + 1)
    }
}

/// Whether `s` ends at `i`, or at `i + 1` after a letter.
pub open spec fn letter_tail(s: Seq<char>, i: int) -> bool {
    i == s.len() || (i == s.len() - 1 && 0 <= i && is_az(s[i]))
}

/// `123`, `123a`.
pub open spec fn plain_number(s: Seq<char>) -> bool {
    let e = digits_end(s, 0);
    e > 0 && letter_tail(s, e)
}

/// `12-34`, `12-34a`, and with a direction letter in place of the hyphen, `12n34a`.
pub open spec fn ranged_number(s: Seq<char>) -> bool {
    let e = digits_end(s, 0);
    e > 0 && e < s.len() && (s[e] == '-' || is_dir(s[e])) && digits_end(s, e + 1) > e + 1
        && letter_tail(s, digits_end(s, e + 1))
}

/// `n12`, `n12w34`.
pub open spec fn grid_number(s: Seq<char>) -> bool {
    let e = digits_end(s, 1);
    s.len() > 0 && is_dir(s[0]) && e > 1 && (e == s.len() || (is_dir(s[e]) && digits_end(s, e + 1) > e + 1
        && digits_end(s, e + 1) == s.len()))
}

/// The position after an optional `marker` followed by digits at `i`, or -1
/// when the marker is there without digits.
pub open spec fn after_part(s: Seq<char>, i: int, marker: char) -> int {
    if 0 <= i < s.len() && s[i] == marker {
        if digits_end(s, i + 1) > i + 1 {
            digits_end(s, i + 1)
        } else {
            -1
        }
    } else {
        i
    }
}

/// `12`, `12к3`, `12с4`, `12к3с4`.
pub open spec fn building_number(s: Seq<char>) -> bool {
    let e = digits_end(s, 0);
    let k = after_part(s, e, 'к');
    e > 0 && k >= 0 && after_part(s, k, 'с') == s.len()
}

pub open spec fn supported(s: Seq<char>) -> bool {
    plain_number(s) || ranged_number(s) || grid_number(s) || building_number(s)
}

/// `s` without a trailing white-space character followed by `1/2`.
pub open spec fn without_half(s: Seq<char>) -> Seq<char> {
    if s.len() >= 4 && is_ws(s[s.len() - 4]) && s.subrange(s.len() - 3, s.len() as int) == "1/2"@ {
        s.subrange(0, s.len() - 4)
    } else {
        s
    }
}

/// `123 b` written `123b`.
pub open spec fn unit_joined(s: Seq<char>) -> Seq<char> {
    let e = digits_end(s, 0);
    if e > 0 && s.len() == e + 2 && is_ws(s[e]) && is_az(s[e + 1]) {
        s.subrange(0, e).push(s[e + 1])
    } else {
        s
    }
}

/// The normalised form of an address number.
pub open spec fn normalized_number(number: Seq<char>) -> Seq<char> {
    unit_joined(without_half(lower_of(number)))
}

fn digits_end_exec(s: &Vec<char>, i: usize) -> (r: usize)
    requires
        i <= s@.len(),
    ensures
        r as int == digits_end(s@, i as int),
        i <= r <= s@.len(),
{
    let mut j = i;
    while j < s.len() && '0' <= s[j] && s[j] <= '9'
        invariant
            i <= j <= s@.len(),
            digits_end(s@, i as int) == digits_end(s@, j as int),
        decreases s@.len() - j,
    {
        j = j + 1;
    }
    j
}

fn letter_tail_exec(s: &Vec<char>, i: usize) -> (r: bool)
    requires
        i <= s@.len(),
    ensures
        r == letter_tail(s@, i as int),
{
    i == s.len() || (i + 1 == s.len() && 'a' <= s[i] && s[i] <= 'z')
}

fn is_dir_char(c: char) -> (r: bool)
    ensures
        r == is_dir(c),
{
    c == 'n' || c == 'e' || c == 's' || c == 'w'
}

fn after_part_exec(s: &Vec<char>, i: usize, marker: char) -> (r: Option<usize>)
    requires
        i <= s@.len(),
    ensures
        match r {
            Some(x) => x as int == after_part(s@, i as int, marker) && x <= s@.len(),
            None => after_part(s@, i as int, marker) == -1,
        },
{
    if i < s.len() && s[i] == marker {
        let e = digits_end_exec(s, i + 1);
        if e > i + 1 {
            Some(e)
        } else {
            None
        }
    } else {
        Some(i)
    }
}

fn supported_exec(s: &Vec<char>) -> (r: bool)
    ensures
        r == supported(s@),
{
    let e = digits_end_exec(s, 0);
    let plain = e > 0 && letter_tail_exec(s, e);
    let ranged = e > 0 && e < s.len() && (s[e] == '-' || is_dir_char(s[e])) && {
        let e2 = digits_end_exec(s, e + 1);
        e2 > e + 1 && letter_tail_exec(s, e2)
    };
    let grid = s.len() > 0 && is_dir_char(s[0]) && {
        let g = digits_end_exec(s, 1);
        g > 1 && (g == s.len() || (is_dir_char(s[g]) && {
            let g2 = digits_end_exec(s, g + 1);
            g2 > g + 1 && g2 == s.len()
        }))
    };
    let building = e > 0 && match after_part_exec(s, e, 'к') {
        None => false,
        Some(k) => match after_part_exec(s, k, 'с') {
            None => false,
            Some(z) => z == s.len(),
        },
    };
    plain || ranged || grid || building
}

/// Normalises an address number: lowercased, a trailing ` 1/2` dropped, and
/// `123 b` written `123b`. The result must be a plain number (`123`, `123a`),
/// a range (`12-34a`), a number with a direction letter (`12n34`), a grid
/// number (`n12w34`) or a building number (`12к3с4`), and at most 10 characters long.
pub fn normalize_number(number: &String) -> (r: Result<String, NumberError>)
    ensures
        match r {
            Ok(s) => s@ == normalized_number(number@) && supported(s@) && s@.len() <= 10,
            Err(NumberError::Unsupported) => !supported(normalized_number(number@)),
            Err(NumberError::TooLong) => supported(normalized_number(number@)) && normalized_number(number@).len() > 10,
        },
{
    let l = chars_of(lowercase(number.as_str()).as_str());
    let n = l.len();
    let mut h: Vec<char> = Vec::new();
    let half = n >= 4 && is_ws_char(l[n - 4]) && l[n - 3] == '1' && l[n - 2] == '/' && l[n - 1] == '2';
    proof {
        if n >= 4 {
            let t = l@.subrange(n - 3, n as int);
            assert(t == "1/2"@ <==> (t[0] == '1' && t[1] == '/' && t[2] == '2')) by {
                reveal_strlit("1/2");
                if t[0] == '1' && t[1] == '/' && t[2] == '2' {
                    assert(t =~= "1/2"@);
                }
            }
        }
    }
    let keep = if half { n - 4 } else { n };
    let mut i: usize = 0;
    while i < keep
        invariant
            keep <= l@.len(),
            i <= keep,
            h@ == l@.take(i as int),
        decreases keep - i,
    {
        h.push(l[i]);
        assert(h@ =~= l@.take(i + 1));
        i = i + 1;
    }
    assert(h@ =~= without_half(l@));
    let e = digits_end_exec(&h, 0);
    let u: Vec<char> = if e > 0 && h.len() >= 2 && e == h.len() - 2 && is_ws_char(h[e]) && 'a' <= h[e + 1] && h[e + 1] <= 'z' {
        let mut v: Vec<char> = Vec::new();
        let mut j: usize = 0;
        while j < e
            invariant
                e + 2 == h@.len(),
                j <= e,
                v@ == h@.take(j as int),
            decreases e - j,
        {
            v.push(h[j]);
            assert(v@ =~= h@.take(j + 1));
            j = j + 1;
        }
        v.push(h[e + 1]);
        assert(v@ =~= h@.subrange(0, e as int).push(h@[e + 1]));
        v
    } else {
        h
    };
    if !supported_exec(&u) {
        return Err(NumberError::Unsupported);
    }
    if u.len() > 10 {
        return Err(NumberError::TooLong);
    }
    Ok(string_of(&u))
}

} // verus!
