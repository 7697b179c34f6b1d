//! Color resolution.
//!
//! Badge colors are chosen from an immutable name-to-hex table, queried by
//! ASCII-lowercase-normalized name. An absent or unresolvable name is not
//! an error: it falls back to the documented default for its segment (the
//! label and status segments have distinct defaults).
use vstd::prelude::*;
use vstd::string::StrSliceExecFns;
use vstd::string::StringExecFns;

verus! {

/// Default background color of the label segment (also the single segment
/// of a bare badge).
pub open spec fn default_label_color() -> Seq<char> {
    "#2719D1"@
}

/// Default background color of the status segment.
pub open spec fn default_status_color() -> Seq<char> {
    "#F8AA00"@
}

/// ASCII lowercase of one character; other characters are unchanged.
pub open spec fn lower_char(c: char) -> char {
    if c == 'A' {
        'a'
    } else if c == 'B' {
        'b'
    } else if c == 'C' {
        'c'
    } else if c == 'D' {
        'd'
    } else if c == 'E' {
        'e'
    } else if c == 'F' {
        'f'
    } else if c == 'G' {
        'g'
    } else if c == 'H' {
        'h'
    } else if c == 'I' {
        'i'
    } else if c == 'J' {
        'j'
    } else if c == 'K' {
        'k'
    } else if c == 'L' {
        'l'
    } else if c == 'M' {
        'm'
    } else if c == 'N' {
        'n'
    } else if c == 'O' {
        'o'
    } else if c == 'P' {
        'p'
    } else if c == 'Q' {
        'q'
    } else if c == 'R' {
        'r'
    } else if c == 'S' {
        's'
    } else if c == 'T' {
        't'
    } else if c == 'U' {
        'u'
    } else if c == 'V' {
        'v'
    } else if c == 'W' {
        'w'
    } else if c == 'X' {
        'x'
    } else if c == 'Y' {
        'y'
    } else if c == 'Z' {
        'z'
    } else {
        c
    }
}

/// ASCII lowercase of a text, character by character.
pub open spec fn spec_lower(s: Seq<char>) -> Seq<char> {
    Seq::new(s.len(), |i: int| lower_char(s[i]))
}

/// ASCII lowercase of one character.
pub fn lower_char_exec(c: char) -> (r: char)
    ensures
        r == lower_char(c),
{
    match c {
        'A' => 'a',
        'B' => 'b',
        'C' => 'c',
        'D' => 'd',
        'E' => 'e',
        'F' => 'f',
        'G' => 'g',
        'H' => 'h',
        'I' => 'i',
        'J' => 'j',
        'K' => 'k',
        'L' => 'l',
        'M' => 'm',
        'N' => 'n',
        'O' => 'o',
        'P' => 'p',
        'Q' => 'q',
        'R' => 'r',
        'S' => 's',
        'T' => 't',
        'U' => 'u',
        'V' => 'v',
        'W' => 'w',
        'X' => 'x',
        'Y' => 'y',
        'Z' => 'z',
        _ => c,
    }
}

/// Whether the ASCII-lowercased `s` equals `t` exactly.
pub fn lower_eq(s: &str, t: &str) -> (r: bool)
    ensures
        r == (spec_lower(s@) == t@),
{
    let n: usize = s.unicode_len();
    let m: usize = t.unicode_len();
    if n != m {
        proof {
            assert(spec_lower(s@).len() != t@.len());
        }
        return false;
    }
    let mut i: usize = 0;
    while i < n
        invariant
            n == s@.len(),
            n == t@.len(),
            0 <= i <= n,
            forall|j: int| 0 <= j < i ==> #[trigger] spec_lower(s@)[j] == t@[j],
        decreases n - i,
    {
        let c = lower_char_exec(s.get_char(i));
        let d = t.get_char(i);
        if c != d {
            proof {
                assert(spec_lower(s@)[i as int] != t@[i as int]);
            }
            return false;
        }
        i = i + 1;
    }
    proof {
        assert(spec_lower(s@) =~= t@);
    }
    true
}

/// The hex value the color table holds for an already-lowercased name.
pub open spec fn color_hex(n: Seq<char>) -> Option<Seq<char>> {
    if n == "blue"@ {
        Some("#007EC6"@)
    } else if n == "cyan"@ {
        Some("#00BCD4"@)
    } else if n == "green"@ {
        Some("#3FB950"@)
    } else if n == "yellow"@ {
        Some("#D4A72C"@)
    } else if n == "orange"@ {
        Some("#F0883E"@)
    } else if n == "red"@ {
        Some("#DA3633"@)
    } else if n == "pink"@ {
        Some("#DB61A2"@)
    } else if n == "purple"@ {
        Some("#8957E5"@)
    } else if n == "gray"@ {
        Some("#6E7681"@)
    } else if n == "grey"@ {
        Some("#6E7681"@)
    } else if n == "black"@ {
        Some("#24292F"@)
    } else if n == "white"@ {
        Some("#FFFFFF"@)
    } else {
        None
    }
}

/// The color a segment renders with: the table's hex for the (lowercased)
/// requested name, or the fallback when the name is absent or unresolved.
pub open spec fn spec_resolve(name: Option<Seq<char>>, fallback: Seq<char>) -> Seq<char> {
    match name {
        Option::None => fallback,
        Option::Some(n) => match color_hex(spec_lower(n)) {
            Option::Some(h) => h,
            Option::None => fallback,
        },
    }
}

/// Resolves an optional color name against the table, falling back as
/// documented. Never fails: a resolution miss yields the fallback.
pub fn resolve_color(name: &Option<String>, fallback: &str) -> (r: String)
    ensures
        r@ == spec_resolve(
            match name {
                Option::None => Option::None,
                Option::Some(n) => Option::Some(n@),
            },
            fallback@,
        ),
{
    match name {
        Option::None => String::from_str(fallback),
        Option::Some(n) => {
            let s = n.as_str();
            if lower_eq(s, "blue") {
                String::from_str("#007EC6")
            } else if lower_eq(s, "cyan") {
                String::from_str("#00BCD4")
            } else if lower_eq(s, "green") {
                String::from_str("#3FB950")
            } else if lower_eq(s, "yellow") {
                String::from_str("#D4A72C")
            } else if lower_eq(s, "orange") {
                String::from_str("#F0883E")
            } else if lower_eq(s, "red") {
                String::from_str("#DA3633")
            } else if lower_eq(s, "pink") {
                String::from_str("#DB61A2")
            } else if lower_eq(s, "purple") {
                String::from_str("#8957E5")
            } else if lower_eq(s, "gray") {
                String::from_str("#6E7681")
            } else if lower_eq(s, "grey") {
                String::from_str("#6E7681")
            } else if lower_eq(s, "black") {
                String::from_str("#24292F")
            } else if lower_eq(s, "white") {
                String::from_str("#FFFFFF")
            } else {
                String::from_str(fallback)
            }
        },
    }
}

} // verus!
