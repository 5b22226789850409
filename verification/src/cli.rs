//! Direct-connect input validation: resolving a server reference given as a
//! 1-based index or a case-insensitive name, and reading a connection-mode
//! word. All of it is decided here, before any orchestration starts.

use vstd::prelude::*;
use vstd::string::StrSliceExecFns;

use crate::config::Server;
use crate::connection::ConnectionType;

verus! {

/// Why a direct-connect reference or mode word is refused.
#[derive(Clone, Copy, Debug, PartialEq, Eq, Structural)]
pub enum CliError {
    /// A numeric reference outside `1..=len`.
    IndexOutOfRange,
    /// A name matching no configured server.
    UnknownServer,
    /// A mode word other than `rdp`, `ssh` or `both`.
    InvalidMode,
}

/// The ASCII lowercase of a character; anything but `'A'..='Z'` is itself.
pub open spec fn lower_char(c: char) -> char {
    if c == 'A' {
        'a'
    } else if c == 'B' {
        'b'
    } else if c == 'C' {
        'c'
    } else if c == 'D' {
        'd'
    } else if c == 'E' {
        'e'
    } else if c == 'F' {
        'f'
    } else if c == 'G' {
        'g'
    } else if c == 'H' {
        'h'
    } else if c == 'I' {
        'i'
    } else if c == 'J' {
        'j'
    } else if c == 'K' {
        'k'
    } else if c == 'L' {
        'l'
    } else if c == 'M' {
        'm'
    } else if c == 'N' {
        'n'
    } else if c == 'O' {
        'o'
    } else if c == 'P' {
        'p'
    } else if c == 'Q' {
        'q'
    } else if c == 'R' {
        'r'
    } else if c == 'S' {
        's'
    } else if c == 'T' {
        't'
    } else if c == 'U' {
        'u'
    } else if c == 'V' {
        'v'
    } else if c == 'W' {
        'w'
    } else if c == 'X' {
        'x'
    } else if c == 'Y' {
        'y'
    } else if c == 'Z' {
        'z'
    } else {
        c
    }
}

/// The ASCII lowercase of a text.
pub open spec fn lower_text(s: Seq<char>) -> Seq<char> {
    s.map_values(|c: char| lower_char(c))
}

fn lower_char_exec(c: char) -> (r: char)
    ensures
        r == lower_char(c),
{
    match c {
        'A' => 'a',
        'B' => 'b',
        'C' => 'c',
        'D' => 'd',
        'E' => 'e',
        'F' => 'f',
        'G' => 'g',
        'H' => 'h',
        'I' => 'i',
        'J' => 'j',
        'K' => 'k',
        'L' => 'l',
        'M' => 'm',
        'N' => 'n',
        'O' => 'o',
        'P' => 'p',
        'Q' => 'q',
        'R' => 'r',
        'S' => 's',
        'T' => 't',
        'U' => 'u',
        'V' => 'v',
        'W' => 'w',
        'X' => 'x',
        'Y' => 'y',
        'Z' => 'z',
        _ => c,
    }
}

/// Whether two texts are equal up to ASCII case.
pub fn eq_ignore_case(a: &str, b: &str) -> (r: bool)
    ensures
        r == (lower_text(a@) == lower_text(b@)),
{
    let n = a.unicode_len();
    let m = b.unicode_len();
    if n != m {
        proof {
            assert(lower_text(a@).len() != lower_text(b@).len());
        }
        return false;
    }
    let mut i: usize = 0;
    while i < n
        invariant
            n == a@.len(),
            n == b@.len(),
            0 <= i <= n,
            forall|j: int| 0 <= j < i ==> lower_char(a@[j]) == lower_char(b@[j]),
        decreases n - i,
    {
        let ca = lower_char_exec(a.get_char(i));
        let cb = lower_char_exec(b.get_char(i));
        if ca != cb {
            proof {
                assert(lower_text(a@)[i as int] != lower_text(b@)[i as int]);
            }
            return false;
        }
        i = i + 1;
    }
    proof {
        assert(lower_text(a@) =~= lower_text(b@));
    }
    true
}

/// The value of a string of decimal digits, most significant first.
pub open spec fn digits_value(s: Seq<char>) -> int
    decreases s.len(),
{
    if s.len() == 0 {
        0
    } else {
        digits_value(s.drop_last()) * 10 + (s.last() as int - '0' as int)
    }
}

/// Whether every character is a decimal digit.
pub open spec fn all_digits(s: Seq<char>) -> bool {
    forall|i: int| 0 <= i < s.len() ==> '0' <= #[trigger] s[i] <= '9'
}

proof fn lemma_digits_value_nonneg(s: Seq<char>)
    requires
        all_digits(s),
    ensures
        digits_value(s) >= 0,
    decreases s.len(),
{
    if s.len() > 0 {
        assert(forall|i: int| 0 <= i < s.len() - 1 ==> s.drop_last()[i] == s[i]);
        lemma_digits_value_nonneg(s.drop_last());
    }
}

/// The digits of a numeral: an optional leading `'+'` is dropped.
pub open spec fn numeral_digits(s: Seq<char>) -> Seq<char> {
    if s.len() > 0 && s[0] == '+' {
        s.drop_first()
    } else {
        s
    }
}

/// Whether the text reads as a number that fits a `usize`: an optional
/// leading `'+'`, then at least one decimal digit.
pub open spec fn reads_as_number(s: Seq<char>) -> bool {
    let d = numeral_digits(s);
    d.len() > 0 && all_digits(d) && digits_value(d) <= usize::MAX
}

/// Read the text as a `usize` numeral, if it is one.
pub fn parse_number(s: &str) -> (r: Option<usize>)
    ensures
        reads_as_number(s@) ==> r == Some(digits_value(numeral_digits(s@)) as usize),
        !reads_as_number(s@) ==> r is None,
{
    let n = s.unicode_len();
    let start: usize = if n > 0 && s.get_char(0) == '+' {
        1
    } else {
        0
    };
    proof {
        if start == 1 {
            assert(numeral_digits(s@) =~= s@.drop_first());
        } else {
            assert(numeral_digits(s@) =~= s@);
        }
    }
    if start >= n {
        return None;
    }
    let ghost d = numeral_digits(s@);
    let mut value: usize = 0;
    let mut over: bool = false;
    let mut i: usize = start;
    while i < n
        invariant
            n == s@.len(),
            start <= i <= n,
            start <= 1,
            d == numeral_digits(s@),
            d.len() == n - start,
            forall|j: int| 0 <= j < i - start ==> d[j] == s@[j + start],
            forall|j: int| 0 <= j < i - start ==> '0' <= #[trigger] d[j] <= '9',
            !over ==> value == digits_value(d.take(i - start)),
            over ==> digits_value(d.take(i - start)) > usize::MAX,
        decreases n - i,
    {
        let c = s.get_char(i);
        if c < '0' || c > '9' {
            proof {
                assert(d[i - start] == c);
            }
            return None;
        }
        let digit: usize = char_digit(c);
        proof {
            assert(d.take(i + 1 - start).drop_last() =~= d.take(i - start));
            assert(d.take(i + 1 - start).last() == c);
        }
        if over {
        } else if value > (usize::MAX - digit) / 10 {
            proof {
                assert(10 * value + digit > usize::MAX) by (nonlinear_arith)
                    requires
                        value > (usize::MAX - digit) / 10,
                        digit <= 9,
                ;
            }
            over = true;
        } else {
            proof {
                assert(10 * value + digit <= usize::MAX) by (nonlinear_arith)
                    requires
                        value <= (usize::MAX - digit) / 10,
                        digit <= 9,
                ;
            }
            value = value * 10 + digit;
        }
        i = i + 1;
    }
    proof {
        assert(d.take(n - start) =~= d);
    }
    if over {
        None
    } else {
        Some(value)
    }
}

fn char_digit(c: char) -> (r: usize)
    requires
        '0' <= c <= '9',
    ensures
        r == c as int - '0' as int,
        r <= 9,
{
    match c {
        '0' => 0,
        '1' => 1,
        '2' => 2,
        '3' => 3,
        '4' => 4,
        '5' => 5,
        '6' => 6,
        '7' => 7,
        '8' => 8,
        _ => 9,
    }
}

/// Resolve a server reference: a numeral is a 1-based index into the
/// catalog; anything else is a case-insensitive exact name, the first match
/// winning. Refused before orchestration starts when the index is out of
/// range or no name matches.
pub fn resolve_server(servers: &Vec<Server>, reference: &str) -> (r: Result<usize, CliError>)
    ensures
        reads_as_number(reference@) ==> {
            let v = digits_value(numeral_digits(reference@));
            &&& (1 <= v <= servers@.len() ==> r == Ok::<usize, CliError>((v - 1) as usize))
            &&& (!(1 <= v <= servers@.len()) ==> r == Err::<usize, CliError>(
                CliError::IndexOutOfRange,
            ))
        },
        !reads_as_number(reference@) ==> match r {
            Ok(i) => {
                &&& 0 <= i < servers@.len()
                &&& lower_text(servers@[i as int].name@) == lower_text(reference@)
                &&& forall|j: int| 0 <= j < i ==> lower_text(servers@[j].name@) != lower_text(
                    reference@,
                )
            },
            Err(e) => {
                &&& e == CliError::UnknownServer
                &&& forall|j: int| 0 <= j < servers@.len() ==> lower_text(servers@[j].name@)
                    != lower_text(reference@)
            },
        },
{
    match parse_number(reference) {
        Some(v) => {
            proof {
                lemma_digits_value_nonneg(numeral_digits(reference@));
            }
            if 1 <= v && v <= servers.len() {
                Ok(v - 1)
            } else {
                Err(CliError::IndexOutOfRange)
            }
        },
        None => {
            proof {
                assert(!reads_as_number(reference@));
            }
            let mut i: usize = 0;
            while i < servers.len()
                invariant
                    !reads_as_number(reference@),
                    0 <= i <= servers@.len(),
                    forall|j: int| 0 <= j < i ==> lower_text(servers@[j].name@) != lower_text(
                        reference@,
                    ),
                decreases servers@.len() - i,
            {
                if eq_ignore_case(servers[i].name.as_str(), reference) {
                    return Ok(i);
                }
                i = i + 1;
            }
            Err(CliError::UnknownServer)
        },
    }
}

/// The connection type a mode word names, up to ASCII case.
pub open spec fn mode_of_text(s: Seq<char>) -> Option<ConnectionType> {
    if lower_text(s) == "rdp"@ {
        Some(ConnectionType::Rdp)
    } else if lower_text(s) == "ssh"@ {
        Some(ConnectionType::Ssh)
    } else if lower_text(s) == "both"@ {
        Some(ConnectionType::Both)
    } else {
        None
    }
}

/// Read a connection-mode word (`rdp`, `ssh` or `both`, any case). An
/// unknown word is refused before orchestration starts.
pub fn parse_connection_type(s: &str) -> (r: Result<ConnectionType, CliError>)
    ensures
        match mode_of_text(s@) {
            Some(t) => r == Ok::<ConnectionType, CliError>(t),
            None => r == Err::<ConnectionType, CliError>(CliError::InvalidMode),
        },
{
    proof {
        reveal_strlit("rdp");
        reveal_strlit("ssh");
        reveal_strlit("both");
        assert(lower_text("rdp"@) =~= "rdp"@);
        assert(lower_text("ssh"@) =~= "ssh"@);
        assert(lower_text("both"@) =~= "both"@);
    }
    if eq_ignore_case(s, "rdp") {
        Ok(ConnectionType::Rdp)
    } else if eq_ignore_case(s, "ssh") {
        Ok(ConnectionType::Ssh)
    } else if eq_ignore_case(s, "both") {
        Ok(ConnectionType::Both)
    } else {
        Err(CliError::InvalidMode)
    }
}

} // verus!
