use vstd::prelude::*;

verus! {

/// A character that belongs to the abbreviated form of a mnemonic: an ASCII
/// uppercase letter, or `*` (common commands such as `*IDN`).
pub open spec fn is_abbrev_char(c: char) -> bool {
    ('A' <= c && c <= 'Z') || c == '*'
}

/// Length of the maximal leading run of abbreviation characters.
pub open spec fn abbrev_len(s: Seq<char>) -> nat
    decreases s.len(),
{
    if s.len() > 0 && is_abbrev_char(s[0]) {
        1 + abbrev_len(s.drop_first())
    } else {
        0
    }
}

/// The text of a mnemonic: the whole label when `verbose`, else its maximal
/// leading run of abbreviation characters.
pub open spec fn mnemonic(s: Seq<char>, verbose: bool) -> Seq<char> {
    if verbose {
        s
    } else {
        s.take(abbrev_len(s) as int)
    }
}

/// The ASCII digit for `d < 10`.
pub open spec fn digit_char(d: nat) -> char {
    ((d + 48) as u8) as char
}

/// Decimal text of a natural number, without leading zeros.
pub open spec fn decimal(n: nat) -> Seq<char>
    decreases n,
{
    if n < 10 {
        seq![digit_char(n)]
    } else {
        decimal(n / 10).push(digit_char(n % 10))
    }
}

/// Decimal text of an integer, with a `-` only when it is negative.
pub open spec fn int_text(n: int) -> Seq<char> {
    if n < 0 {
        seq!['-'] + decimal((-n) as nat)
    } else {
        decimal(n as nat)
    }
}

proof fn lemma_abbrev_len_of_prefix(s: Seq<char>, n: nat)
    requires
        n <= s.len(),
        forall|i: int| 0 <= i < n ==> is_abbrev_char(#[trigger] s[i]),
        n < s.len() ==> !is_abbrev_char(s[n as int]),
    ensures
        abbrev_len(s) == n,
    decreases s.len(),
{
    if n > 0 {
        assert(is_abbrev_char(s[0]));
        let t = s.drop_first();
        assert forall|i: int| 0 <= i < n - 1 implies is_abbrev_char(#[trigger] t[i]) by {
            assert(t[i] == s[i + 1]);
        }
        if n - 1 < t.len() {
            assert(t[n - 1] == s[n as int]);
        }
        lemma_abbrev_len_of_prefix(t, (n - 1) as nat);
    }
}

/// A label made of abbreviation characters alone reads the same in both forms.
pub proof fn lemma_all_abbrev_forms(s: Seq<char>)
    requires
        forall|i: int| 0 <= i < s.len() ==> is_abbrev_char(#[trigger] s[i]),
    ensures
        mnemonic(s, false) == s,
        mnemonic(s, true) == s,
{
    lemma_abbrev_len_of_prefix(s, s.len());
    assert(s.take(s.len() as int) =~= s);
}

/// A label that is a run `u` of abbreviation characters followed by a `rest`
/// that does not start with one has `u` as its short form and itself as its
/// long form.
pub proof fn lemma_split_forms(u: Seq<char>, rest: Seq<char>)
    requires
        forall|i: int| 0 <= i < u.len() ==> is_abbrev_char(#[trigger] u[i]),
        rest.len() > 0 ==> !is_abbrev_char(rest[0]),
    ensures
        mnemonic(u + rest, false) == u,
        mnemonic(u + rest, true) == u + rest,
{
    let s = u + rest;
    assert forall|i: int| 0 <= i < u.len() implies is_abbrev_char(#[trigger] s[i]) by {
        assert(s[i] == u[i]);
    }
    if u.len() < s.len() {
        assert(s[u.len() as int] == rest[0]);
    }
    lemma_abbrev_len_of_prefix(s, u.len());
    assert(s.take(u.len() as int) =~= u);
}

fn is_abbrev(c: char) -> (r: bool)
    ensures
        r == is_abbrev_char(c),
{
    ('A' <= c && c <= 'Z') || c == '*'
}

fn digit_str(d: u64) -> (r: &'static str)
    requires
        d < 10,
    ensures
        r@ == seq![digit_char(d as nat)],
{
    match d {
        0 => {
            proof {
                reveal_strlit("0");
            }
            "0"
        },
        1 => {
            proof {
                reveal_strlit("1");
            }
            "1"
        },
        2 => {
            proof {
                reveal_strlit("2");
            }
            "2"
        },
        3 => {
            proof {
                reveal_strlit("3");
            }
            "3"
        },
        4 => {
            proof {
                reveal_strlit("4");
            }
            "4"
        },
        5 => {
            proof {
                reveal_strlit("5");
            }
            "5"
        },
        6 => {
            proof {
                reveal_strlit("6");
            }
            "6"
        },
        7 => {
            proof {
                reveal_strlit("7");
            }
            "7"
        },
        8 => {
            proof {
                reveal_strlit("8");
            }
            "8"
        },
        _ => {
            proof {
                reveal_strlit("9");
            }
            "9"
        },
    }
}

/// Appends the decimal text of `n`.
pub(crate) fn push_decimal(out: &mut String, n: u64)
    ensures
        final(out)@ == old(out)@ + decimal(n as nat),
    decreases n,
{
    if n >= 10 {
        push_decimal(out, n / 10);
    }
    out.append(digit_str(n % 10));
    assert(decimal(n as nat) == if n < 10 { seq![digit_char(n as nat)] } else {
        decimal((n / 10) as nat).push(digit_char((n % 10) as nat))
    });
    assert(out@ =~= old(out)@ + decimal(n as nat));
}

/// Appends the decimal text of `n`, with a leading `-` when it is negative.
pub(crate) fn push_int(out: &mut String, n: isize)
    ensures
        final(out)@ == old(out)@ + int_text(n as int),
{
    if n < 0 {
        proof {
            reveal_strlit("-");
        }
        out.append("-");
        let m: i128 = -(n as i128);
        push_decimal(out, m as u64);
        assert(out@ =~= old(out)@ + int_text(n as int));
    } else {
        push_decimal(out, n as u64);
    }
}

/// The text of a mnemonic in the chosen form: the whole label when `verbose`,
/// else its maximal leading run of ASCII uppercase letters and `*`.
pub fn pretty_name<'a>(name: &'a str, verbose: bool) -> (r: &'a str)
    ensures
        r@ == mnemonic(name@, verbose),
{
    if verbose {
        name
    } else {
        let len = name.unicode_len();
        let mut end: usize = 0;
        while end < len && is_abbrev(name.get_char(end))
            invariant
                len == name@.len(),
                end <= len,
                forall|i: int| 0 <= i < end ==> is_abbrev_char(#[trigger] name@[i]),
            decreases len - end,
        {
            end = end + 1;
        }
        proof {
            lemma_abbrev_len_of_prefix(name@, end as nat);
        }
        name.substring_char(0, end)
    }
}

} // verus!
