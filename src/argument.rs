use vstd::prelude::*;

use crate::text::{decimal, int_text, mnemonic, pretty_name, push_decimal, push_int};

verus! {

/// A number in decimal scientific notation: the significant `digits` read as
/// `d.ddd`, times ten to the power `exponent`, negated when `negative`.
/// Trailing zeros of `digits` carry no weight.
#[derive(Clone, Copy, Debug, PartialEq, Eq, Hash)]
pub struct Scientific {
    pub negative: bool,
    pub digits: u64,
    pub exponent: isize,
}

/// `d` without its trailing decimal zeros (zero stays zero).
pub open spec fn strip_zeros(d: nat) -> nat
    decreases d,
{
    if d > 0 && d % 10 == 0 {
        strip_zeros(d / 10)
    } else {
        d
    }
}

/// Digit text with a decimal point after the leading digit, when more
/// digits follow it.
pub open spec fn point_after_first(t: Seq<char>) -> Seq<char> {
    if t.len() > 1 {
        seq![t[0], '.'] + t.skip(1)
    } else {
        t
    }
}

impl Scientific {
    /// The text of the number: its sign when negative, the significant
    /// digits with a point after the first, `E`, and the exponent.
    pub open spec fn text(self) -> Seq<char> {
        (if self.negative { seq!['-'] } else { Seq::empty() })
            + point_after_first(decimal(strip_zeros(self.digits as nat)))
            + seq!['E'] + int_text(self.exponent as int)
    }

    /// Appends the text of the number to `out`.
    pub fn write_to(&self, out: &mut String)
        ensures
            final(out)@ == old(out)@ + self.text(),
    {
        proof {
            reveal_strlit("-");
            reveal_strlit(".");
            reveal_strlit("E");
        }
        if self.negative {
            out.append("-");
        }
        let ghost before = out@;
        let mut d = self.digits;
        while d > 0 && d % 10 == 0
            invariant
                strip_zeros(d as nat) == strip_zeros(self.digits as nat),
            decreases d,
        {
            d = d / 10;
        }
        let mut t = String::new();
        push_decimal(&mut t, d);
        assert(t@ =~= decimal(strip_zeros(self.digits as nat)));
        let n = t.as_str().unicode_len();
        out.append(t.as_str().substring_char(0, 1));
        if n > 1 {
            out.append(".");
            out.append(t.as_str().substring_char(1, n));
        }
        assert(out@ =~= before + point_after_first(t@));
        out.append("E");
        push_int(out, self.exponent);
        assert(out@ =~= old(out)@ + self.text());
    }
}

/// A value that follows a command.
#[derive(Clone, Copy, Debug, PartialEq)]
pub enum Argument<'a> {
    Int(isize),
    Float(Scientific),
    IntUnit(isize, &'a str),
    FloatUnit(Scientific, &'a str),
    Discrete(&'a str),
    Str(&'a str),
    Bool(bool),
}

impl<'a> Argument<'a> {
    /// The text of the argument in the chosen form.
    pub open spec fn text(self, verbose: bool) -> Seq<char> {
        match self {
            Argument::Int(n) => int_text(n as int),
            Argument::Float(x) => x.text(),
            Argument::IntUnit(n, u) => int_text(n as int) + u@,
            Argument::FloatUnit(x, u) => x.text() + u@,
            Argument::Discrete(s) => mnemonic(s@, verbose),
            Argument::Str(s) => seq!['"'] + s@ + seq!['"'],
            Argument::Bool(b) => if b {
                seq!['1']
            } else {
                seq!['0']
            },
        }
    }

    /// Appends the text of the argument to `out`.
    pub fn write_to(&self, out: &mut String, verbose: bool)
        ensures
            final(out)@ == old(out)@ + self.text(verbose),
    {
        proof {
            reveal_strlit("\"");
            reveal_strlit("1");
            reveal_strlit("0");
        }
        match self {
            Argument::Int(n) => push_int(out, *n),
            Argument::Float(x) => x.write_to(out),
            Argument::IntUnit(n, u) => {
                push_int(out, *n);
                out.append(u);
            },
            Argument::FloatUnit(x, u) => {
                x.write_to(out);
                out.append(u);
            },
            Argument::Discrete(s) => out.append(pretty_name(s, verbose)),
            Argument::Str(s) => {
                out.append("\"");
                out.append(s);
                out.append("\"");
            },
            Argument::Bool(b) => {
                if *b {
                    out.append("1");
                } else {
                    out.append("0");
                }
            },
        }
        assert(out@ =~= old(out)@ + self.text(verbose));
    }

    /// The text of the argument in the chosen form.
    pub fn encode(&self, verbose: bool) -> (r: String)
        ensures
            r@ == self.text(verbose),
    {
        let mut out = String::new();
        self.write_to(&mut out, verbose);
        assert(out@ =~= self.text(verbose));
        out
    }
}

/// Conversion of a plain value into the argument it stands for.
pub trait IntoArgument<'a>: Sized {
    /// The argument that the value stands for.
    spec fn argument_of(self) -> Argument<'a>;

    fn into_argument(self) -> (r: Argument<'a>)
        ensures
            r == self.argument_of(),
    ;
}

impl<'a> IntoArgument<'a> for Argument<'a> {
    open spec fn argument_of(self) -> Argument<'a> {
        self
    }

    fn into_argument(self) -> (r: Argument<'a>) {
        self
    }
}

impl<'a> IntoArgument<'a> for u8 {
    open spec fn argument_of(self) -> Argument<'a> {
        Argument::Int(self as isize)
    }

    fn into_argument(self) -> (r: Argument<'a>) {
        Argument::Int(self as isize)
    }
}

impl<'a> IntoArgument<'a> for i8 {
    open spec fn argument_of(self) -> Argument<'a> {
        Argument::Int(self as isize)
    }

    fn into_argument(self) -> (r: Argument<'a>) {
        Argument::Int(self as isize)
    }
}

impl<'a> IntoArgument<'a> for u16 {
    open spec fn argument_of(self) -> Argument<'a> {
        Argument::Int(self as isize)
    }

    fn into_argument(self) -> (r: Argument<'a>) {
        Argument::Int(self as isize)
    }
}

impl<'a> IntoArgument<'a> for i16 {
    open spec fn argument_of(self) -> Argument<'a> {
        Argument::Int(self as isize)
    }

    fn into_argument(self) -> (r: Argument<'a>) {
        Argument::Int(self as isize)
    }
}

impl<'a> IntoArgument<'a> for u32 {
    open spec fn argument_of(self) -> Argument<'a> {
        Argument::Int(self as isize)
    }

    fn into_argument(self) -> (r: Argument<'a>) {
        Argument::Int(self as isize)
    }
}

impl<'a> IntoArgument<'a> for i32 {
    open spec fn argument_of(self) -> Argument<'a> {
        Argument::Int(self as isize)
    }

    fn into_argument(self) -> (r: Argument<'a>) {
        Argument::Int(self as isize)
    }
}

impl<'a> IntoArgument<'a> for u64 {
    open spec fn argument_of(self) -> Argument<'a> {
        Argument::Int(self as isize)
    }

    fn into_argument(self) -> (r: Argument<'a>) {
        Argument::Int(self as isize)
    }
}

impl<'a> IntoArgument<'a> for i64 {
    open spec fn argument_of(self) -> Argument<'a> {
        Argument::Int(self as isize)
    }

    fn into_argument(self) -> (r: Argument<'a>) {
        Argument::Int(self as isize)
    }
}

impl<'a> IntoArgument<'a> for usize {
    open spec fn argument_of(self) -> Argument<'a> {
        Argument::Int(self as isize)
    }

    fn into_argument(self) -> (r: Argument<'a>) {
        Argument::Int(self as isize)
    }
}

impl<'a> IntoArgument<'a> for isize {
    open spec fn argument_of(self) -> Argument<'a> {
        Argument::Int(self as isize)
    }

    fn into_argument(self) -> (r: Argument<'a>) {
        Argument::Int(self as isize)
    }
}

impl<'a> IntoArgument<'a> for &'a str {
    open spec fn argument_of(self) -> Argument<'a> {
        Argument::Str(self)
    }

    fn into_argument(self) -> (r: Argument<'a>) {
        Argument::Str(self)
    }
}

impl<'a> IntoArgument<'a> for bool {
    open spec fn argument_of(self) -> Argument<'a> {
        Argument::Bool(self)
    }

    fn into_argument(self) -> (r: Argument<'a>) {
        Argument::Bool(self)
    }
}

} // verus!
