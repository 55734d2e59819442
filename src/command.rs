use vstd::prelude::*;

use crate::argument::Argument;
use crate::name::{CommandName, NamePart};

verus! {

/// The text of a path: each segment's text, root first.
pub open spec fn path_text<'a>(parts: Seq<NamePart<'a>>, verbose: bool) -> Seq<char>
    decreases parts.len(),
{
    if parts.len() == 0 {
        Seq::empty()
    } else {
        path_text(parts.drop_last(), verbose) + parts.last().text(verbose)
    }
}

/// The texts of the arguments, with a comma between each two.
pub open spec fn joined_text<'a>(args: Seq<Argument<'a>>, verbose: bool) -> Seq<char>
    decreases args.len(),
{
    if args.len() == 0 {
        Seq::empty()
    } else if args.len() == 1 {
        args[0].text(verbose)
    } else {
        joined_text(args.drop_last(), verbose) + seq![','] + args.last().text(verbose)
    }
}

/// The text of a whole command: the path, `?` for a query, then, when there
/// are arguments, one space and the arguments separated by commas.
pub open spec fn command_text<'a>(
    parts: Seq<NamePart<'a>>,
    query: bool,
    args: Seq<Argument<'a>>,
    verbose: bool,
) -> Seq<char> {
    path_text(parts, verbose) + (if query {
        seq!['?']
    } else {
        Seq::empty()
    }) + (if args.len() == 0 {
        Seq::empty()
    } else {
        seq![' '] + joined_text(args, verbose)
    })
}

/// A finished command: a path, whether it is a query, and its arguments.
#[derive(Clone, Debug, PartialEq)]
pub struct Command<'a, N> {
    name: N,
    query: bool,
    arguments: Vec<Argument<'a>>,
}

impl<'a, N> Command<'a, N> {
    /// The path of the command.
    pub closed spec fn spec_name(self) -> N {
        self.name
    }

    /// Whether the command is a query.
    pub closed spec fn spec_query(self) -> bool {
        self.query
    }

    /// The arguments of the command, in order.
    pub closed spec fn spec_arguments(self) -> Seq<Argument<'a>> {
        self.arguments@
    }

    pub fn new(name: N, query: bool, arguments: Vec<Argument<'a>>) -> (r: Self)
        ensures
            r.spec_name() == name,
            r.spec_query() == query,
            r.spec_arguments() == arguments@,
    {
        Self { name, query, arguments }
    }
}

impl<'a, N: CommandName<'a>> Command<'a, N> {
    /// The text of the command in the chosen form.
    pub open spec fn text(self, verbose: bool) -> Seq<char> {
        command_text(self.spec_name().name_parts(), self.spec_query(), self.spec_arguments(), verbose)
    }

    /// Renders the command: abbreviated mnemonics unless `verbose`, the full
    /// labels when it is set.
    pub fn encode(&self, verbose: bool) -> (r: String)
        ensures
            r@ == self.text(verbose),
    {
        proof {
            reveal_strlit("?");
        }
        let parts = self.name.parts();
        let mut out = String::new();
        let mut i: usize = 0;
        while i < parts.len()
            invariant
                i <= parts@.len(),
                out@ == path_text(parts@.take(i as int), verbose),
            decreases parts@.len() - i,
        {
            parts[i].write_to(&mut out, verbose);
            i = i + 1;
            assert(parts@.take(i as int).drop_last() =~= parts@.take(i - 1));
        }
        assert(parts@.take(i as int) =~= parts@);
        if self.query {
            out.append("?");
        }
        let ghost head = out@;
        let mut j: usize = 0;
        while j < self.arguments.len()
            invariant
                j <= self.arguments@.len(),
                out@ == head + (if j == 0 {
                    Seq::empty()
                } else {
                    seq![' '] + joined_text(self.arguments@.take(j as int), verbose)
                }),
            decreases self.arguments@.len() - j,
        {
            proof {
                reveal_strlit(" ");
                reveal_strlit(",");
            }
            let ghost prev = out@;
            let ghost a = self.arguments@[j as int];
            if j == 0 {
                out.append(" ");
            } else {
                out.append(",");
            }
            let ghost mid = out@;
            self.arguments[j].write_to(&mut out, verbose);
            assert(out@ == mid + a.text(verbose));
            j = j + 1;
            let ghost t = self.arguments@.take(j as int);
            assert(t.drop_last() =~= self.arguments@.take(j - 1));
            assert(t.last() == a);
            if j == 1 {
                assert(joined_text(t, verbose) == a.text(verbose));
            } else {
                assert(joined_text(t, verbose) == joined_text(t.drop_last(), verbose) + seq![',']
                    + a.text(verbose));
            }
            assert(out@ =~= head + (seq![' '] + joined_text(t, verbose)));
        }
        assert(self.arguments@.take(j as int) =~= self.arguments@);
        assert(out@ =~= self.text(verbose));
        out
    }
}

/// Encoding is a function of the command and the mode alone: two renderings
/// of one command in one mode give the same text.
pub proof fn lemma_encode_repeatable<'a, N: CommandName<'a>>(
    c: Command<'a, N>,
    verbose: bool,
    first: Seq<char>,
    second: Seq<char>,
)
    requires
        first == c.text(verbose),
        second == c.text(verbose),
    ensures
        first == second,
{
}

} // verus!
