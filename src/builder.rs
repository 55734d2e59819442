use vstd::prelude::*;

use crate::argument::Argument;
use crate::command::Command;
use crate::name::{CommandName, Empty, NameCons, NamePart};

verus! {

/// Accumulates the segments of a command path, one `append` at a time, and
/// finishes with `call`. `T` marks the kind of node that the path reaches.
#[derive(Debug)]
pub struct Builder<N, T> {
    name: N,
    _marker: std::marker::PhantomData<T>,
}

impl<N, T> Builder<N, T> {
    /// The path accumulated so far.
    pub closed spec fn spec_name(self) -> N {
        self.name
    }

    pub fn new(name: N) -> (r: Self)
        ensures
            r.spec_name() == name,
    {
        Self { name, _marker: std::marker::PhantomData }
    }
}

impl<'a, N: CommandName<'a>, T> Builder<N, T> {
    /// The segments accumulated so far, root first.
    pub open spec fn name_parts(self) -> Seq<NamePart<'a>> {
        self.spec_name().name_parts()
    }

    /// A new builder whose path is this one's followed by `part`; this
    /// builder stays as it is.
    pub fn append<S>(&self, part: NamePart<'a>) -> (r: Builder<NameCons<'a, N>, S>)
        ensures
            r.spec_name().spec_first() == self.spec_name(),
            r.spec_name().spec_last() == part,
            r.name_parts() == self.name_parts().push(part),
    {
        Builder { name: NameCons::new(self.name, part), _marker: std::marker::PhantomData }
    }

    /// Finishes the command with its query mark and arguments.
    pub fn call(self, query: bool, arguments: Vec<Argument<'a>>) -> (r: Command<'a, N>)
        ensures
            r.spec_name() == self.spec_name(),
            r.spec_query() == query,
            r.spec_arguments() == arguments@,
    {
        Command::new(self.name, query, arguments)
    }
}

/// Each `append` adds exactly one segment after those already there, so a
/// chain of appends yields its segments in append order; a sibling appended to
/// the same parent shares the parent's segments and leaves the first chain as
/// it was.
pub proof fn lemma_appends_keep_order<'a, N: CommandName<'a>, T, S, U, V>(
    b: Builder<N, T>,
    x: NamePart<'a>,
    y: NamePart<'a>,
    bx: Builder<NameCons<'a, N>, S>,
    bxy: Builder<NameCons<'a, NameCons<'a, N>>, U>,
    by: Builder<NameCons<'a, N>, V>,
)
    requires
        bx.spec_name().spec_first() == b.spec_name(),
        bx.spec_name().spec_last() == x,
        bxy.spec_name().spec_first() == bx.spec_name(),
        bxy.spec_name().spec_last() == y,
        by.spec_name().spec_first() == b.spec_name(),
        by.spec_name().spec_last() == y,
    ensures
        bx.name_parts() == b.name_parts().push(x),
        bxy.name_parts() == b.name_parts() + seq![x, y],
        bxy.name_parts().len() == b.name_parts().len() + 2,
        by.name_parts() == b.name_parts().push(y),
        bxy.name_parts().take(b.name_parts().len() as int) == b.name_parts(),
        by.name_parts().take(b.name_parts().len() as int) == b.name_parts(),
{
    assert(bxy.name_parts() =~= b.name_parts() + seq![x, y]);
    assert(bxy.name_parts().take(b.name_parts().len() as int) =~= b.name_parts());
    assert(by.name_parts().take(b.name_parts().len() as int) =~= b.name_parts());
}

/// A builder started from the empty path has no segment.
pub proof fn lemma_new_is_empty<'a, T>(b: Builder<Empty, T>)
    ensures
        b.name_parts() == Seq::<NamePart<'a>>::empty(),
{
}

} // verus!
