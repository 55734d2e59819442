use vstd::prelude::*;

use crate::text::{decimal, mnemonic, pretty_name, push_decimal};

verus! {

/// One segment of a command path: a mnemonic label and an optional numeric
/// suffix.
#[derive(Clone, Copy, Debug, PartialEq, Eq, Hash)]
pub struct NamePart<'a>(pub &'a str, pub Option<usize>);

impl<'a> NamePart<'a> {
    /// The text of the segment: `:`, the label in the chosen form, then the
    /// suffix in decimal, if any.
    pub open spec fn text(self, verbose: bool) -> Seq<char> {
        seq![':'] + mnemonic(self.0@, verbose) + match self.1 {
            Some(k) => decimal(k as nat),
            None => Seq::empty(),
        }
    }

    /// Appends the text of the segment to `out`.
    pub fn write_to(&self, out: &mut String, verbose: bool)
        ensures
            final(out)@ == old(out)@ + self.text(verbose),
    {
        proof {
            reveal_strlit(":");
        }
        out.append(":");
        out.append(pretty_name(self.0, verbose));
        match self.1 {
            Some(k) => push_decimal(out, k as u64),
            None => {},
        }
        assert(out@ =~= old(out)@ + self.text(verbose));
    }

    /// The text of the segment in the chosen form.
    pub fn encode(&self, verbose: bool) -> (r: String)
        ensures
            r@ == self.text(verbose),
    {
        let mut out = String::new();
        self.write_to(&mut out, verbose);
        assert(out@ =~= self.text(verbose));
        out
    }
}

/// A composed command path that yields its segments, root first.
pub trait CommandName<'a>: Copy {
    /// The segments, in the order in which they were appended.
    spec fn name_parts(&self) -> Seq<NamePart<'a>>;

    /// The segments, root first.
    fn parts(&self) -> (r: Vec<NamePart<'a>>)
        ensures
            r@ == self.name_parts(),
    ;
}

impl<'a, 'b> CommandName<'a> for &'b [NamePart<'a>] {
    open spec fn name_parts(&self) -> Seq<NamePart<'a>> {
        (*self)@
    }

    fn parts(&self) -> (r: Vec<NamePart<'a>>) {
        let mut v: Vec<NamePart<'a>> = Vec::new();
        let mut i: usize = 0;
        while i < self.len()
            invariant
                i <= self@.len(),
                v@ == self@.take(i as int),
            decreases self@.len() - i,
        {
            v.push(self[i]);
            i = i + 1;
            assert(v@ =~= self@.take(i as int));
        }
        assert(self@.take(i as int) =~= self@);
        v
    }
}

/// The path with no segment.
#[derive(Clone, Copy, Debug, PartialEq, Eq, Hash)]
pub struct Empty;

impl<'a> CommandName<'a> for Empty {
    open spec fn name_parts(&self) -> Seq<NamePart<'a>> {
        Seq::empty()
    }

    fn parts(&self) -> (r: Vec<NamePart<'a>>) {
        Vec::new()
    }
}

/// A path made of everything in `first`, followed by one more segment `last`.
#[derive(Clone, Copy, Debug, PartialEq, Eq, Hash)]
pub struct NameCons<'a, N> {
    first: N,
    last: NamePart<'a>,
}

impl<'a, N> NameCons<'a, N> {
    /// The path before the last segment.
    pub closed spec fn spec_first(self) -> N {
        self.first
    }

    /// The last segment.
    pub closed spec fn spec_last(self) -> NamePart<'a> {
        self.last
    }

    pub fn new(first: N, last: NamePart<'a>) -> (r: Self)
        ensures
            r.spec_first() == first,
            r.spec_last() == last,
    {
        Self { first, last }
    }
}

impl<'a, N: CommandName<'a>> CommandName<'a> for NameCons<'a, N> {
    open spec fn name_parts(&self) -> Seq<NamePart<'a>> {
        self.spec_first().name_parts().push(self.spec_last())
    }

    fn parts(&self) -> (r: Vec<NamePart<'a>>) {
        let mut v = self.first.parts();
        v.push(self.last);
        v
    }
}

impl<'a, N: CommandName<'a>> NameCons<'a, N> {
    /// A cursor over the segments, root first.
    pub fn iter(&self) -> (r: NameConsIter<'a>)
        ensures
            r.wf(),
            r.remaining() == self.name_parts(),
    {
        let r = NameConsIter { firstiter: self.first.parts(), pos: 0, last: Some(self.last) };
        assert(r.firstiter@.skip(0) =~= r.firstiter@);
        r
    }
}

/// A cursor over the segments of a [`NameCons`]: those of its first part,
/// then its last segment.
#[derive(Clone, Debug)]
pub struct NameConsIter<'a> {
    firstiter: Vec<NamePart<'a>>,
    pos: usize,
    last: Option<NamePart<'a>>,
}

impl<'a> NameConsIter<'a> {
    /// The cursor has not run past the first part.
    pub closed spec fn wf(self) -> bool {
        self.pos <= self.firstiter@.len()
    }

    /// The segments that are still to come, in order.
    pub closed spec fn remaining(self) -> Seq<NamePart<'a>> {
        match self.last {
            Some(l) => self.firstiter@.skip(self.pos as int).push(l),
            None => Seq::empty(),
        }
    }

    /// Hands out the next segment, or `None` once all have been handed out.
    pub fn next(&mut self) -> (r: Option<NamePart<'a>>)
        requires
            old(self).wf(),
        ensures
            final(self).wf(),
            old(self).remaining().len() == 0 ==> r is None && final(self).remaining().len() == 0,
            old(self).remaining().len() > 0 ==> r == Some(old(self).remaining()[0])
                && final(self).remaining() == old(self).remaining().drop_first(),
    {
        match self.last {
            None => None,
            Some(l) => {
                if self.pos < self.firstiter.len() {
                    let p = self.firstiter[self.pos];
                    self.pos = self.pos + 1;
                    assert(self.remaining() =~= old(self).remaining().drop_first());
                    Some(p)
                } else {
                    self.last = None;
                    assert(self.remaining() =~= old(self).remaining().drop_first());
                    Some(l)
                }
            },
        }
    }
}

} // verus!
