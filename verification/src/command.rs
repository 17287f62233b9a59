//! A command line as plain data: the program to start and its arguments.

use vstd::prelude::*;
use crate::text::texts;

verus! {

/// A program and the arguments to start it with.
#[derive(Debug, Clone, PartialEq, Eq)]
pub struct CommandLine {
    pub program: String,
    pub args: Vec<String>,
}

/// A `CommandLine` with its texts as character sequences.
pub struct CommandView {
    pub program: Seq<char>,
    pub args: Seq<Seq<char>>,
}

impl View for CommandLine {
    type V = CommandView;

    open spec fn view(&self) -> CommandView {
        CommandView { program: self.program@, args: texts(self.args@) }
    }
}

/// A copy of `v`.
pub fn clone_strings(v: &Vec<String>) -> (out: Vec<String>)
    ensures
        texts(out@) == texts(v@),
{
    let mut out: Vec<String> = Vec::new();
    let mut i: usize = 0;
    while i < v.len()
        invariant
            i <= v.len(),
            texts(out@) == texts(v@).subrange(0, i as int),
        decreases v.len() - i,
    {
        let ghost before = texts(out@);
        out.push(v[i].clone());
        assert(texts(out@) == before.push(v@[i as int]@));
        assert(texts(v@).subrange(0, i + 1) == texts(v@).subrange(0, i as int).push(v@[i as int]@));
        i += 1;
    }
    assert(texts(v@).subrange(0, v.len() as int) == texts(v@));
    out
}

/// Appends a copy of every text of `v` to `out`.
pub fn extend_strings(out: &mut Vec<String>, v: &Vec<String>)
    ensures
        texts(final(out)@) == texts(old(out)@) + texts(v@),
{
    let ghost start = texts(out@);
    let mut i: usize = 0;
    while i < v.len()
        invariant
            i <= v.len(),
            texts(out@) == start + texts(v@).subrange(0, i as int),
        decreases v.len() - i,
    {
        let ghost before = texts(out@);
        out.push(v[i].clone());
        assert(texts(out@) == before.push(v@[i as int]@));
        assert(texts(v@).subrange(0, i + 1) == texts(v@).subrange(0, i as int).push(v@[i as int]@));
        i += 1;
    }
    assert(texts(v@).subrange(0, v.len() as int) == texts(v@));
}

/// Each text of `items` with `prefix` put before it.
pub open spec fn prefixed(prefix: Seq<char>, items: Seq<Seq<char>>) -> Seq<Seq<char>> {
    items.map_values(|t: Seq<char>| prefix + t)
}

/// Appends every text of `v`, with `prefix` put before it, to `out`.
pub fn extend_prefixed(out: &mut Vec<String>, prefix: &str, v: &Vec<String>)
    ensures
        texts(final(out)@) == texts(old(out)@) + prefixed(prefix@, texts(v@)),
{
    let ghost start = texts(out@);
    let ghost all = prefixed(prefix@, texts(v@));
    let mut i: usize = 0;
    while i < v.len()
        invariant
            i <= v.len(),
            all == prefixed(prefix@, texts(v@)),
            texts(out@) == start + all.subrange(0, i as int),
        decreases v.len() - i,
    {
        let ghost before = texts(out@);
        let item = crate::text::concat2(prefix, v[i].as_str());
        out.push(item);
        assert(texts(out@) == before.push(prefix@ + v@[i as int]@));
        assert(all.subrange(0, i + 1) == all.subrange(0, i as int).push(prefix@ + v@[i as int]@));
        i += 1;
    }
    assert(all.subrange(0, v.len() as int) == all);
}

} // verus!
