//! Programmatic assembly of Dockerfiles.
//!
//! A [`Dockerfile`] is an ordered list of [`Instruction`]s. Instructions are made from text that
//! is already formatted, or through the typed builders of [`instruction_builder`], which check
//! their fields before they format them.

pub mod instruction;
pub mod instruction_builder;
pub mod text;

use vstd::prelude::*;
use vstd::std_specs::convert::FromSpec;

use crate::instruction::Instruction;
use crate::text::joined;

verus! {

/// The lines that the instructions of `s` render to, in order.
pub open spec fn lines(s: Seq<Instruction>) -> Seq<Seq<char>> {
    s.map_values(|i: Instruction| i.line())
}

/// The text of a Dockerfile holding `s`: its lines, one newline between each two, none at the end.
pub open spec fn rendered(s: Seq<Instruction>) -> Seq<char> {
    joined(lines(s), seq!['\n'])
}

/// Rendering keeps the order of the instructions and puts exactly one newline between two
/// neighbours and none after the last: an empty Dockerfile renders to nothing, and an
/// instruction added at the end adds its line, after a newline unless it is the first.
pub proof fn lemma_rendered_push(s: Seq<Instruction>, i: Instruction)
    ensures
        rendered(Seq::<Instruction>::empty()) == Seq::<char>::empty(),
        s.len() == 0 ==> rendered(s.push(i)) == i.line(),
        s.len() > 0 ==> rendered(s.push(i)) == rendered(s) + seq!['\n'] + i.line(),
{
    assert(lines(Seq::<Instruction>::empty()) =~= Seq::<Seq<char>>::empty());
    assert(lines(s.push(i)).drop_last() =~= lines(s));
}

/// An ordered, append-only list of instructions.
#[derive(Debug)]
pub struct Dockerfile {
    instructions: Vec<Instruction>,
}

impl View for Dockerfile {
    type V = Seq<Instruction>;

    closed spec fn view(&self) -> Seq<Instruction> {
        self.instructions@
    }
}

impl Default for Dockerfile {
    fn default() -> (r: Self)
        ensures
            r@ == Seq::<Instruction>::empty(),
    {
        Dockerfile { instructions: Vec::new() }
    }
}

impl Dockerfile {
    /// Adds an instruction at the end.
    pub fn push<T>(self, instruction: T) -> (r: Self) where Instruction: From<T>
        ensures
            r@.len() == self@.len() + 1,
            r@.drop_last() == self@,
            <Instruction as FromSpec<T>>::obeys_from_spec() ==> r@ == self@.push(
                <Instruction as FromSpec<T>>::from_spec(instruction),
            ),
    {
        let mut d = self;
        d.instructions.push(Instruction::from(instruction));
        assert(d@.drop_last() =~= self@);
        d
    }

    /// Adds a raw line at the end.
    pub fn push_any(self, instruction: &str) -> (r: Self)
        ensures
            r@.len() == self@.len() + 1,
            r@.drop_last() == self@,
            r@.last() matches Instruction::ANY(s) && s@ == instruction@,
    {
        let mut d = self;
        d.instructions.push(Instruction::ANY(String::from_str(instruction)));
        assert(d@.drop_last() =~= self@);
        d
    }

    /// Adds each of `instructions` at the end, in their order.
    pub fn append<T>(self, instructions: Vec<T>) -> (r: Self) where Instruction: From<T>
        ensures
            r@.len() == self@.len() + instructions@.len(),
            r@.take(self@.len() as int) == self@,
            <Instruction as FromSpec<T>>::obeys_from_spec() ==> r@ == self@ + instructions@.map_values(
                |t: T| <Instruction as FromSpec<T>>::from_spec(t),
            ),
    {
        let ghost items = instructions@;
        let mut d = self;
        for item in it: instructions
            invariant
                it.seq() == items,
                d@.len() == self@.len() + it.index(),
                d@.take(self@.len() as int) == self@,
                <Instruction as FromSpec<T>>::obeys_from_spec() ==> d@ == self@ + items.take(
                    it.index() as int,
                ).map_values(|t: T| <Instruction as FromSpec<T>>::from_spec(t)),
        {
            let ghost before = d@;
            d.instructions.push(Instruction::from(item));
            proof {
                assert(d@.take(self@.len() as int) =~= self@);
                if <Instruction as FromSpec<T>>::obeys_from_spec() {
                    assert(d@ =~= self@ + items.take(it.index() + 1).map_values(
                        |t: T| <Instruction as FromSpec<T>>::from_spec(t),
                    ));
                }
            }
        }
        proof {
            assert(items.take(items.len() as int) =~= items);
        }
        d
    }

    /// Adds each of `instructions` at the end as a raw line, in their order.
    pub fn append_any(self, instructions: Vec<&str>) -> (r: Self)
        ensures
            r@.len() == self@.len() + instructions@.len(),
            r@.take(self@.len() as int) == self@,
            forall|k: int|
                0 <= k < instructions@.len() ==> (#[trigger] r@[self@.len() + k] matches Instruction::ANY(
                    s,
                ) && s@ == instructions@[k]@),
    {
        let mut d = self;
        let mut i: usize = 0;
        while i < instructions.len()
            invariant
                i <= instructions@.len(),
                d@.len() == self@.len() + i,
                d@.take(self@.len() as int) == self@,
                forall|k: int|
                    0 <= k < i ==> (#[trigger] d@[self@.len() + k] matches Instruction::ANY(s)
                        && s@ == instructions@[k]@),
            decreases instructions.len() - i,
        {
            let ghost before = d@;
            d.instructions.push(Instruction::ANY(String::from_str(instructions[i])));
            proof {
                assert(d@.take(self@.len() as int) =~= self@);
                assert forall|k: int| 0 <= k < i implies #[trigger] d@[self@.len() + k]
                    == before[self@.len() + k] by {}
            }
            i += 1;
        }
        d
    }

    /// The instructions, in order.
    pub fn into_inner(self) -> (r: Vec<Instruction>)
        ensures
            r@ == self@,
    {
        self.instructions
    }

    /// Renders the Dockerfile: each instruction's line, in order, one newline between each two.
    pub fn to_string(&self) -> (r: String)
        ensures
            r@ == rendered(self@),
    {
        let ghost all = lines(self@);
        let mut r = String::new();
        let mut i: usize = 0;
        while i < self.instructions.len()
            invariant
                i <= self@.len(),
                all == lines(self@),
                r@ == joined(all.take(i as int), seq!['\n']),
            decreases self.instructions.len() - i,
        {
            let ghost before = r@;
            if i > 0 {
                let newline = "\n";
                proof {
                    reveal_strlit("\n");
                }
                r.append(newline);
            }
            let line = self.instructions[i].to_string();
            r.append(line.as_str());
            proof {
                let next = all.take(i + 1);
                assert(next.drop_last() =~= all.take(i as int));
                if i == 0 {
                    assert(r@ =~= joined(next, seq!['\n']));
                } else {
                    assert(r@ =~= before + seq!['\n'] + all[i as int]);
                }
            }
            i += 1;
        }
        assert(all.take(self@.len() as int) =~= all);
        r
    }
}

} // verus!
