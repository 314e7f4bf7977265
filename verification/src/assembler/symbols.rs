//! The symbol table: which label marks which place of the program.

use vstd::prelude::*;
use vstd::string::*;
use crate::assembler::LabelDefinition;
use crate::assembler::literal::same_text;

verus! {

/// The labels of a program in the order of their definition.
#[derive(Clone, Debug, PartialEq, Eq)]
pub struct SymbolTable {
    pub labels: Vec<LabelDefinition>,
}

/// The offset that the first of `labels` with the name `name` records.
pub open spec fn offset_in(labels: Seq<LabelDefinition>, name: Seq<char>) -> Option<u16>
    decreases labels.len(),
{
    if labels.len() == 0 {
        None
    } else if labels[0].name@ == name {
        Some(labels[0].addr)
    } else {
        offset_in(labels.drop_first(), name)
    }
}

/// No name occurs twice among `labels`.
pub open spec fn distinct_names(labels: Seq<LabelDefinition>) -> bool {
    forall|j: int, k: int|
        0 <= j < k < labels.len() ==> (#[trigger] labels[j]).name@ != (#[trigger] labels[k]).name@
}

/// A name has an offset among `labels` exactly if one of them carries it.
pub proof fn lemma_offset_in(labels: Seq<LabelDefinition>, name: Seq<char>)
    ensures
        offset_in(labels, name) is Some <==> exists|k: int|
            0 <= k < labels.len() && (#[trigger] labels[k]).name@ == name,
    decreases labels.len(),
{
    if labels.len() > 0 {
        let rest = labels.drop_first();
        lemma_offset_in(rest, name);
        if labels[0].name@ != name {
            if offset_in(rest, name) is Some {
                let k = choose|k: int| 0 <= k < rest.len() && (#[trigger] rest[k]).name@ == name;
                assert(labels[k + 1].name@ == name);
            }
            if exists|k: int| 0 <= k < labels.len() && (#[trigger] labels[k]).name@ == name {
                let k = choose|k: int|
                    0 <= k < labels.len() && (#[trigger] labels[k]).name@ == name;
                assert(rest[k - 1].name@ == name);
            }
        } else {
            assert(labels[0].name@ == name);
        }
    }
}

/// A label added behind the others is found under its own name unless an
/// earlier one has that name, and changes nothing for any other name.
pub proof fn lemma_offset_in_push(
    labels: Seq<LabelDefinition>,
    added: LabelDefinition,
    name: Seq<char>,
)
    ensures
        offset_in(labels.push(added), name) == (if offset_in(labels, name) is Some {
            offset_in(labels, name)
        } else if added.name@ == name {
            Some(added.addr)
        } else {
            None
        }),
    decreases labels.len(),
{
    if labels.len() == 0 {
        assert(labels.push(added).drop_first() =~= labels);
    } else {
        assert(labels.push(added).drop_first() =~= labels.drop_first().push(added));
        lemma_offset_in_push(labels.drop_first(), added, name);
    }
}

impl SymbolTable {
    /// The offset recorded for `name`, if the table defines it.
    pub open spec fn offset_of(&self, name: Seq<char>) -> Option<u16> {
        offset_in(self.labels@, name)
    }

    /// The labels in order, each as its name and its offset.
    pub open spec fn entries(&self) -> Seq<(Seq<char>, u16)> {
        Seq::new(self.labels@.len(), |k: int| (self.labels@[k].name@, self.labels@[k].addr))
    }

    /// No label is defined twice.
    pub open spec fn well_formed(&self) -> bool {
        distinct_names(self.labels@)
    }

    /// A table without labels.
    pub fn new() -> (table: SymbolTable)
        ensures
            table.labels@ == Seq::<LabelDefinition>::empty(),
            table.well_formed(),
    {
        SymbolTable { labels: Vec::new() }
    }

    /// Looks a label up.
    pub fn lookup(&self, name: &str) -> (offset: Option<u16>)
        ensures
            offset == self.offset_of(name@),
    {
        let mut k: usize = 0;
        assert(self.labels@.subrange(0, self.labels@.len() as int) =~= self.labels@);
        while k < self.labels.len()
            invariant
                k <= self.labels@.len(),
                offset_in(self.labels@, name@) == offset_in(
                    self.labels@.subrange(k as int, self.labels@.len() as int),
                    name@,
                ),
            decreases self.labels@.len() - k,
        {
            proof {
                let rest = self.labels@.subrange(k as int, self.labels@.len() as int);
                assert(rest.drop_first() =~= self.labels@.subrange(
                    k + 1,
                    self.labels@.len() as int,
                ));
                assert(rest[0] == self.labels@[k as int]);
            }
            if same_text(self.labels[k].name.as_str(), name) {
                return Some(self.labels[k].addr);
            }
            k = k + 1;
        }
        None
    }

    /// Records that the label `name` marks the offset `addr`. A name that the
    /// table holds already is refused, and the table stays as it is.
    pub fn define(&mut self, name: String, addr: u16) -> (added: bool)
        ensures
            added == (old(self).offset_of(name@) is None),
            added ==> final(self).labels@ == old(self).labels@.push(LabelDefinition { name, addr }),
            added ==> forall|other: Seq<char>|
                #[trigger] final(self).offset_of(other) == (if other == name@ {
                    Some(addr)
                } else {
                    old(self).offset_of(other)
                }),
            !added ==> final(self).labels@ == old(self).labels@,
            old(self).well_formed() ==> final(self).well_formed(),
    {
        if self.lookup(name.as_str()).is_some() {
            return false;
        }
        let added = LabelDefinition { name, addr };
        proof {
            lemma_offset_in(self.labels@, added.name@);
            assert forall|other: Seq<char>|
                #[trigger] offset_in(self.labels@.push(added), other) == (if other == added.name@ {
                    Some(addr)
                } else {
                    offset_in(self.labels@, other)
                }) by {
                lemma_offset_in_push(self.labels@, added, other);
            }
        }
        self.labels.push(added);
        true
    }
}

} // verus!
