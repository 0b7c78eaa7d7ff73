use vstd::prelude::*;

use crate::error::Error;
use crate::sequence::Sequence;

verus! {

/// Whether some sequence of `seqs` is named `name`.
pub open spec fn name_taken(seqs: Seq<Sequence>, name: Seq<char>) -> bool {
    exists|i: int| 0 <= i < seqs.len() && (#[trigger] seqs[i]).name@ == name
}

/// `seq` as it is stored under id `seqid`.
pub open spec fn with_id(seq: Sequence, seqid: u32) -> Sequence {
    Sequence { seqid, ..seq }
}

/// The sequences after inserting `seq` into `seqs`, and the insert's result:
/// a duplicate name is refused and changes nothing; otherwise the sequence
/// is appended under the next id.
pub open spec fn insert_outcome(seqs: Seq<Sequence>, seq: Sequence) -> (Seq<Sequence>, Result<
    u32,
    Error,
>) {
    if name_taken(seqs, seq.name@) {
        (seqs, Err(Error::DuplicateSequence(seq.name)))
    } else {
        let id = (seqs.len() + 1) as u32;
        (seqs.push(with_id(seq, id)), Ok(id))
    }
}

/// The sequences of one project, keyed by id and by name. Ids are assigned
/// on insert, from 1 upwards; names are unique.
pub struct SequenceStore {
    sequences: Vec<Sequence>,
}

impl View for SequenceStore {
    type V = Seq<Sequence>;

    closed spec fn view(&self) -> Seq<Sequence> {
        self.sequences@
    }
}

impl SequenceStore {
    /// Ids follow the order of insertion and no two names are equal.
    pub closed spec fn wf(&self) -> bool {
        &&& forall|i: int| 0 <= i < self.sequences@.len() ==> (#[trigger] self.sequences@[i]).seqid == i + 1
        &&& forall|i: int, j: int|
            0 <= i < j < self.sequences@.len() ==> (#[trigger] self.sequences@[i]).name@
                != (#[trigger] self.sequences@[j]).name@
    }

    /// An empty store.
    pub fn new() -> (r: SequenceStore)
        ensures
            r.wf(),
            r@ == Seq::<Sequence>::empty(),
    {
        SequenceStore { sequences: Vec::new() }
    }

    /// Number of sequences stored.
    pub fn len(&self) -> (r: usize)
        ensures
            r == self@.len(),
    {
        self.sequences.len()
    }

    /// Stores `seq` under the next id and returns that id; refuses a
    /// sequence whose name is already stored, and then changes nothing.
    pub fn insert_sequence(&mut self, seq: Sequence) -> (r: Result<u32, Error>)
        requires
            old(self).wf(),
            old(self)@.len() < u32::MAX,
        ensures
            final(self).wf(),
            (final(self)@, r) == insert_outcome(old(self)@, seq),
    {
        let mut i: usize = 0;
        while i < self.sequences.len()
            invariant
                0 <= i <= self.sequences@.len(),
                self.wf(),
                self@ == old(self)@,
                forall|j: int| 0 <= j < i ==> (#[trigger] self.sequences@[j]).name@ != seq.name@,
            decreases self.sequences.len() - i,
        {
            if self.sequences[i].name == seq.name {
                assert(self.sequences@[i as int].name@ == seq.name@);
                return Err(Error::DuplicateSequence(seq.name));
            }
            i = i + 1;
        }
        let id: u32 = (self.sequences.len() + 1) as u32;
        let stored = Sequence { seqid: id, ..seq };
        self.sequences.push(stored);
        assert(self.sequences@ =~= old(self)@.push(with_id(seq, id)));
        Ok(id)
    }

    /// The sequence stored under `seqid`.
    pub fn get_sequence(&self, seqid: u32) -> (r: Result<&Sequence, Error>)
        requires
            self.wf(),
        ensures
            r is Ok <==> 1 <= seqid <= self@.len(),
            r matches Ok(s) ==> *s == self@[seqid - 1],
            r matches Err(e) ==> e == Error::SequenceNotFound(seqid),
    {
        if seqid == 0 || seqid as usize > self.sequences.len() {
            return Err(Error::SequenceNotFound(seqid));
        }
        Ok(&self.sequences[seqid as usize - 1])
    }

    /// The sequence stored under `name`, if any.
    pub fn find_by_name(&self, name: &String) -> (r: Option<&Sequence>)
        requires
            self.wf(),
        ensures
            r is Some <==> name_taken(self@, name@),
            r matches Some(s) ==> s.name@ == name@ && self@.contains(*s),
    {
        let mut i: usize = 0;
        while i < self.sequences.len()
            invariant
                0 <= i <= self.sequences@.len(),
                forall|j: int| 0 <= j < i ==> (#[trigger] self.sequences@[j]).name@ != name@,
            decreases self.sequences.len() - i,
        {
            if self.sequences[i].name == *name {
                assert(self@[i as int] == self.sequences@[i as int]);
                return Some(&self.sequences[i]);
            }
            i = i + 1;
        }
        None
    }
}

/// Inserting a second sequence under a name already stored fails with
/// `DuplicateSequence`, and the first sequence stays stored, unchanged but
/// for its id.
pub proof fn lemma_duplicate_insert_refused(seqs: Seq<Sequence>, first: Sequence, second: Sequence)
    requires
        seqs.len() < u32::MAX,
        insert_outcome(seqs, first).1 is Ok,
        second.name@ == first.name@,
    ensures
        ({
            let after_first = insert_outcome(seqs, first).0;
            let id = insert_outcome(seqs, first).1->Ok_0;
            &&& insert_outcome(after_first, second) == (
                after_first,
                Err::<u32, Error>(Error::DuplicateSequence(second.name)),
            )
            &&& after_first[id - 1] == with_id(first, id)
        }),
{
    let after_first = insert_outcome(seqs, first).0;
    let i = seqs.len() as int;
    assert(after_first[i].name@ == second.name@);
}

} // verus!
