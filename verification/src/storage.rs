//! The record array that backs the trail and mirrors the vertex buffer.

use crate::encoding::{cast_words, is_image};
use crate::record::{Vertex, RECORD_SIZE, RECORD_WORDS};
use vstd::prelude::*;

verus! {

/// The words of `records` in memory order: six for each record.
pub open spec fn flatten(records: Seq<Vertex>) -> Seq<u32> {
    Seq::new(
        RECORD_WORDS as nat * records.len(),
        |i: int| records[i / (RECORD_WORDS as int)].words()[i % (RECORD_WORDS as int)],
    )
}

/// `n` records, all blank.
pub open spec fn blanks(n: nat) -> Seq<Vertex> {
    Seq::new(n, |i: int| Vertex::blank())
}

/// An array of point records.
pub struct DrawVec(Vec<Vertex>);

impl View for DrawVec {
    type V = Seq<Vertex>;

    closed spec fn view(&self) -> Seq<Vertex> {
        self.0@
    }
}

impl DrawVec {
    /// An array of `n` blank records.
    pub fn filled(n: usize) -> (v: DrawVec)
        ensures
            v@ == blanks(n as nat),
    {
        let mut inner: Vec<Vertex> = Vec::new();
        let mut i: usize = 0;
        while i < n
            invariant
                i <= n,
                inner@ == blanks(i as nat),
            decreases n - i,
        {
            inner.push(Vertex::new());
            i = i + 1;
        }
        DrawVec(inner)
    }

    /// The number of slots.
    pub fn len(&self) -> (n: usize)
        ensures
            n == self@.len(),
        no_unwind
    {
        self.0.len()
    }

    /// The record in slot `i`, if there is such a slot.
    pub fn get(&self, i: usize) -> (r: Option<Vertex>)
        ensures
            r == (if i < self@.len() { Some(self@[i as int]) } else { None }),
    {
        if i < self.0.len() {
            Some(self.0[i])
        } else {
            None
        }
    }

    /// Overwrites slot `i`. Returns `false`, and changes nothing, when there is
    /// no such slot.
    pub fn set(&mut self, i: usize, record: Vertex) -> (done: bool)
        ensures
            done == (i < old(self)@.len()),
            done ==> final(self)@ == old(self)@.update(i as int, record),
            !done ==> final(self)@ == old(self)@,
        no_unwind
    {
        if i < self.0.len() {
            self.0[i] = record;
            true
        } else {
            false
        }
    }

    /// All slots, in order.
    pub fn as_slice(&self) -> (s: &[Vertex])
        ensures
            s@ == self@,
    {
        self.0.as_slice()
    }

    /// The words of all records in memory order.
    pub fn to_words(&self) -> (words: Vec<u32>)
        ensures
            words@ == flatten(self@),
    {
        let n: usize = self.0.len();
        let mut words: Vec<u32> = Vec::new();
        let mut i: usize = 0;
        while i < n
            invariant
                i <= n,
                n == self.0@.len(),
                words@.len() == 6 * i,
                forall|k: int|
                    0 <= k < 6 * i ==> #[trigger] words@[k] == self.0@[k / 6].words()[k % 6],
            decreases n - i,
        {
            let r: Vertex = self.0[i];
            words.push(r.position[0]);
            words.push(r.position[1]);
            words.push(r.position[2]);
            words.push(r.color[0]);
            words.push(r.color[1]);
            words.push(r.color[2]);
            i = i + 1;
        }
        words
    }

    /// The bytes of all records as they lie in memory, in the byte order of
    /// the machine: the contents of a vertex buffer that holds this array.
    pub fn to_bytes(&self) -> (bytes: Vec<u8>)
        ensures
            is_image(bytes@, flatten(self@)),
            bytes@.len() == RECORD_SIZE * self@.len(),
    {
        let words: Vec<u32> = self.to_words();
        cast_words(&words)
    }
}

} // verus!
