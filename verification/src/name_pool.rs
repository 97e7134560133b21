//! A pool that keeps NUL-terminated copies of names alive for as long as the
//! pool lives, so that the engine can be handed C strings.

use vstd::prelude::*;
use vstd::string::StringSliceAdditionalSpecFns;

verus! {

pub struct NamePool {
    strbufs: Vec<Vec<u8>>,
}

/// An empty pool.
pub fn NamePool() -> (r: NamePool)
    ensures
        r.names() == Seq::<Seq<u8>>::empty(),
{
    NamePool { strbufs: Vec::new() }
}

impl NamePool {
    /// The stored names, each with its terminating NUL, in the order added.
    pub closed spec fn names(&self) -> Seq<Seq<u8>> {
        self.strbufs@.map_values(|b: Vec<u8>| b@)
    }

    /// Stores a NUL-terminated copy of the bytes of `s` and gives its index.
    pub fn add(&mut self, s: &str) -> (r: usize)
        requires
            old(self).names().len() < usize::MAX,
        ensures
            final(self).names() == old(self).names().push(s.spec_bytes().push(0u8)),
            r == old(self).names().len(),
    {
        let bytes = s.as_bytes();
        let mut strbuf: Vec<u8> = Vec::new();
        let mut i: usize = 0;
        while i < bytes.len()
            invariant
                i <= bytes@.len(),
                strbuf@ == bytes@.take(i as int),
            decreases bytes@.len() - i,
        {
            strbuf.push(bytes[i]);
            assert(bytes@.take(i as int + 1) == bytes@.take(i as int).push(bytes@[i as int]));
            i = i + 1;
        }
        assert(bytes@.take(bytes@.len() as int) == bytes@);
        strbuf.push(0);
        let index = self.strbufs.len();
        self.strbufs.push(strbuf);
        assert(self.strbufs@.map_values(|b: Vec<u8>| b@) == old(self).strbufs@.map_values(
            |b: Vec<u8>| b@,
        ).push(s.spec_bytes().push(0u8)));
        index
    }

    /// The stored name with index `i`, NUL included.
    pub fn name(&self, i: usize) -> (r: &Vec<u8>)
        requires
            i < self.names().len(),
        ensures
            r@ == self.names()[i as int],
    {
        &self.strbufs[i]
    }
}

} // verus!
