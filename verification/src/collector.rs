use vstd::prelude::*;

verus! {

/// Gathers the body of one transfer, chunk by chunk, in arrival order.
#[derive(Debug, PartialEq, Eq)]
pub struct Collector(pub Vec<u8>);

impl View for Collector {
    type V = Seq<u8>;

    open spec fn view(&self) -> Seq<u8> {
        self.0@
    }
}

impl Collector {
    /// A collector that has received nothing yet.
    pub fn new() -> (c: Collector)
        ensures
            c@ == Seq::<u8>::empty(),
    {
        Collector(Vec::new())
    }

    /// Appends one chunk and reports how many of its bytes were taken: all of
    /// them.
    pub fn write(&mut self, data: &[u8]) -> (taken: usize)
        ensures
            final(self)@ == old(self)@ + data@,
            taken == data@.len(),
    {
        self.0.extend_from_slice(data);
        data.len()
    }
}

} // verus!
