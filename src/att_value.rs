use vstd::prelude::*;

verus! {

/// The stored value of a local characteristic or descriptor.
#[derive(Debug)]
pub struct AttValue {
    value: Vec<u8>,
}

impl View for AttValue {
    type V = Seq<u8>;

    closed spec fn view(&self) -> Seq<u8> {
        self.value@
    }
}

impl AttValue {
    /// An empty value.
    pub fn new() -> (r: AttValue)
        ensures
            r@ == Seq::<u8>::empty(),
    {
        AttValue { value: Vec::new() }
    }

    /// The bytes of the value.
    pub fn as_slice(&self) -> (r: &[u8])
        ensures
            r@ == self@,
    {
        self.value.as_slice()
    }

    /// Whether the value holds no bytes.
    pub fn is_empty(&self) -> (r: bool)
        ensures
            r == (self@.len() == 0),
    {
        self.value.len() == 0
    }

    /// Number of bytes in the value.
    pub fn len(&self) -> (r: usize)
        ensures
            r == self@.len(),
    {
        self.value.len()
    }

    /// Empties the value.
    pub fn clear(&mut self)
        ensures
            final(self)@ == Seq::<u8>::empty(),
    {
        self.value.clear();
    }

    /// Replaces the value by `value`.
    pub fn set_value(&mut self, value: &[u8])
        ensures
            final(self)@ == value@,
    {
        self.value.clear();
        self.extend(value);
        assert(self.value@ =~= value@);
    }

    /// Appends `value` to the value.
    pub fn extend(&mut self, value: &[u8])
        ensures
            final(self)@ == old(self)@ + value@,
    {
        let mut k: usize = 0;
        while k < value.len()
            invariant
                0 <= k <= value@.len(),
                self.value@ == old(self).value@ + value@.subrange(0, k as int),
            decreases value@.len() - k,
        {
            self.value.push(value[k]);
            k = k + 1;
            proof {
                assert(self.value@ =~= old(self).value@ + value@.subrange(0, k as int));
            }
        }
        assert(value@.subrange(0, value@.len() as int) =~= value@);
    }
}

} // verus!
