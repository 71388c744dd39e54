//! The buffer that takes the ancillary data of a received message.
use vstd::prelude::*;
use crate::sys::msg_ctrunc;
use crate::sys::MSG_CTRUNC;

verus! {

/// Whether the flags of a received message say that ancillary data was cut.
pub open spec fn control_truncated(msg_flags: i32) -> bool {
    msg_flags & MSG_CTRUNC != 0
}

/// A region for ancillary data, with the number of bytes the kernel wrote into
/// it at the last receive and whether the kernel had more than fit.
///
/// The buffer does not read the bytes. Whoever decodes them looks at
/// `truncated()` first: a region that was cut short holds no complete message.
#[derive(Debug)]
pub struct SocketAncillary {
    /// The region.
    buffer: Vec<u8>,
    /// How many bytes of the region the kernel wrote.
    length: usize,
    /// Whether the kernel had more ancillary data than the region takes.
    truncated: bool,
}

impl SocketAncillary {
    #[verifier::type_invariant]
    spec fn well_formed(self) -> bool {
        self.length <= self.buffer@.len()
    }

    /// The size of the region.
    pub closed spec fn spec_capacity(&self) -> nat {
        self.buffer@.len()
    }

    /// The bytes the kernel wrote at the last receive.
    pub closed spec fn spec_data(&self) -> Seq<u8> {
        self.buffer@.subrange(0, self.length as int)
    }

    /// Whether the last receive cut the ancillary data short.
    pub closed spec fn spec_truncated(&self) -> bool {
        self.truncated
    }

    /// Makes a buffer of the region `buffer`, with nothing received yet.
    pub fn new(buffer: Vec<u8>) -> (ancillary: Self)
        ensures
            ancillary.spec_capacity() == buffer@.len(),
            ancillary.spec_data() == Seq::<u8>::empty(),
            !ancillary.spec_truncated(),
    {
        let ancillary = Self { buffer, length: 0, truncated: false };
        assert(ancillary.spec_data() =~= Seq::<u8>::empty());
        ancillary
    }

    /// The size of the region.
    pub fn capacity(&self) -> (capacity: usize)
        ensures
            capacity == self.spec_capacity(),
    {
        self.buffer.len()
    }

    /// How many bytes the kernel wrote at the last receive: never more than
    /// the region takes.
    pub fn len(&self) -> (len: usize)
        ensures
            len == self.spec_data().len(),
            len <= self.spec_capacity(),
    {
        proof {
            use_type_invariant(self);
        }
        self.length
    }

    /// Whether the kernel had more ancillary data than the region takes.
    pub fn truncated(&self) -> (truncated: bool)
        ensures
            truncated == self.spec_truncated(),
    {
        self.truncated
    }

    /// The bytes the kernel wrote at the last receive.
    pub fn data(&self) -> (data: &[u8])
        ensures
            data@ == self.spec_data(),
    {
        proof {
            use_type_invariant(self);
        }
        vstd::slice::slice_subrange(self.buffer.as_slice(), 0, self.length)
    }

    /// Takes what a receive call left: `control` is what the kernel wrote,
    /// which cannot be more than the region it was offered, and `msg_flags`
    /// are the flags it returned with the message.
    pub fn receive(&mut self, control: &[u8], msg_flags: i32)
        requires
            control@.len() <= old(self).spec_capacity(),
        ensures
            final(self).spec_capacity() == old(self).spec_capacity(),
            final(self).spec_data() == control@,
            final(self).spec_truncated() == control_truncated(msg_flags),
    {
        proof {
            use_type_invariant(&*self);
        }
        let mut i: usize = 0;
        while i < control.len()
            invariant
                i <= control@.len() <= self.buffer@.len(),
                self.buffer@.len() == old(self).buffer@.len(),
                self.buffer@.subrange(0, i as int) == control@.subrange(0, i as int),
                self.length <= self.buffer@.len(),
            decreases control@.len() - i,
        {
            self.buffer[i] = control[i];
            assert(self.buffer@.subrange(0, i + 1) =~= control@.subrange(0, i + 1));
            i += 1;
        }
        self.length = control.len();
        self.truncated = msg_flags & msg_ctrunc() != 0;
        assert(self.spec_data() =~= control@);
    }
}

} // verus!
