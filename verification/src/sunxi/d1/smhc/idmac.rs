//! Internal DMA controller
use vstd::prelude::*;

verus! {

/// A descriptor of the internal DMA controller, as the controller reads it.
#[derive(Clone, Copy, Debug, PartialEq, Eq, Structural)]
pub struct Descriptor {
    des0: u32,
    des1: u32,
    des2: u32,
    des3: u32,
}

/// Where a descriptor's buffer is and how it is chained; addresses are the
/// 32-bit physical addresses that the controller sees.
#[derive(Clone, Copy, Debug, PartialEq, Eq, Structural)]
pub struct DescriptorConfig {
    /// When true, this will prevent the setting of the TX/RX interrupt
    /// bit of the IDMAC status register for data that ends in the buffer the
    /// descriptor points to.
    pub disable_int_on_complete: bool,
    /// If this is the first descriptor.
    pub first: bool,
    /// If this is the last descriptor.
    pub last: bool,
    /// Buffer data size in bytes, must be a multiple of 4.
    pub buff_size: u16,
    /// The physical address of the data buffer.
    pub buff_addr: u32,
    /// The physical address of the next descriptor.
    pub next_desc: Option<u32>,
}

#[derive(Clone, Copy, Debug, PartialEq, Eq, Structural)]
pub enum Error {
    InvalidBufferSize,
}

proof fn lemma_word_bits(v: u32)
    ensures
        (v & 0x8000_0000 != 0) == (v >= 0x8000_0000),
        (v & 0x4000_0000 != 0) == ((v / 0x4000_0000) % 2 == 1),
        v & 3 == v % 4,
        v >> 2 == v / 4,
{
    assert((v & 0x8000_0000 != 0) == (v >= 0x8000_0000) && (v & 0x4000_0000 != 0) == ((v / 0x4000_0000)
        % 2 == 1) && v & 3 == v % 4 && v >> 2 == v / 4) by (bit_vector);
}

/// Whether a buffer size can be described: below 8 KiB and a multiple of 4.
pub open spec fn valid_buff_size(size: u16) -> bool {
    size < 8192 && size % 4 == 0
}

/// The control word of a descriptor: the flags of `c`, the chain bit, and
/// ownership by the controller.
pub open spec fn des0_of(c: DescriptorConfig) -> u32 {
    ((if c.disable_int_on_complete { 2int } else { 0int }) + (if c.last { 4int } else { 0int })
        + (if c.first { 8int } else { 0int }) + 16 + 0x8000_0000) as u32
}

/// The word address of the next descriptor, 0 at the end of the chain.
pub open spec fn des3_of(c: DescriptorConfig) -> u32 {
    match c.next_desc {
        Some(n) => n / 4,
        None => 0,
    }
}

impl Descriptor {
    pub closed spec fn spec_des0(&self) -> u32 {
        self.des0
    }

    pub closed spec fn spec_des1(&self) -> u32 {
        self.des1
    }

    pub closed spec fn spec_des2(&self) -> u32 {
        self.des2
    }

    pub closed spec fn spec_des3(&self) -> u32 {
        self.des3
    }

    /// The descriptor describes the buffer and chaining of `c`.
    pub open spec fn describes(&self, c: DescriptorConfig) -> bool {
        &&& self.spec_des0() == des0_of(c)
        &&& self.spec_des1() == c.buff_size as u32
        &&& self.spec_des2() == c.buff_addr / 4
        &&& self.spec_des3() == des3_of(c)
    }

    /// A descriptor of all zeros.
    pub fn zeroed() -> (d: Descriptor)
        ensures
            d.spec_des0() == 0 && d.spec_des1() == 0 && d.spec_des2() == 0 && d.spec_des3() == 0,
    {
        Descriptor { des0: 0, des1: 0, des2: 0, des3: 0 }
    }

    /// The four words of the descriptor, in memory order.
    pub fn words(&self) -> (r: (u32, u32, u32, u32))
        ensures
            r == (self.spec_des0(), self.spec_des1(), self.spec_des2(), self.spec_des3()),
    {
        (self.des0, self.des1, self.des2, self.des3)
    }

    /// Indicates whether the descriptor is currently owned by the IDMAC.
    pub fn is_owned(&self) -> (r: bool)
        ensures
            r == (self.spec_des0() >= 0x8000_0000),
    {
        let v = self.des0;
        proof {
            lemma_word_bits(v);
        }
        v & 0x8000_0000 != 0
    }

    /// Indicates whether an error happened during transfer.
    pub fn is_err(&self) -> (r: bool)
        ensures
            r == ((self.spec_des0() / 0x4000_0000) % 2 == 1),
    {
        let v = self.des0;
        proof {
            lemma_word_bits(v);
        }
        v & 0x4000_0000 != 0
    }

    /// Builds the descriptor for a buffer; refused where the buffer size
    /// cannot be described.
    pub fn try_from(value: DescriptorConfig) -> (r: Result<Descriptor, Error>)
        ensures
            valid_buff_size(value.buff_size) ==> r is Ok && r->Ok_0.describes(value),
            !valid_buff_size(value.buff_size) ==> r == Err::<Descriptor, Error>(Error::InvalidBufferSize),
    {
        let mut des0: u32 = 0;
        if value.disable_int_on_complete {
            des0 = des0 + 2;
        }
        if value.last {
            des0 = des0 + 4;
        }
        if value.first {
            des0 = des0 + 8;
        }
        // These always need to be set
        des0 = des0 + 16;
        des0 = des0 + 0x8000_0000;
        let size = value.buff_size;
        proof {
            lemma_word_bits(size as u32);
        }
        assert(size & 3 == size % 4) by {
            assert((size as u32) & 3 == size & 3);
        }
        if !(size < 8192 && size & 3 == 0) {
            return Err(Error::InvalidBufferSize);
        }
        // Right-shift by 2 because it is a *word-address*.
        let des2 = value.buff_addr >> 2;
        let des3 = match value.next_desc {
            Some(n) => n >> 2,
            None => 0,
        };
        proof {
            lemma_word_bits(value.buff_addr);
            if let Some(n) = value.next_desc {
                lemma_word_bits(n);
            }
        }
        Ok(Descriptor { des0, des1: size as u32, des2, des3 })
    }
}

} // verus!
