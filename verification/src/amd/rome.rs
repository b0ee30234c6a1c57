//! AMD Rome SoC: the MP (SMU) mailboxes.
use vstd::prelude::*;

verus! {

/// A message-passing mailbox of an MP (SMU) with `N` argument registers,
/// given by the addresses of its message, response and first argument
/// registers (in the SMN address space).
#[derive(Clone, Copy, PartialEq, Eq, Structural)]
pub struct MpMailbox {
    pub message_addr: u32,
    pub response_addr: u32,
    pub argument_addr: u32,
    pub num_args: usize,
}

impl MpMailbox {
    pub fn new(num_args: usize, message_addr: u32, response_addr: u32, argument_addr: u32) -> (m: Self)
        ensures
            m == (MpMailbox { message_addr, response_addr, argument_addr, num_args }),
    {
        MpMailbox { message_addr, response_addr, argument_addr, num_args }
    }
}

/// The Rome SoC and its MP mailboxes.
pub struct SOC {
    pub mp0: MpMailbox,
    pub mp1: MpMailbox,
    pub mp2: MpMailbox,
    pub mp3: MpMailbox,
}

/// The four MP mailboxes of Rome, each with eight argument registers.
pub open spec fn rome_soc() -> SOC {
    SOC {
        mp0: MpMailbox { message_addr: 0x3B1_0520, response_addr: 0x3B1_002C, argument_addr: 0x3B1_09B8, num_args: 8 },
        mp1: MpMailbox { message_addr: 0x3B1_0524, response_addr: 0x3B1_0570, argument_addr: 0x3B1_0A40, num_args: 8 },
        mp2: MpMailbox { message_addr: 0x3B1_0528, response_addr: 0x3B1_0574, argument_addr: 0x3B1_0960, num_args: 8 },
        mp3: MpMailbox { message_addr: 0x3B1_0530, response_addr: 0x3B1_057C, argument_addr: 0x3B1_09C4, num_args: 8 },
    }
}

impl SOC {
    pub fn new() -> (s: SOC)
        ensures
            s == rome_soc(),
    {
        let mp0 = MpMailbox::new(8, 0x3B1_0520, 0x3B1_002C, 0x3B1_09B8);
        let mp1 = MpMailbox::new(8, 0x3B1_0524, 0x3B1_0570, 0x3B1_0A40);
        let mp2 = MpMailbox::new(8, 0x3B1_0528, 0x3B1_0574, 0x3B1_0960);
        let mp3 = MpMailbox::new(8, 0x3B1_0530, 0x3B1_057C, 0x3B1_09C4);
        SOC { mp0, mp1, mp2, mp3 }
    }

    /// The MP mailboxes in the order in which initialization tests them.
    pub fn mailboxes(&self) -> (r: Vec<MpMailbox>)
        ensures
            r@ == seq![self.mp0, self.mp1, self.mp2, self.mp3],
    {
        let mut v: Vec<MpMailbox> = Vec::new();
        v.push(self.mp0);
        v.push(self.mp1);
        v.push(self.mp2);
        v.push(self.mp3);
        assert(v@ =~= seq![self.mp0, self.mp1, self.mp2, self.mp3]);
        v
    }
}

impl Default for SOC {
    fn default() -> (s: Self)
        ensures
            s == rome_soc(),
    {
        Self::new()
    }
}

} // verus!
