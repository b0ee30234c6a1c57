//! SD card types and the card status of the R1 response.
use vstd::prelude::*;

verus! {

/// The different types of cards
#[derive(Clone, Copy, Debug, PartialEq, Eq, Structural)]
pub enum CardType {
    SD1,
    SD2,
    SDHC,
}

/// Card status in R1 response format
#[derive(Clone, Copy, Debug, PartialEq, Eq, Structural)]
pub struct CardStatus(u32);

#[derive(Clone, Copy, Debug, PartialEq, Eq, Structural)]
pub enum CardCurrentState {
    Idle,
    Ready,
    Ident,
    Stby,
    Tran,
    Data,
    Rcv,
    Prg,
    Dis,
    Reserved,
}

/// The state that a 4-bit CURRENT_STATE field stands for.
pub open spec fn state_of(value: u32) -> CardCurrentState {
    if value == 0 {
        CardCurrentState::Idle
    } else if value == 1 {
        CardCurrentState::Ready
    } else if value == 2 {
        CardCurrentState::Ident
    } else if value == 3 {
        CardCurrentState::Stby
    } else if value == 4 {
        CardCurrentState::Tran
    } else if value == 5 {
        CardCurrentState::Data
    } else if value == 6 {
        CardCurrentState::Rcv
    } else if value == 7 {
        CardCurrentState::Prg
    } else if value == 8 {
        CardCurrentState::Dis
    } else {
        CardCurrentState::Reserved
    }
}

impl CardCurrentState {
    /// The state that a CURRENT_STATE field value stands for; 9 and above
    /// are reserved.
    pub fn from_u32(value: u32) -> (r: Self)
        ensures
            r == state_of(value),
    {
        match value {
            0 => CardCurrentState::Idle,
            1 => CardCurrentState::Ready,
            2 => CardCurrentState::Ident,
            3 => CardCurrentState::Stby,
            4 => CardCurrentState::Tran,
            5 => CardCurrentState::Data,
            6 => CardCurrentState::Rcv,
            7 => CardCurrentState::Prg,
            8 => CardCurrentState::Dis,
            _ => CardCurrentState::Reserved,
        }
    }
}

proof fn lemma_status_bits(v: u32)
    ensures
        (v & 8 == 8) == (v & (1u32 << 3u32) != 0),
        (v & 32 == 32) == (v & (1u32 << 5u32) != 0),
        (v & 256 == 256) == (v & (1u32 << 8u32) != 0),
        (v & 0x8_0000 == 0x8_0000) == (v & (1u32 << 19u32) != 0),
        (v & 0x10_0000 == 0x10_0000) == (v & (1u32 << 20u32) != 0),
        (v & 0x200_0000 == 0x200_0000) == (v & (1u32 << 25u32) != 0),
{
    assert({
        &&& (v & 8 == 8) == (v & (1u32 << 3u32) != 0)
        &&& (v & 32 == 32) == (v & (1u32 << 5u32) != 0)
        &&& (v & 256 == 256) == (v & (1u32 << 8u32) != 0)
        &&& (v & 0x8_0000 == 0x8_0000) == (v & (1u32 << 19u32) != 0)
        &&& (v & 0x10_0000 == 0x10_0000) == (v & (1u32 << 20u32) != 0)
        &&& (v & 0x200_0000 == 0x200_0000) == (v & (1u32 << 25u32) != 0)
    }) by (bit_vector);
}

/// Whether bit `b` of `v` is set.
pub open spec fn bit_set(v: u32, b: u32) -> bool {
    v & (1u32 << b) as u32 != 0
}

impl CardStatus {
    /// The raw R1 response.
    pub closed spec fn bits(&self) -> u32 {
        self.0
    }

    pub fn new(val: u32) -> (r: Self)
        ensures
            r.bits() == val,
    {
        CardStatus(val)
    }

    /// The raw R1 response.
    pub fn raw(&self) -> (r: u32)
        ensures
            r == self.bits(),
    {
        self.0
    }

    /// Indicates if there was an error in the sequence of the authentication process.
    pub fn auth_seq_error(&self) -> (r: bool)
        ensures
            r == bit_set(self.bits(), 3),
    {
        let v = self.0;
        proof {
            lemma_status_bits(v);
        }
        (v & 8) == 8
    }

    /// Indicates that the card expects an application command or
    /// that the command has been interpreted as an application command.
    pub fn app_cmd(&self) -> (r: bool)
        ensures
            r == bit_set(self.bits(), 5),
    {
        let v = self.0;
        proof {
            lemma_status_bits(v);
        }
        (v & 32) == 32
    }

    /// Corresponds to buffer empty signaling on the bus
    pub fn ready_for_data(&self) -> (r: bool)
        ensures
            r == bit_set(self.bits(), 8),
    {
        let v = self.0;
        proof {
            lemma_status_bits(v);
        }
        (v & 256) == 256
    }

    /// The state of the card when receiving the command.
    pub fn current_state(&self) -> (r: CardCurrentState)
        ensures
            r == state_of((self.bits() >> 9u32) & 0xf),
    {
        CardCurrentState::from_u32((self.0 >> 9) & 0xf)
    }

    /// General or unknown error occurred during operation.
    pub fn error(&self) -> (r: bool)
        ensures
            r == bit_set(self.bits(), 19),
    {
        let v = self.0;
        proof {
            lemma_status_bits(v);
        }
        (v & 0x8_0000) == 0x8_0000
    }

    /// Internal card controller error.
    pub fn cc_error(&self) -> (r: bool)
        ensures
            r == bit_set(self.bits(), 20),
    {
        let v = self.0;
        proof {
            lemma_status_bits(v);
        }
        (v & 0x10_0000) == 0x10_0000
    }

    /// Signals that the card is locked by the host
    pub fn is_locked(&self) -> (r: bool)
        ensures
            r == bit_set(self.bits(), 25),
    {
        let v = self.0;
        proof {
            lemma_status_bits(v);
        }
        (v & 0x200_0000) == 0x200_0000
    }
}

/// Field values 0 to 8 name the nine card states, one each, and every
/// larger value is reserved.
pub proof fn lemma_state_of_reserved(v: u32, w: u32)
    ensures
        state_of(v) == CardCurrentState::Reserved <==> v > 8,
        v <= 8 && w <= 8 && state_of(v) == state_of(w) ==> v == w,
{
}

} // verus!
