//! The status registers of the framer that its interrupt reports carry.
//!
//! Every register is one byte. Fields are named as in the data sheet of
//! the chip.

#![allow(non_snake_case)]

use vstd::prelude::*;

verus! {

/// The field of `width` bits of `bits` whose lowest bit is bit `shift`.
pub open spec fn field(bits: u8, shift: u8, width: u8) -> u8 {
    (bits >> shift) & (0xffu8 >> ((8 - width) as u8))
}

proof fn lemma_field(bits: u8, shift: u8, width: u8)
    by (bit_vector)
    requires
        1 <= width <= 8,
        shift <= 8 - width,
    ensures
        (bits >> shift) & (0xffu8 >> ((8 - width) as u8)) <= 0xffu8 >> ((8 - width) as u8),
        width == 1 ==> 0xffu8 >> ((8 - width) as u8) == 1,
        width == 4 ==> 0xffu8 >> ((8 - width) as u8) == 15,
        width == 7 ==> 0xffu8 >> ((8 - width) as u8) == 127,
{
}

/// Reads the field of `width` bits of `bits` whose lowest bit is bit
/// `shift`.
pub fn extract(bits: u8, shift: u8, width: u8) -> (value: u8)
    requires
        1 <= width <= 8,
        shift <= 8 - width,
    ensures
        value == field(bits, shift, width),
        width == 1 ==> value <= 1,
        width == 4 ==> value <= 15,
        width == 7 ==> value <= 127,
{
    proof {
        lemma_field(bits, shift, width);
    }
    (bits >> shift) & (0xffu8 >> (8 - width))
}

/// Block interrupt status: which blocks of the framer ask for attention.
#[derive(Copy, Clone, Debug, PartialEq, Eq, Structural)]
pub struct BISR(pub u8);

impl BISR {
    /// Bit 6.
    pub fn LBCODE(&self) -> (value: u8)
        ensures
            value == field(self.0, 6, 1),
            value <= 1,
    {
        extract(self.0, 6, 1)
    }

    /// Bit 5.
    pub fn RxClkLOS(&self) -> (value: u8)
        ensures
            value == field(self.0, 5, 1),
            value <= 1,
    {
        extract(self.0, 5, 1)
    }

    /// Bit 4.
    pub fn ONESEC(&self) -> (value: u8)
        ensures
            value == field(self.0, 4, 1),
            value <= 1,
    {
        extract(self.0, 4, 1)
    }

    /// Bit 3.
    pub fn HDLC(&self) -> (value: u8)
        ensures
            value == field(self.0, 3, 1),
            value <= 1,
    {
        extract(self.0, 3, 1)
    }

    /// Bit 2.
    pub fn SLIP(&self) -> (value: u8)
        ensures
            value == field(self.0, 2, 1),
            value <= 1,
    {
        extract(self.0, 2, 1)
    }

    /// Bit 1.
    pub fn ALARM(&self) -> (value: u8)
        ensures
            value == field(self.0, 1, 1),
            value <= 1,
    {
        extract(self.0, 1, 1)
    }

    /// Bit 0.
    pub fn T1FRAME(&self) -> (value: u8)
        ensures
            value == field(self.0, 0, 1),
            value <= 1,
    {
        extract(self.0, 0, 1)
    }
}

/// Receive loopback code interrupt and status.
#[derive(Copy, Clone, Debug, PartialEq, Eq, Structural)]
pub struct RLCISRx(pub u8);

impl RLCISRx {
    /// Bit 3.
    pub fn RXASTAT(&self) -> (value: u8)
        ensures
            value == field(self.0, 3, 1),
            value <= 1,
    {
        extract(self.0, 3, 1)
    }

    /// Bit 2.
    pub fn RXDSTAT(&self) -> (value: u8)
        ensures
            value == field(self.0, 2, 1),
            value <= 1,
    {
        extract(self.0, 2, 1)
    }

    /// Bit 1.
    pub fn RXAINT(&self) -> (value: u8)
        ensures
            value == field(self.0, 1, 1),
            value <= 1,
    {
        extract(self.0, 1, 1)
    }

    /// Bit 0.
    pub fn RXDINT(&self) -> (value: u8)
        ensures
            value == field(self.0, 0, 1),
            value <= 1,
    {
        extract(self.0, 0, 1)
    }
}

/// Data link status of one HDLC controller.
#[derive(Copy, Clone, Debug, PartialEq, Eq, Structural)]
pub struct DLSRx(pub u8);

impl DLSRx {
    /// Bit 7.
    pub fn MSG_TYPE(&self) -> (value: u8)
        ensures
            value == field(self.0, 7, 1),
            value <= 1,
    {
        extract(self.0, 7, 1)
    }

    /// Bit 6.
    pub fn TxSOT(&self) -> (value: u8)
        ensures
            value == field(self.0, 6, 1),
            value <= 1,
    {
        extract(self.0, 6, 1)
    }

    /// Bit 5.
    pub fn RxSOT(&self) -> (value: u8)
        ensures
            value == field(self.0, 5, 1),
            value <= 1,
    {
        extract(self.0, 5, 1)
    }

    /// Bit 4.
    pub fn TxEOT(&self) -> (value: u8)
        ensures
            value == field(self.0, 4, 1),
            value <= 1,
    {
        extract(self.0, 4, 1)
    }

    /// Bit 3.
    pub fn RxEOT(&self) -> (value: u8)
        ensures
            value == field(self.0, 3, 1),
            value <= 1,
    {
        extract(self.0, 3, 1)
    }

    /// Bit 2.
    pub fn FCS_ERR(&self) -> (value: u8)
        ensures
            value == field(self.0, 2, 1),
            value <= 1,
    {
        extract(self.0, 2, 1)
    }

    /// Bit 1.
    pub fn RxABORT(&self) -> (value: u8)
        ensures
            value == field(self.0, 1, 1),
            value <= 1,
    {
        extract(self.0, 1, 1)
    }

    /// Bit 0.
    pub fn RxIDLE(&self) -> (value: u8)
        ensures
            value == field(self.0, 0, 1),
            value <= 1,
    {
        extract(self.0, 0, 1)
    }
}

/// Receive data link byte count.
#[derive(Copy, Clone, Debug, PartialEq, Eq, Structural)]
pub struct RDLBCR(pub u8);

impl RDLBCR {
    /// Bit 7.
    pub fn RBUFPTR(&self) -> (value: u8)
        ensures
            value == field(self.0, 7, 1),
            value <= 1,
    {
        extract(self.0, 7, 1)
    }

    /// Bits 6 to 0.
    pub fn RDLBC(&self) -> (value: u8)
        ensures
            value == field(self.0, 0, 7),
            value <= 127,
    {
        extract(self.0, 0, 7)
    }
}

/// SS7 status of one HDLC controller.
#[derive(Copy, Clone, Debug, PartialEq, Eq, Structural)]
pub struct SS7SRx(pub u8);

impl SS7SRx {
    /// Bit 0.
    pub fn SS7_STATUS(&self) -> (value: u8)
        ensures
            value == field(self.0, 0, 1),
            value <= 1,
    {
        extract(self.0, 0, 1)
    }
}

/// Slip buffer interrupt status.
#[derive(Copy, Clone, Debug, PartialEq, Eq, Structural)]
pub struct SBISR(pub u8);

impl SBISR {
    /// Bit 7.
    pub fn TxSB_FULL(&self) -> (value: u8)
        ensures
            value == field(self.0, 7, 1),
            value <= 1,
    {
        extract(self.0, 7, 1)
    }

    /// Bit 6.
    pub fn TxSB_EMPT(&self) -> (value: u8)
        ensures
            value == field(self.0, 6, 1),
            value <= 1,
    {
        extract(self.0, 6, 1)
    }

    /// Bit 5.
    pub fn TxSB_SLIP(&self) -> (value: u8)
        ensures
            value == field(self.0, 5, 1),
            value <= 1,
    {
        extract(self.0, 5, 1)
    }

    /// Bit 4.
    pub fn SLC96_LOCK(&self) -> (value: u8)
        ensures
            value == field(self.0, 4, 1),
            value <= 1,
    {
        extract(self.0, 4, 1)
    }

    /// Bit 3.
    pub fn Multiframe_LOCK(&self) -> (value: u8)
        ensures
            value == field(self.0, 3, 1),
            value <= 1,
    {
        extract(self.0, 3, 1)
    }

    /// Bit 2.
    pub fn RxSB_FULL(&self) -> (value: u8)
        ensures
            value == field(self.0, 2, 1),
            value <= 1,
    {
        extract(self.0, 2, 1)
    }

    /// Bit 1.
    pub fn RxSB_EMPT(&self) -> (value: u8)
        ensures
            value == field(self.0, 1, 1),
            value <= 1,
    {
        extract(self.0, 1, 1)
    }

    /// Bit 0.
    pub fn RxSB_SLIP(&self) -> (value: u8)
        ensures
            value == field(self.0, 0, 1),
            value <= 1,
    {
        extract(self.0, 0, 1)
    }
}

/// Alarm and error interrupt status.
#[derive(Copy, Clone, Debug, PartialEq, Eq, Structural)]
pub struct AEISR(pub u8);

impl AEISR {
    /// Bit 7.
    pub fn RxOOF_State(&self) -> (value: u8)
        ensures
            value == field(self.0, 7, 1),
            value <= 1,
    {
        extract(self.0, 7, 1)
    }

    /// Bit 6.
    pub fn RxAIS_State(&self) -> (value: u8)
        ensures
            value == field(self.0, 6, 1),
            value <= 1,
    {
        extract(self.0, 6, 1)
    }

    /// Bit 5.
    pub fn RxYEL_State(&self) -> (value: u8)
        ensures
            value == field(self.0, 5, 1),
            value <= 1,
    {
        extract(self.0, 5, 1)
    }

    /// Bit 4.
    pub fn LOS_State(&self) -> (value: u8)
        ensures
            value == field(self.0, 4, 1),
            value <= 1,
    {
        extract(self.0, 4, 1)
    }

    /// Bit 3.
    pub fn LCVInt_Status(&self) -> (value: u8)
        ensures
            value == field(self.0, 3, 1),
            value <= 1,
    {
        extract(self.0, 3, 1)
    }

    /// Bit 2.
    pub fn RxOOF_State_Change(&self) -> (value: u8)
        ensures
            value == field(self.0, 2, 1),
            value <= 1,
    {
        extract(self.0, 2, 1)
    }

    /// Bit 1.
    pub fn RxAIS_State_Change(&self) -> (value: u8)
        ensures
            value == field(self.0, 1, 1),
            value <= 1,
    {
        extract(self.0, 1, 1)
    }

    /// Bit 0.
    pub fn RxYEL_State_Change(&self) -> (value: u8)
        ensures
            value == field(self.0, 0, 1),
            value <= 1,
    {
        extract(self.0, 0, 1)
    }
}

/// Excessive zero status.
#[derive(Copy, Clone, Debug, PartialEq, Eq, Structural)]
pub struct EXZSR(pub u8);

impl EXZSR {
    /// Bit 0.
    pub fn EXZ_STATUS(&self) -> (value: u8)
        ensures
            value == field(self.0, 0, 1),
            value <= 1,
    {
        extract(self.0, 0, 1)
    }
}

/// Customer installation alarm status.
#[derive(Copy, Clone, Debug, PartialEq, Eq, Structural)]
pub struct CIASR(pub u8);

impl CIASR {
    /// Bit 5.
    pub fn RxAIS_CI_state(&self) -> (value: u8)
        ensures
            value == field(self.0, 5, 1),
            value <= 1,
    {
        extract(self.0, 5, 1)
    }

    /// Bit 4.
    pub fn RxRAI_CI_state(&self) -> (value: u8)
        ensures
            value == field(self.0, 4, 1),
            value <= 1,
    {
        extract(self.0, 4, 1)
    }

    /// Bit 1.
    pub fn RxAIS_CI(&self) -> (value: u8)
        ensures
            value == field(self.0, 1, 1),
            value <= 1,
    {
        extract(self.0, 1, 1)
    }

    /// Bit 0.
    pub fn RxRAI_CI(&self) -> (value: u8)
        ensures
            value == field(self.0, 0, 1),
            value <= 1,
    {
        extract(self.0, 0, 1)
    }
}

/// Framer interrupt status.
#[derive(Copy, Clone, Debug, PartialEq, Eq, Structural)]
pub struct FISR(pub u8);

impl FISR {
    /// Bit 7.
    pub fn DS0_Change(&self) -> (value: u8)
        ensures
            value == field(self.0, 7, 1),
            value <= 1,
    {
        extract(self.0, 7, 1)
    }

    /// Bit 6.
    pub fn DS0_Status(&self) -> (value: u8)
        ensures
            value == field(self.0, 6, 1),
            value <= 1,
    {
        extract(self.0, 6, 1)
    }

    /// Bit 5.
    pub fn SIG(&self) -> (value: u8)
        ensures
            value == field(self.0, 5, 1),
            value <= 1,
    {
        extract(self.0, 5, 1)
    }

    /// Bit 4.
    pub fn COFA(&self) -> (value: u8)
        ensures
            value == field(self.0, 4, 1),
            value <= 1,
    {
        extract(self.0, 4, 1)
    }

    /// Bit 3.
    pub fn OOF_Status(&self) -> (value: u8)
        ensures
            value == field(self.0, 3, 1),
            value <= 1,
    {
        extract(self.0, 3, 1)
    }

    /// Bit 2.
    pub fn FMD(&self) -> (value: u8)
        ensures
            value == field(self.0, 2, 1),
            value <= 1,
    {
        extract(self.0, 2, 1)
    }

    /// Bit 1.
    pub fn SE(&self) -> (value: u8)
        ensures
            value == field(self.0, 1, 1),
            value <= 1,
    {
        extract(self.0, 1, 1)
    }

    /// Bit 0.
    pub fn FE(&self) -> (value: u8)
        ensures
            value == field(self.0, 0, 1),
            value <= 1,
    {
        extract(self.0, 0, 1)
    }
}

/// Receive signaling array register: the signaling bits of one timeslot.
#[derive(Copy, Clone, Debug, PartialEq, Eq, Structural)]
pub struct RSAR(pub u8);

impl RSAR {
    /// Bit 3.
    pub fn A(&self) -> (value: u8)
        ensures
            value == field(self.0, 3, 1),
            value <= 1,
    {
        extract(self.0, 3, 1)
    }

    /// Bit 2.
    pub fn B(&self) -> (value: u8)
        ensures
            value == field(self.0, 2, 1),
            value <= 1,
    {
        extract(self.0, 2, 1)
    }

    /// Bit 1.
    pub fn C(&self) -> (value: u8)
        ensures
            value == field(self.0, 1, 1),
            value <= 1,
    {
        extract(self.0, 1, 1)
    }

    /// Bit 0.
    pub fn D(&self) -> (value: u8)
        ensures
            value == field(self.0, 0, 1),
            value <= 1,
    {
        extract(self.0, 0, 1)
    }
}

} // verus!
