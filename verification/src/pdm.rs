//! BS2X PDM: PDM-microphone audio front-end (IP v150).
//!
//! BS2X-only; no WS63 analogue. The PDM block decimates a PDM mic bitstream
//! (CIC + compensation + sample-rate conversion) into PCM, which is drained
//! from the UP FIFO by DMA: there is no CPU-readable sample register. So
//! this driver covers configuration and bring-up (clock + channel enable)
//! and the presence check through the `version` register; full audio
//! capture is a DMA-fed path.

use crate::peripherals::Pdm as PdmPeriph;
use core::marker::PhantomData;
use vstd::prelude::*;

verus! {

/// The fields of the PDM `clk_rst_en` register. A write of this value
/// leaves every other field of the register at its reset value.
#[derive(Clone, Copy, Debug, Default, PartialEq, Eq, Structural)]
pub struct ClkRstEn {
    /// Releases the datapath reset (active low).
    pub pdm_dp_rst_n: bool,
    /// Digital-microphone clock enable.
    pub dmic_clken: bool,
    /// UP FIFO clock enable.
    pub up_fifo_clken: bool,
    /// Up (capture) function enable.
    pub func_up_en: bool,
    /// Up channel 0 enable.
    pub func_up_ch_en_0: bool,
}

/// The bring-up value: datapath out of reset, microphone and UP-FIFO clocks
/// on, the up function and its channel 0 enabled.
pub open spec fn bring_up_value() -> ClkRstEn {
    ClkRstEn {
        pdm_dp_rst_n: true,
        dmic_clken: true,
        up_fifo_clken: true,
        func_up_en: true,
        func_up_ch_en_0: true,
    }
}

/// Driver for the PDM block.
pub struct Pdm<'d> {
    _p: PhantomData<PdmPeriph<'d>>,
}

impl<'d> Pdm<'d> {
    /// Brings up the PDM block: takes ownership of it and returns, with the
    /// driver, the `clk_rst_en` value to write, which releases the datapath
    /// reset and enables the mic / UP-FIFO clocks and the up channel. That
    /// write is the only register access of the bring-up; it is a plain
    /// write, not a read-modify-write, so the register ends up the same
    /// whatever it held before.
    pub fn new(_p: PdmPeriph<'d>) -> (r: (Self, ClkRstEn))
        ensures
            r.0 == Pdm::<'d>::owning(_p),
            r.1 == bring_up_value(),
    {
        let value = ClkRstEn {
            pdm_dp_rst_n: true,
            dmic_clken: true,
            up_fifo_clken: true,
            func_up_en: true,
            func_up_ch_en_0: true,
        };
        (Pdm { _p: PhantomData }, value)
    }

    /// The driver that owns the block whose token is `token`.
    pub closed spec fn owning(token: PdmPeriph<'d>) -> Self {
        Pdm { _p: PhantomData }
    }
}

} // verus!
