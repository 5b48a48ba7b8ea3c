//! BS2X USB 2.0 OTG (Synopsys DesignWare DWC OTG) controller presence.
//!
//! The controller's core-ID register (`GSNPSID`) carries the ASCII "OT"
//! signature in its upper half and the core release in its lower half. A
//! correct signature shows that the controller is present and accessible.

use crate::peripherals::Usb as UsbPeriph;
use core::marker::PhantomData;
use vstd::prelude::*;

verus! {

/// The Synopsys signature in the top half of GSNPSID ("OT").
pub const SNPS_SIGNATURE: u16 = 0x4F54;

/// The upper 16 bits of a 32-bit core-ID value.
pub open spec fn core_id_signature(core_id: u32) -> int {
    core_id as int / 0x1_0000
}

/// Driver for the DWC OTG controller.
pub struct Usb<'d> {
    _u: PhantomData<UsbPeriph<'d>>,
}

impl<'d> Usb<'d> {
    /// Takes ownership of the USB controller.
    pub fn new(_u: UsbPeriph<'d>) -> (r: Self)
        ensures
            r == Usb::<'d>::owning(_u),
    {
        Usb { _u: PhantomData }
    }

    /// The driver that owns the controller whose token is `token`.
    pub closed spec fn owning(token: UsbPeriph<'d>) -> Self {
        Usb { _u: PhantomData }
    }

    /// True if the core-ID value read from `GSNPSID` carries the Synopsys
    /// DWC OTG signature in its upper 16 bits.
    pub fn is_present(&self, core_id: u32) -> (r: bool)
        ensures
            r <==> core_id_signature(core_id) == SNPS_SIGNATURE,
    {
        let top: u32 = core_id >> 16u32;
        assert(top == core_id / 0x1_0000) by (bit_vector)
            requires
                top == core_id >> 16u32,
        ;
        top == SNPS_SIGNATURE as u32
    }
}

} // verus!
