//! Singleton ownership tokens for the register blocks that the drivers use.
//!
//! A token stands for use of one register block. Drivers consume the token
//! of every block they program, so as long as each token exists once, two
//! drivers never touch the same block at the same time. That each token
//! exists once rests on the caller of [`Peripherals::steal`]: nothing here
//! stops it from being called twice.

use core::marker::PhantomData;
use vstd::prelude::*;

verus! {

/// Token for the BS2X PDM (microphone front-end) register block.
pub struct Pdm<'d> {
    _lifetime: PhantomData<&'d ()>,
}

/// Token for the BS2X USB 2.0 OTG controller register block.
pub struct Usb<'d> {
    _lifetime: PhantomData<&'d ()>,
}

/// Token for the WS63 clock management unit (analog RF power registers).
pub struct Cmu<'d> {
    _lifetime: PhantomData<&'d ()>,
}

/// Token for the WS63 CLDO clock/reset generator.
pub struct CldoCrg<'d> {
    _lifetime: PhantomData<&'d ()>,
}

/// Token for the WS63 shared-RAM ownership controller.
pub struct ShareMemCtl<'d> {
    _lifetime: PhantomData<&'d ()>,
}

/// Token for the WS63 Bluetooth exchange-memory controller.
pub struct BtEmCtl<'d> {
    _lifetime: PhantomData<&'d ()>,
}

/// All register-block tokens of the chip, handed out once at start-up.
pub struct Peripherals<'d> {
    pub pdm: Pdm<'d>,
    pub usb: Usb<'d>,
    pub cmu: Cmu<'d>,
    pub cldo_crg: CldoCrg<'d>,
    pub share_mem_ctl: ShareMemCtl<'d>,
    pub bt_em_ctl: BtEmCtl<'d>,
}

impl<'d> Peripherals<'d> {
    /// Creates the full set of tokens.
    ///
    /// The caller owns the chip: it must call this at most once, so that
    /// every register block has a single owner. This is a promise of the
    /// caller; neither the types nor the contracts check it.
    pub fn steal() -> (p: Self) {
        Peripherals {
            pdm: Pdm { _lifetime: PhantomData },
            usb: Usb { _lifetime: PhantomData },
            cmu: Cmu { _lifetime: PhantomData },
            cldo_crg: CldoCrg { _lifetime: PhantomData },
            share_mem_ctl: ShareMemCtl { _lifetime: PhantomData },
            bt_em_ctl: BtEmCtl { _lifetime: PhantomData },
        }
    }
}

} // verus!
