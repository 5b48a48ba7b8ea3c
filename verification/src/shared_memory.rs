//! WS63 configurable shared-RAM ownership.
//!
//! The default Wi-Fi layout mirrors the vendor SDK's `dyn_mem_cfg`: packet
//! RAM for RAM5-RAM9 and RAM12, DTCM for RAM10, and ITCM for RAM11.
//!
//! Changing ownership is a short register sequence: every configurable
//! RAM-bank clock is gated and the Bluetooth exchange memory is put in gate
//! mode, the bank selections are written, then the clocks and the exchange
//! memory are released again, with an I/O fence after each phase.
//! [`SharedMemory::configure_default_wifi_action`] hands out the steps one
//! at a time; the caller performs each one on the hardware.

use crate::peripherals::{BtEmCtl, ShareMemCtl};
use vstd::prelude::*;

verus! {

/// Width of the `share_ram_cken` clock-enable field, in bits.
pub const RAM_CLOCK_FIELD_BITS: u32 = 14;
/// `share_ram_cken` value that gates every configurable bank clock.
pub const RAM_CLOCKS_OFF: u16 = 0;
/// `share_ram_cken` value that enables every configurable bank clock.
pub const RAM_CLOCKS_ALL: u16 = 0x3fff;
/// Number of steps of the default Wi-Fi layout sequence.
pub const DEFAULT_WIFI_STEPS: usize = 7;

/// The owner of a configurable shared-RAM bank.
#[derive(Clone, Copy, Debug, PartialEq, Eq, Structural)]
pub enum RamOwner {
    /// Wi-Fi packet RAM.
    Packet,
    /// CPU instruction tightly-coupled memory.
    Itcm,
    /// CPU data tightly-coupled memory.
    Dtcm,
}

/// The 2-bit hardware selection that gives a bank to the owner.
pub open spec fn owner_selection(owner: RamOwner) -> u8 {
    match owner {
        RamOwner::Packet => 0,
        RamOwner::Itcm => 2,
        RamOwner::Dtcm => 3,
    }
}

impl RamOwner {
    /// The 2-bit hardware selection that gives a bank to this owner:
    /// packet 0, ITCM 2, DTCM 3.
    pub fn selection(&self) -> (r: u8)
        ensures
            r == owner_selection(*self),
    {
        match self {
            RamOwner::Packet => 0,
            RamOwner::Itcm => 2,
            RamOwner::Dtcm => 3,
        }
    }
}

/// A 2-bit bank selection that the hardware defines: packet (0), ITCM (2)
/// or DTCM (3).
pub open spec fn valid_selection(v: u8) -> bool {
    v == 0 || v == 2 || v == 3
}

/// The bank-selection fields of `cfg_ram_sel`: a 2-bit selection for each of
/// RAM5 to RAM11, and the single selection bit of RAM12.
#[derive(Clone, Copy, Debug, PartialEq, Eq, Structural)]
pub struct RamSelect {
    pub ram5_sel: u8,
    pub ram6_sel: u8,
    pub ram7_sel: u8,
    pub ram8_sel: u8,
    pub ram9_sel: u8,
    pub ram10_sel: u8,
    pub ram11_sel: u8,
    pub ram12_sel: bool,
}

/// The default Wi-Fi bank layout.
pub open spec fn default_wifi_layout() -> RamSelect {
    RamSelect {
        ram5_sel: owner_selection(RamOwner::Packet),
        ram6_sel: owner_selection(RamOwner::Packet),
        ram7_sel: owner_selection(RamOwner::Packet),
        ram8_sel: owner_selection(RamOwner::Packet),
        ram9_sel: owner_selection(RamOwner::Packet),
        ram10_sel: owner_selection(RamOwner::Dtcm),
        ram11_sel: owner_selection(RamOwner::Itcm),
        ram12_sel: false,
    }
}

/// One step of a shared-RAM ownership change.
#[derive(Clone, Copy, Debug, PartialEq, Eq, Structural)]
pub enum SharedMemAction {
    /// Write the value to `cfg_ram_cken.share_ram_cken`, keeping the
    /// register's other fields.
    SetRamClocks(u16),
    /// Set (`true`) or clear (`false`) `em_gt_mode.enable` of the Bluetooth
    /// exchange-memory controller, keeping the register's other fields.
    SetBtEmGate(bool),
    /// Write the bank selections to `cfg_ram_sel`, keeping the register's
    /// other fields.
    SelectRamOwners(RamSelect),
    /// Order every device access before it against every one after it.
    Fence,
}

/// The sequence that applies the default Wi-Fi layout.
pub open spec fn default_wifi_sequence() -> Seq<SharedMemAction> {
    seq![
        SharedMemAction::SetRamClocks(RAM_CLOCKS_OFF),
        SharedMemAction::SetBtEmGate(true),
        SharedMemAction::Fence,
        SharedMemAction::SelectRamOwners(default_wifi_layout()),
        SharedMemAction::SetRamClocks(RAM_CLOCKS_ALL),
        SharedMemAction::SetBtEmGate(false),
        SharedMemAction::Fence,
    ]
}

/// The register fields that a shared-RAM ownership change writes. Each
/// step writes its field by read-modify-write, so the other fields of those
/// registers, and every other register, keep their contents.
#[derive(Clone, Copy, Debug, PartialEq, Eq, Structural)]
pub struct SharedMemState {
    /// `cfg_ram_cken.share_ram_cken`.
    pub share_ram_cken: u16,
    /// `em_gt_mode.enable` of the Bluetooth exchange-memory controller.
    pub bt_em_gate: bool,
    /// The bank-selection fields of `cfg_ram_sel`.
    pub ram_select: RamSelect,
}

/// The fields after one step.
pub open spec fn apply_shared_mem_action(s: SharedMemState, a: SharedMemAction) -> SharedMemState {
    match a {
        SharedMemAction::SetRamClocks(v) => SharedMemState { share_ram_cken: v, ..s },
        SharedMemAction::SetBtEmGate(b) => SharedMemState { bt_em_gate: b, ..s },
        SharedMemAction::SelectRamOwners(sel) => SharedMemState { ram_select: sel, ..s },
        SharedMemAction::Fence => s,
    }
}

/// The fields after the first `n` steps of `actions`, starting from `s`.
pub open spec fn run_shared_mem_steps(
    s: SharedMemState,
    actions: Seq<SharedMemAction>,
    n: nat,
) -> SharedMemState
    decreases n,
{
    if n == 0 {
        s
    } else {
        apply_shared_mem_action(
            run_shared_mem_steps(s, actions, (n - 1) as nat),
            actions[n - 1],
        )
    }
}

/// The fields after all of `actions`, starting from `s`.
pub open spec fn run_shared_mem(s: SharedMemState, actions: Seq<SharedMemAction>) -> SharedMemState {
    run_shared_mem_steps(s, actions, actions.len())
}

/// The fields once the default Wi-Fi layout has been applied: every bank
/// clock on, the exchange memory released, the default layout selected.
pub open spec fn default_wifi_state() -> SharedMemState {
    SharedMemState {
        share_ram_cken: RAM_CLOCKS_ALL,
        bt_em_gate: false,
        ram_select: default_wifi_layout(),
    }
}

/// Controller for WS63 shared-RAM bank ownership, exclusive as long as its
/// tokens are.
pub struct SharedMemory<'d> {
    _share_mem: ShareMemCtl<'d>,
    _bt_em: BtEmCtl<'d>,
}

impl<'d> SharedMemory<'d> {
    /// Creates a shared-memory controller from its singleton tokens.
    pub fn new(share_mem: ShareMemCtl<'d>, bt_em: BtEmCtl<'d>) -> (r: Self)
        ensures
            r.share_mem_token() == share_mem,
            r.bt_em_token() == bt_em,
    {
        SharedMemory { _share_mem: share_mem, _bt_em: bt_em }
    }

    /// The shared-RAM controller token that the controller holds.
    pub closed spec fn share_mem_token(&self) -> ShareMemCtl<'d> {
        self._share_mem
    }

    /// The exchange-memory controller token that the controller holds.
    pub closed spec fn bt_em_token(&self) -> BtEmCtl<'d> {
        self._bt_em
    }

    /// The default Wi-Fi bank layout: packet RAM for RAM5-RAM9 and RAM12,
    /// DTCM for RAM10, ITCM for RAM11.
    pub fn default_wifi_layout(&self) -> (r: RamSelect)
        ensures
            r == default_wifi_layout(),
    {
        let packet: u8 = RamOwner::Packet.selection();
        RamSelect {
            ram5_sel: packet,
            ram6_sel: packet,
            ram7_sel: packet,
            ram8_sel: packet,
            ram9_sel: packet,
            ram10_sel: RamOwner::Dtcm.selection(),
            ram11_sel: RamOwner::Itcm.selection(),
            ram12_sel: false,
        }
    }

    /// Step `step` of the sequence that applies the default Wi-Fi layout,
    /// or `None` once it is over.
    ///
    /// The sequence briefly gates all configurable RAM-bank clocks while
    /// ownership changes, so the caller must run it from flash and before
    /// starting RF workers.
    pub fn configure_default_wifi_action(&self, step: usize) -> (r: Option<SharedMemAction>)
        ensures
            r == (if step < default_wifi_sequence().len() {
                Some(default_wifi_sequence()[step as int])
            } else {
                None
            }),
    {
        if step == 0 {
            Some(SharedMemAction::SetRamClocks(RAM_CLOCKS_OFF))
        } else if step == 1 {
            Some(SharedMemAction::SetBtEmGate(true))
        } else if step == 2 {
            Some(SharedMemAction::Fence)
        } else if step == 3 {
            Some(SharedMemAction::SelectRamOwners(self.default_wifi_layout()))
        } else if step == 4 {
            Some(SharedMemAction::SetRamClocks(RAM_CLOCKS_ALL))
        } else if step == 5 {
            Some(SharedMemAction::SetBtEmGate(false))
        } else if step == 6 {
            Some(SharedMemAction::Fence)
        } else {
            None
        }
    }
}

/// Every selection of the default layout is a valid hardware selection: a
/// 2-bit value that is packet (0), ITCM (2) or DTCM (3).
pub proof fn lemma_default_layout_selections_valid()
    ensures
        ({
            let l = default_wifi_layout();
            &&& valid_selection(l.ram5_sel)
            &&& valid_selection(l.ram6_sel)
            &&& valid_selection(l.ram7_sel)
            &&& valid_selection(l.ram8_sel)
            &&& valid_selection(l.ram9_sel)
            &&& valid_selection(l.ram10_sel)
            &&& valid_selection(l.ram11_sel)
        }),
{
}

/// The default Wi-Fi layout, in the hardware's 2-bit selections (packet 0,
/// ITCM 2, DTCM 3): packet RAM for RAM5 to RAM9 and RAM12, DTCM for RAM10,
/// ITCM for RAM11.
pub proof fn lemma_default_layout_owners()
    ensures
        ({
            let l = default_wifi_layout();
            &&& l.ram5_sel == 0 && l.ram6_sel == 0 && l.ram7_sel == 0
            &&& l.ram8_sel == 0 && l.ram9_sel == 0
            &&& l.ram10_sel == 3
            &&& l.ram11_sel == 2
            &&& !l.ram12_sel
        }),
{
}

/// Every owner's selection is a valid 2-bit hardware selection, and no two
/// owners share one.
pub proof fn lemma_owner_selections_distinct_and_valid(a: RamOwner, b: RamOwner)
    ensures
        valid_selection(owner_selection(a)),
        owner_selection(a) == owner_selection(b) ==> a == b,
{
}

/// The bank selections are written only while every configurable bank
/// clock is gated and the exchange memory is in gate mode, with a fence
/// between the gating and the write; afterwards every one of the
/// [`RAM_CLOCK_FIELD_BITS`] clocks is enabled again, the exchange memory is
/// released, and a final fence orders the change before what follows.
pub proof fn lemma_banks_gated_while_owners_change()
    ensures
        ({
            let s = default_wifi_sequence();
            &&& s.len() == DEFAULT_WIFI_STEPS
            &&& s[3] is SelectRamOwners
            &&& forall|i: int| 0 <= i < s.len() && i != 3 ==> !(s[i] is SelectRamOwners)
            &&& s[0] == SharedMemAction::SetRamClocks(0)
            &&& s[1] == SharedMemAction::SetBtEmGate(true)
            &&& s[2] == SharedMemAction::Fence
            &&& s[4] == SharedMemAction::SetRamClocks(RAM_CLOCKS_ALL)
            &&& s[5] == SharedMemAction::SetBtEmGate(false)
            &&& s[6] == SharedMemAction::Fence
            &&& RAM_CLOCKS_ALL as int == vstd::arithmetic::power2::pow2(
                RAM_CLOCK_FIELD_BITS as nat,
            ) - 1
        }),
{
    let s = default_wifi_sequence();
    assert forall|i: int| 0 <= i < s.len() && i != 3 implies !(s[i] is SelectRamOwners) by {
        if i == 0 {
        } else if i == 1 {
        } else if i == 2 {
        } else if i == 4 {
        } else if i == 5 {
        } else {
        }
    }
    vstd::arithmetic::power2::lemma2_to64();
}

/// Whatever the registers held before, applying the default Wi-Fi layout
/// leaves them in [`default_wifi_state`], and the owners are selected while
/// every bank clock is gated and the exchange memory is in gate mode.
pub proof fn lemma_default_wifi_final_state(s: SharedMemState)
    ensures
        run_shared_mem(s, default_wifi_sequence()) == default_wifi_state(),
        run_shared_mem_steps(s, default_wifi_sequence(), 3).share_ram_cken == RAM_CLOCKS_OFF,
        run_shared_mem_steps(s, default_wifi_sequence(), 3).bt_em_gate,
{
    reveal_with_fuel(run_shared_mem_steps, 8);
}

/// Applying the default Wi-Fi layout twice in a row leaves the registers as
/// applying it once.
pub proof fn lemma_default_wifi_idempotent(s: SharedMemState)
    ensures
        run_shared_mem(run_shared_mem(s, default_wifi_sequence()), default_wifi_sequence())
            == run_shared_mem(s, default_wifi_sequence()),
{
    lemma_default_wifi_final_state(s);
    lemma_default_wifi_final_state(run_shared_mem(s, default_wifi_sequence()));
}

} // verus!
