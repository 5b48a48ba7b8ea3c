//! WS63 RF analog-power and clock preparation.
//!
//! The mask ROM and vendor Wi-Fi objects own calibration, FRW dispatch, and
//! the radio state machines. They do not perform the application-level
//! power-up sequence: the vendor SDK calls `open_rf_power()` and the RF/Wi-Fi
//! part of `switch_clock()` from `hw_init()` before entering the Wi-Fi
//! stack. This module provides that narrow, board-independent step.
//!
//! The sequence is a fixed list of register writes and delays, with one read
//! in the middle: the Wi-Fi clock-gate field, whose value decides the two
//! gate writes that follow it. [`RfPower::enable_action`] hands out the
//! steps one at a time; the caller performs each one on the hardware and
//! passes the value of the read back in.

use crate::peripherals::{CldoCrg, Cmu};
use vstd::prelude::*;

verus! {

/// XO trim: select the reversed trim path.
pub const XO_TRIM_REVERSE_SELECT: u32 = 0x3_0000;
/// XO trim: coarse trim value.
pub const XO_TRIM_COARSE: u32 = 0x3_083c;
/// Enable value of the RX, LNA and ABB LDOs.
pub const LDO_ENABLE: u16 = 0x4070;
/// Value of the RX, LNA and ABB LDOs once their settling delay has passed.
pub const LDO_ENABLE_DELAYED: u16 = 0x6070;
/// Enable value of the PLL LDO.
pub const PLL_LDO_ENABLE: u16 = 0x4080;
/// Value of the PLL LDO once its settling delay has passed.
pub const PLL_LDO_ENABLE_DELAYED: u16 = 0x6080;
/// Enable value of the VCO LDO.
pub const VCO_LDO_ENABLE: u16 = 0x4000;
/// Value of the VCO LDO once its settling delay has passed.
pub const VCO_LDO_ENABLE_DELAYED: u16 = 0x6000;
/// Enable value of the TX LDO.
pub const TX_LDO_ENABLE: u16 = 0x4030;
/// Value of the TX LDO once its settling delay has passed.
pub const TX_LDO_ENABLE_DELAYED: u16 = 0x6030;
/// Releases the ADC/DAC isolation.
pub const RELEASE_ADDA_ISOLATION: u8 = 0x03;
/// Enables the RF PLL reference clock.
pub const ENABLE_RF_PLL_REFERENCE: u8 = 0x05;

/// Delay after an LDO enable before its delayed value is written, in µs.
pub const LDO_SETTLE_US: u32 = 120;
/// Delay after an LDO reaches its delayed value, in µs.
pub const LDO_HOLD_US: u32 = 10;
/// Delay around the PHY clock switch, in µs.
pub const CLOCK_SWITCH_US: u32 = 1;

/// Number of steps of the power-up sequence.
pub const ENABLE_STEPS: usize = 36;
/// Number of steps of the analog power-up part of the sequence.
pub const ANALOG_POWER_STEPS: usize = 28;
/// Index of the step that reads the Wi-Fi clock-gate field.
pub const WIFI_GATES_READ_STEP: usize = 29;

/// A CMU register whose `control` field the power-up sequence writes.
#[derive(Clone, Copy, Debug, PartialEq, Eq, Structural)]
pub enum RfRegister {
    /// `xo_signal` (32-bit control field).
    XoSignal,
    /// `rf_rx_ldo` (16-bit control field).
    RxLdo,
    /// `rf_pll_ldo` (16-bit control field).
    PllLdo,
    /// `rf_lna_ldo` (16-bit control field).
    LnaLdo,
    /// `rf_vco_ldo` (16-bit control field).
    VcoLdo,
    /// `rf_tx_ldo` (16-bit control field).
    TxLdo,
    /// `rf_abb_ldo` (16-bit control field).
    AbbLdo,
    /// `rf_adda_iso` (8-bit control field).
    AddaIso,
    /// `rf_pll_reference` (8-bit control field).
    PllReference,
}

/// A clock-select bit of CLDO_CRG `clk_sel`.
#[derive(Clone, Copy, Debug, PartialEq, Eq, Structural)]
pub enum ClockSelect {
    /// `wifi_mac_clk_sel`.
    WifiMac,
    /// `wifi_phy_clk_sel`.
    WifiPhy,
    /// `rf_ctl_clk_sel`.
    RfCtl,
}

/// One step of the RF power-up sequence.
#[derive(Clone, Copy, Debug, PartialEq, Eq, Structural)]
pub enum RfAction {
    /// Write the register: its `control` field gets the value and every
    /// other field its reset value.
    Write(RfRegister, u32),
    /// Wait at least this many microseconds.
    DelayUs(u32),
    /// Set the clock-select bit, keeping the other bits of `clk_sel`.
    SelectClock(ClockSelect),
    /// Read the `wifi_cken` field of `cken_ctl1` and pass it back in.
    ReadWifiGates,
    /// Write the value to the `wifi_cken` field of `cken_ctl1`, keeping the
    /// register's other fields.
    WriteWifiGates(u32),
}

/// The largest value that the `control` field of the register holds.
pub open spec fn register_max(reg: RfRegister) -> u32 {
    match reg {
        RfRegister::XoSignal => 0xffff_ffff,
        RfRegister::AddaIso | RfRegister::PllReference => 0xff,
        _ => 0xffff,
    }
}

/// An LDO register is enabled, left to settle, then switched to its delayed
/// value and held.
pub open spec fn ldo_ramp(reg: RfRegister, enable: u16, delayed: u16) -> Seq<RfAction> {
    seq![
        RfAction::Write(reg, enable as u32),
        RfAction::DelayUs(LDO_SETTLE_US),
        RfAction::Write(reg, delayed as u32),
        RfAction::DelayUs(LDO_HOLD_US),
    ]
}

/// The XO trim writes.
pub open spec fn xo_trim_steps() -> Seq<RfAction> {
    seq![
        RfAction::Write(RfRegister::XoSignal, XO_TRIM_REVERSE_SELECT),
        RfAction::Write(RfRegister::XoSignal, XO_TRIM_COARSE),
    ]
}

/// The ramps of the RX, PLL, LNA, VCO and TX LDOs, in that order.
pub open spec fn ldo_ramps() -> Seq<RfAction> {
    ldo_ramp(RfRegister::RxLdo, LDO_ENABLE, LDO_ENABLE_DELAYED)
        + ldo_ramp(RfRegister::PllLdo, PLL_LDO_ENABLE, PLL_LDO_ENABLE_DELAYED)
        + ldo_ramp(RfRegister::LnaLdo, LDO_ENABLE, LDO_ENABLE_DELAYED)
        + ldo_ramp(RfRegister::VcoLdo, VCO_LDO_ENABLE, VCO_LDO_ENABLE_DELAYED)
        + ldo_ramp(RfRegister::TxLdo, TX_LDO_ENABLE, TX_LDO_ENABLE_DELAYED)
}

/// The ABB LDO ramp, the ADC/DAC isolation release and the PLL reference
/// enable.
pub open spec fn baseband_steps() -> Seq<RfAction> {
    seq![
        RfAction::Write(RfRegister::AbbLdo, LDO_ENABLE as u32),
        RfAction::DelayUs(LDO_SETTLE_US),
        RfAction::Write(RfRegister::AbbLdo, LDO_ENABLE_DELAYED as u32),
        RfAction::Write(RfRegister::AddaIso, RELEASE_ADDA_ISOLATION as u32),
        RfAction::Write(RfRegister::PllReference, ENABLE_RF_PLL_REFERENCE as u32),
        RfAction::DelayUs(LDO_HOLD_US),
    ]
}

/// The analog power-up part of the sequence (the SDK's `open_rf_power()`).
pub open spec fn analog_power_steps() -> Seq<RfAction> {
    xo_trim_steps() + ldo_ramps() + baseband_steps()
}

/// The Wi-Fi part of the SDK's `switch_clock()`, given the value that the
/// read of `wifi_cken` returned: the MAC clock is switched to the PLL, the
/// Wi-Fi gate (bit 0) is closed while the PHY clock is switched, then opened
/// again, and finally the RF control clock is switched. The other gates keep
/// the value that was read.
pub open spec fn clock_switch_steps(wifi_gates: u32) -> Seq<RfAction> {
    seq![
        RfAction::SelectClock(ClockSelect::WifiMac),
        RfAction::ReadWifiGates,
        RfAction::WriteWifiGates(wifi_gates & !1u32),
        RfAction::DelayUs(CLOCK_SWITCH_US),
        RfAction::SelectClock(ClockSelect::WifiPhy),
        RfAction::DelayUs(CLOCK_SWITCH_US),
        RfAction::WriteWifiGates(wifi_gates | 1u32),
        RfAction::SelectClock(ClockSelect::RfCtl),
    ]
}

/// The whole power-up sequence, given the value that its read of
/// `wifi_cken` returns.
pub open spec fn enable_sequence(wifi_gates: u32) -> Seq<RfAction> {
    analog_power_steps() + clock_switch_steps(wifi_gates)
}

/// Exclusive controller for the WS63 application-owned RF power sequence.
///
/// Construction consumes the CMU and CLDO_CRG tokens, so that, as long as
/// each token exists once (which rests on whoever creates the tokens), no
/// other context changes the same analog-power and clock registers while
/// the sequence runs. [`RfPower::into_cldo_crg`] gives the same CLDO_CRG
/// token back once the sequence is done, so that it can be moved into the
/// system clock driver.
pub struct RfPower<'d> {
    _cmu: Cmu<'d>,
    cldo_crg: CldoCrg<'d>,
}

impl<'d> RfPower<'d> {
    /// Creates the RF power controller from its exclusive peripheral tokens.
    pub fn new(cmu: Cmu<'d>, cldo_crg: CldoCrg<'d>) -> (r: Self)
        ensures
            r.cmu_token() == cmu,
            r.cldo_crg_token() == cldo_crg,
    {
        RfPower { _cmu: cmu, cldo_crg }
    }

    /// The CMU token that the controller holds.
    pub closed spec fn cmu_token(&self) -> Cmu<'d> {
        self._cmu
    }

    /// The CLDO_CRG token that the controller holds.
    pub closed spec fn cldo_crg_token(&self) -> CldoCrg<'d> {
        self.cldo_crg
    }

    /// Step `step` of the power-up sequence, or `None` once the sequence is
    /// over. `wifi_gates` is the value returned by the step that reads the
    /// Wi-Fi clock gates; the steps up to and including that read do not
    /// depend on it, so any value may be passed until the read has happened.
    pub fn enable_action(&self, step: usize, wifi_gates: u32) -> (r: Option<RfAction>)
        ensures
            r == (if step < enable_sequence(wifi_gates).len() {
                Some(enable_sequence(wifi_gates)[step as int])
            } else {
                None
            }),
    {
        if step < ANALOG_POWER_STEPS {
            Some(analog_power_action(step))
        } else if step < ENABLE_STEPS {
            Some(clock_switch_action(step - ANALOG_POWER_STEPS, wifi_gates))
        } else {
            None
        }
    }

    /// Ends the sequence and gives back the CLDO_CRG token.
    pub fn into_cldo_crg(self) -> (r: CldoCrg<'d>)
        ensures
            r == self.cldo_crg_token(),
    {
        self.cldo_crg
    }
}

fn ldo_ramp_action(reg: RfRegister, enable: u16, delayed: u16, stage: usize) -> (r: RfAction)
    requires
        stage < 4,
    ensures
        r == ldo_ramp(reg, enable, delayed)[stage as int],
{
    if stage == 0 {
        RfAction::Write(reg, enable as u32)
    } else if stage == 1 {
        RfAction::DelayUs(LDO_SETTLE_US)
    } else if stage == 2 {
        RfAction::Write(reg, delayed as u32)
    } else {
        RfAction::DelayUs(LDO_HOLD_US)
    }
}

fn analog_power_action(step: usize) -> (r: RfAction)
    requires
        step < analog_power_steps().len(),
    ensures
        r == analog_power_steps()[step as int],
{
    assert(analog_power_steps().len() == ANALOG_POWER_STEPS);
    if step == 0 {
        RfAction::Write(RfRegister::XoSignal, XO_TRIM_REVERSE_SELECT)
    } else if step == 1 {
        RfAction::Write(RfRegister::XoSignal, XO_TRIM_COARSE)
    } else if step < 22 {
        let k: usize = (step - 2) / 4;
        let stage: usize = (step - 2) % 4;
        proof {
            lemma_ldo_ramps_index(k as int, stage as int);
        }
        if k == 0 {
            ldo_ramp_action(RfRegister::RxLdo, LDO_ENABLE, LDO_ENABLE_DELAYED, stage)
        } else if k == 1 {
            ldo_ramp_action(RfRegister::PllLdo, PLL_LDO_ENABLE, PLL_LDO_ENABLE_DELAYED, stage)
        } else if k == 2 {
            ldo_ramp_action(RfRegister::LnaLdo, LDO_ENABLE, LDO_ENABLE_DELAYED, stage)
        } else if k == 3 {
            ldo_ramp_action(RfRegister::VcoLdo, VCO_LDO_ENABLE, VCO_LDO_ENABLE_DELAYED, stage)
        } else {
            ldo_ramp_action(RfRegister::TxLdo, TX_LDO_ENABLE, TX_LDO_ENABLE_DELAYED, stage)
        }
    } else if step == 22 {
        RfAction::Write(RfRegister::AbbLdo, LDO_ENABLE as u32)
    } else if step == 23 {
        RfAction::DelayUs(LDO_SETTLE_US)
    } else if step == 24 {
        RfAction::Write(RfRegister::AbbLdo, LDO_ENABLE_DELAYED as u32)
    } else if step == 25 {
        RfAction::Write(RfRegister::AddaIso, RELEASE_ADDA_ISOLATION as u32)
    } else if step == 26 {
        RfAction::Write(RfRegister::PllReference, ENABLE_RF_PLL_REFERENCE as u32)
    } else {
        RfAction::DelayUs(LDO_HOLD_US)
    }
}

fn clock_switch_action(step: usize, wifi_gates: u32) -> (r: RfAction)
    requires
        step < 8,
    ensures
        r == clock_switch_steps(wifi_gates)[step as int],
{
    if step == 0 {
        RfAction::SelectClock(ClockSelect::WifiMac)
    } else if step == 1 {
        RfAction::ReadWifiGates
    } else if step == 2 {
        RfAction::WriteWifiGates(wifi_gates & !1u32)
    } else if step == 3 {
        RfAction::DelayUs(CLOCK_SWITCH_US)
    } else if step == 4 {
        RfAction::SelectClock(ClockSelect::WifiPhy)
    } else if step == 5 {
        RfAction::DelayUs(CLOCK_SWITCH_US)
    } else if step == 6 {
        RfAction::WriteWifiGates(wifi_gates | 1u32)
    } else {
        RfAction::SelectClock(ClockSelect::RfCtl)
    }
}

/// Position `4 * k + stage` of the LDO ramps is stage `stage` of the ramp of
/// the `k`-th LDO.
proof fn lemma_ldo_ramps_index(k: int, stage: int)
    requires
        0 <= k < 5,
        0 <= stage < 4,
    ensures
        ldo_ramps().len() == 20,
        ldo_ramps()[4 * k + stage] == (if k == 0 {
            ldo_ramp(RfRegister::RxLdo, LDO_ENABLE, LDO_ENABLE_DELAYED)
        } else if k == 1 {
            ldo_ramp(RfRegister::PllLdo, PLL_LDO_ENABLE, PLL_LDO_ENABLE_DELAYED)
        } else if k == 2 {
            ldo_ramp(RfRegister::LnaLdo, LDO_ENABLE, LDO_ENABLE_DELAYED)
        } else if k == 3 {
            ldo_ramp(RfRegister::VcoLdo, VCO_LDO_ENABLE, VCO_LDO_ENABLE_DELAYED)
        } else {
            ldo_ramp(RfRegister::TxLdo, TX_LDO_ENABLE, TX_LDO_ENABLE_DELAYED)
        })[stage],
{
}

/// The register fields that the power-up sequence writes: the `control`
/// field of each CMU register, the three clock-select bits of CLDO_CRG
/// `clk_sel` and the `wifi_cken` field of `cken_ctl1`. A CMU write puts the
/// register's other fields to their reset value; the CLDO_CRG steps are
/// read-modify-writes and keep every other field.
#[derive(Clone, Copy, Debug, PartialEq, Eq, Structural)]
pub struct RfState {
    pub xo_signal: u32,
    pub rx_ldo: u32,
    pub pll_ldo: u32,
    pub lna_ldo: u32,
    pub vco_ldo: u32,
    pub tx_ldo: u32,
    pub abb_ldo: u32,
    pub adda_iso: u32,
    pub pll_reference: u32,
    pub wifi_mac_clk_sel: bool,
    pub wifi_phy_clk_sel: bool,
    pub rf_ctl_clk_sel: bool,
    pub wifi_cken: u32,
}

/// The fields after `value` is written to the `control` field of `reg`.
pub open spec fn write_control(s: RfState, reg: RfRegister, value: u32) -> RfState {
    match reg {
        RfRegister::XoSignal => RfState { xo_signal: value, ..s },
        RfRegister::RxLdo => RfState { rx_ldo: value, ..s },
        RfRegister::PllLdo => RfState { pll_ldo: value, ..s },
        RfRegister::LnaLdo => RfState { lna_ldo: value, ..s },
        RfRegister::VcoLdo => RfState { vco_ldo: value, ..s },
        RfRegister::TxLdo => RfState { tx_ldo: value, ..s },
        RfRegister::AbbLdo => RfState { abb_ldo: value, ..s },
        RfRegister::AddaIso => RfState { adda_iso: value, ..s },
        RfRegister::PllReference => RfState { pll_reference: value, ..s },
    }
}

/// The fields after one step.
pub open spec fn apply_rf_action(s: RfState, a: RfAction) -> RfState {
    match a {
        RfAction::Write(reg, value) => write_control(s, reg, value),
        RfAction::DelayUs(_) => s,
        RfAction::SelectClock(ClockSelect::WifiMac) => RfState { wifi_mac_clk_sel: true, ..s },
        RfAction::SelectClock(ClockSelect::WifiPhy) => RfState { wifi_phy_clk_sel: true, ..s },
        RfAction::SelectClock(ClockSelect::RfCtl) => RfState { rf_ctl_clk_sel: true, ..s },
        RfAction::ReadWifiGates => s,
        RfAction::WriteWifiGates(value) => RfState { wifi_cken: value, ..s },
    }
}

/// The fields after the first `n` steps of `actions`, starting from `s`.
pub open spec fn run_rf_steps(s: RfState, actions: Seq<RfAction>, n: nat) -> RfState
    decreases n,
{
    if n == 0 {
        s
    } else {
        apply_rf_action(run_rf_steps(s, actions, (n - 1) as nat), actions[n - 1])
    }
}

/// The fields after all of `actions`, starting from `s`.
pub open spec fn run_rf(s: RfState, actions: Seq<RfAction>) -> RfState {
    run_rf_steps(s, actions, actions.len())
}

/// The fields once the power-up sequence is over, started from `s`: every
/// CMU register holds its final value, the MAC, PHY and RF control clocks
/// are switched to the PLL, and the Wi-Fi gate is open with the other gates
/// as they were.
pub open spec fn powered_up_state(s: RfState) -> RfState {
    RfState {
        xo_signal: XO_TRIM_COARSE,
        rx_ldo: LDO_ENABLE_DELAYED as u32,
        pll_ldo: PLL_LDO_ENABLE_DELAYED as u32,
        lna_ldo: LDO_ENABLE_DELAYED as u32,
        vco_ldo: VCO_LDO_ENABLE_DELAYED as u32,
        tx_ldo: TX_LDO_ENABLE_DELAYED as u32,
        abb_ldo: LDO_ENABLE_DELAYED as u32,
        adda_iso: RELEASE_ADDA_ISOLATION as u32,
        pll_reference: ENABLE_RF_PLL_REFERENCE as u32,
        wifi_mac_clk_sel: true,
        wifi_phy_clk_sel: true,
        rf_ctl_clk_sel: true,
        wifi_cken: s.wifi_cken | 1u32,
    }
}

proof fn lemma_run_rf_prefix(s: RfState, a: Seq<RfAction>, b: Seq<RfAction>, n: nat)
    requires
        n <= a.len(),
    ensures
        run_rf_steps(s, a + b, n) == run_rf_steps(s, a, n),
    decreases n,
{
    if n > 0 {
        lemma_run_rf_prefix(s, a, b, (n - 1) as nat);
    }
}

proof fn lemma_run_rf_suffix(s: RfState, a: Seq<RfAction>, b: Seq<RfAction>, m: nat)
    requires
        m <= b.len(),
    ensures
        run_rf_steps(s, a + b, a.len() + m) == run_rf_steps(run_rf(s, a), b, m),
    decreases m,
{
    if m == 0 {
        lemma_run_rf_prefix(s, a, b, a.len());
    } else {
        lemma_run_rf_suffix(s, a, b, (m - 1) as nat);
        assert((a + b)[a.len() + m - 1] == b[m - 1]);
    }
}

/// Running two sequences one after the other is running their
/// concatenation.
proof fn lemma_run_rf_concat(s: RfState, a: Seq<RfAction>, b: Seq<RfAction>)
    ensures
        run_rf(s, a + b) == run_rf(run_rf(s, a), b),
{
    lemma_run_rf_suffix(s, a, b, b.len());
}

proof fn lemma_run_ldo_ramp(s: RfState, reg: RfRegister, enable: u16, delayed: u16)
    ensures
        run_rf(s, ldo_ramp(reg, enable, delayed)) == write_control(s, reg, delayed as u32),
{
    reveal_with_fuel(run_rf_steps, 5);
    let t = write_control(s, reg, enable as u32);
    assert(write_control(t, reg, delayed as u32) == write_control(s, reg, delayed as u32));
}

proof fn lemma_run_xo_trim(s: RfState)
    ensures
        run_rf(s, xo_trim_steps()) == (RfState { xo_signal: XO_TRIM_COARSE, ..s }),
{
    reveal_with_fuel(run_rf_steps, 3);
}

proof fn lemma_run_baseband(s: RfState)
    ensures
        run_rf(s, baseband_steps()) == (RfState {
            abb_ldo: LDO_ENABLE_DELAYED as u32,
            adda_iso: RELEASE_ADDA_ISOLATION as u32,
            pll_reference: ENABLE_RF_PLL_REFERENCE as u32,
            ..s
        }),
{
    reveal_with_fuel(run_rf_steps, 7);
}

proof fn lemma_run_ldo_ramps(s: RfState)
    ensures
        run_rf(s, ldo_ramps()) == (RfState {
            rx_ldo: LDO_ENABLE_DELAYED as u32,
            pll_ldo: PLL_LDO_ENABLE_DELAYED as u32,
            lna_ldo: LDO_ENABLE_DELAYED as u32,
            vco_ldo: VCO_LDO_ENABLE_DELAYED as u32,
            tx_ldo: TX_LDO_ENABLE_DELAYED as u32,
            ..s
        }),
{
    let r0 = ldo_ramp(RfRegister::RxLdo, LDO_ENABLE, LDO_ENABLE_DELAYED);
    let r1 = ldo_ramp(RfRegister::PllLdo, PLL_LDO_ENABLE, PLL_LDO_ENABLE_DELAYED);
    let r2 = ldo_ramp(RfRegister::LnaLdo, LDO_ENABLE, LDO_ENABLE_DELAYED);
    let r3 = ldo_ramp(RfRegister::VcoLdo, VCO_LDO_ENABLE, VCO_LDO_ENABLE_DELAYED);
    let r4 = ldo_ramp(RfRegister::TxLdo, TX_LDO_ENABLE, TX_LDO_ENABLE_DELAYED);
    lemma_run_rf_concat(s, r0 + r1 + r2 + r3, r4);
    lemma_run_rf_concat(s, r0 + r1 + r2, r3);
    lemma_run_rf_concat(s, r0 + r1, r2);
    lemma_run_rf_concat(s, r0, r1);
    lemma_run_ldo_ramp(s, RfRegister::RxLdo, LDO_ENABLE, LDO_ENABLE_DELAYED);
    let s1 = run_rf(s, r0);
    lemma_run_ldo_ramp(s1, RfRegister::PllLdo, PLL_LDO_ENABLE, PLL_LDO_ENABLE_DELAYED);
    let s2 = run_rf(s1, r1);
    lemma_run_ldo_ramp(s2, RfRegister::LnaLdo, LDO_ENABLE, LDO_ENABLE_DELAYED);
    let s3 = run_rf(s2, r2);
    lemma_run_ldo_ramp(s3, RfRegister::VcoLdo, VCO_LDO_ENABLE, VCO_LDO_ENABLE_DELAYED);
    let s4 = run_rf(s3, r3);
    lemma_run_ldo_ramp(s4, RfRegister::TxLdo, TX_LDO_ENABLE, TX_LDO_ENABLE_DELAYED);
}

proof fn lemma_run_analog_power(s: RfState)
    ensures
        run_rf(s, analog_power_steps()) == (RfState {
            wifi_mac_clk_sel: s.wifi_mac_clk_sel,
            wifi_phy_clk_sel: s.wifi_phy_clk_sel,
            rf_ctl_clk_sel: s.rf_ctl_clk_sel,
            wifi_cken: s.wifi_cken,
            ..powered_up_state(s)
        }),
{
    let x = xo_trim_steps();
    lemma_run_rf_concat(s, x + ldo_ramps(), baseband_steps());
    lemma_run_rf_concat(s, x, ldo_ramps());
    lemma_run_xo_trim(s);
    let s1 = run_rf(s, x);
    lemma_run_ldo_ramps(s1);
    lemma_run_baseband(run_rf(s1, ldo_ramps()));
}

/// Whatever the registers held before, the power-up sequence, given the
/// value that its read returns, leaves them in [`powered_up_state`]. The
/// read returns the gates as they were at the start, since no step before
/// it writes them; while the PHY clock is switched the Wi-Fi gate is
/// closed.
pub proof fn lemma_power_up_final_state(s: RfState)
    ensures
        run_rf_steps(s, enable_sequence(s.wifi_cken), WIFI_GATES_READ_STEP as nat).wifi_cken
            == s.wifi_cken,
        run_rf_steps(s, enable_sequence(s.wifi_cken), (WIFI_GATES_READ_STEP + 3) as nat).wifi_cken
            & 1 == 0,
        enable_sequence(s.wifi_cken)[WIFI_GATES_READ_STEP + 3] == RfAction::SelectClock(
            ClockSelect::WifiPhy,
        ),
        run_rf(s, enable_sequence(s.wifi_cken)) == powered_up_state(s),
{
    let g = s.wifi_cken;
    let a = analog_power_steps();
    let c = clock_switch_steps(g);
    lemma_run_analog_power(s);
    lemma_run_rf_concat(s, a, c);
    lemma_enable_sequence_index(g, (WIFI_GATES_READ_STEP + 3) as int);
    lemma_run_rf_suffix(s, a, c, 1);
    lemma_run_rf_suffix(s, a, c, 4);
    reveal_with_fuel(run_rf_steps, 9);
    assert((g & !1u32) & 1 == 0) by (bit_vector);
}

/// Powering up an already powered-up radio changes none of the fields: the
/// sequence is repeatable.
pub proof fn lemma_power_up_repeatable(s: RfState)
    ensures
        ({
            let t = run_rf(s, enable_sequence(s.wifi_cken));
            run_rf(t, enable_sequence(t.wifi_cken)) == t
        }),
{
    let t = run_rf(s, enable_sequence(s.wifi_cken));
    lemma_power_up_final_state(s);
    lemma_power_up_final_state(t);
    let g = s.wifi_cken;
    assert((g | 1u32) | 1u32 == g | 1u32) by (bit_vector);
}

/// Index of the step that enables the RF PLL reference clock.
pub open spec fn pll_reference_step() -> int {
    26
}

/// Whether the register is one of the six RF LDOs.
pub open spec fn is_ldo(reg: RfRegister) -> bool {
    match reg {
        RfRegister::RxLdo | RfRegister::PllLdo | RfRegister::LnaLdo | RfRegister::VcoLdo
        | RfRegister::TxLdo | RfRegister::AbbLdo => true,
        _ => false,
    }
}

/// The value that first enables the LDO.
pub open spec fn ldo_enable_value(reg: RfRegister) -> u16 {
    match reg {
        RfRegister::PllLdo => PLL_LDO_ENABLE,
        RfRegister::VcoLdo => VCO_LDO_ENABLE,
        RfRegister::TxLdo => TX_LDO_ENABLE,
        _ => LDO_ENABLE,
    }
}

/// The step at which the LDO is enabled.
pub open spec fn ldo_enable_step(reg: RfRegister) -> int {
    match reg {
        RfRegister::RxLdo => 2,
        RfRegister::PllLdo => 6,
        RfRegister::LnaLdo => 10,
        RfRegister::VcoLdo => 14,
        RfRegister::TxLdo => 18,
        _ => 22,
    }
}

/// Every step of the sequence, whatever the value that its read returns.
proof fn lemma_enable_sequence_index(wifi_gates: u32, i: int)
    requires
        0 <= i < ENABLE_STEPS,
    ensures
        enable_sequence(wifi_gates).len() == ENABLE_STEPS,
        i < 28 ==> enable_sequence(wifi_gates)[i] == analog_power_steps()[i],
        28 <= i ==> enable_sequence(wifi_gates)[i] == clock_switch_steps(wifi_gates)[i - 28],
        analog_power_steps().len() == 28,
        2 <= i < 22 ==> analog_power_steps()[i] == ldo_ramps()[i - 2],
        22 <= i < 28 ==> analog_power_steps()[i] == baseband_steps()[i - 22],
{
    lemma_ldo_ramps_index(0, 0);
}

/// The sequence has [`ENABLE_STEPS`] steps, reads the Wi-Fi gates at
/// [`WIFI_GATES_READ_STEP`], and the steps up to and including that read are
/// the same whatever the read returns.
pub proof fn lemma_steps_before_read_do_not_depend_on_it(g1: u32, g2: u32, i: int)
    requires
        0 <= i <= WIFI_GATES_READ_STEP,
    ensures
        enable_sequence(g1).len() == ENABLE_STEPS,
        enable_sequence(g1)[WIFI_GATES_READ_STEP as int] == RfAction::ReadWifiGates,
        enable_sequence(g1)[i] == enable_sequence(g2)[i],
{
    lemma_enable_sequence_index(g1, i);
    lemma_enable_sequence_index(g2, i);
    lemma_enable_sequence_index(g1, WIFI_GATES_READ_STEP as int);
}

/// Every value that the sequence writes to a CMU register fits that
/// register's control field.
pub proof fn lemma_writes_fit_registers(wifi_gates: u32, i: int)
    requires
        0 <= i < ENABLE_STEPS,
    ensures
        enable_sequence(wifi_gates)[i] matches RfAction::Write(reg, value) ==> value
            <= register_max(reg),
{
    lemma_enable_sequence_index(wifi_gates, i);
    if 2 <= i < 22 {
        let k = (i - 2) / 4;
        lemma_ldo_ramps_index(k, (i - 2) % 4);
    }
}

/// Each LDO is written its enable value, left at least
/// [`LDO_SETTLE_US`] µs to settle, then written its delayed value, which is
/// the enable value with bit 13 added.
pub proof fn lemma_ldo_ramps_settle(wifi_gates: u32, reg: RfRegister)
    requires
        is_ldo(reg),
    ensures
        ({
            let s = enable_sequence(wifi_gates);
            let p = ldo_enable_step(reg);
            let e = ldo_enable_value(reg);
            &&& e & 0x2000 == 0
            &&& s[p] == RfAction::Write(reg, e as u32)
            &&& s[p + 1] == RfAction::DelayUs(LDO_SETTLE_US)
            &&& s[p + 2] == RfAction::Write(reg, (e | 0x2000) as u32)
        }),
{
    let p = ldo_enable_step(reg);
    lemma_enable_sequence_index(wifi_gates, p);
    lemma_enable_sequence_index(wifi_gates, p + 1);
    lemma_enable_sequence_index(wifi_gates, p + 2);
    assert(LDO_ENABLE & 0x2000 == 0 && LDO_ENABLE | 0x2000 == LDO_ENABLE_DELAYED) by (bit_vector);
    assert(PLL_LDO_ENABLE & 0x2000 == 0 && PLL_LDO_ENABLE | 0x2000 == PLL_LDO_ENABLE_DELAYED)
        by (bit_vector);
    assert(VCO_LDO_ENABLE & 0x2000 == 0 && VCO_LDO_ENABLE | 0x2000 == VCO_LDO_ENABLE_DELAYED)
        by (bit_vector);
    assert(TX_LDO_ENABLE & 0x2000 == 0 && TX_LDO_ENABLE | 0x2000 == TX_LDO_ENABLE_DELAYED)
        by (bit_vector);
    if p < 22 {
        lemma_ldo_ramps_index((p - 2) / 4, 0);
        lemma_ldo_ramps_index((p - 2) / 4, 1);
        lemma_ldo_ramps_index((p - 2) / 4, 2);
    }
}

/// No clock is switched before the RF PLL reference clock is enabled.
pub proof fn lemma_clocks_switch_after_pll_reference(wifi_gates: u32, i: int)
    requires
        0 <= i < ENABLE_STEPS,
    ensures
        enable_sequence(wifi_gates)[pll_reference_step()] == RfAction::Write(
            RfRegister::PllReference,
            ENABLE_RF_PLL_REFERENCE as u32,
        ),
        enable_sequence(wifi_gates)[i] is SelectClock ==> pll_reference_step() < i,
{
    lemma_enable_sequence_index(wifi_gates, pll_reference_step());
    lemma_enable_sequence_index(wifi_gates, i);
    if 2 <= i < 22 {
        lemma_ldo_ramps_index((i - 2) / 4, (i - 2) % 4);
    }
}

/// The Wi-Fi clock gates are written only after they have been read, and
/// exactly twice: first with the Wi-Fi gate (bit 0) closed, before the PHY
/// clock is switched, then with it open, after the switch. Both writes keep
/// every other gate as it was read.
pub proof fn lemma_wifi_gate_closed_around_phy_switch(wifi_gates: u32, i: int)
    requires
        0 <= i < ENABLE_STEPS,
    ensures
        ({
            let s = enable_sequence(wifi_gates);
            let r = WIFI_GATES_READ_STEP as int;
            &&& s[i] is WriteWifiGates ==> (i == r + 1 || i == r + 5)
            &&& s[r + 1] matches RfAction::WriteWifiGates(v) && v & 1 == 0 && v & !1u32
                == wifi_gates & !1u32
            &&& s[r + 3] == RfAction::SelectClock(ClockSelect::WifiPhy)
            &&& s[r + 5] matches RfAction::WriteWifiGates(v) && v & 1 == 1 && v & !1u32
                == wifi_gates & !1u32
        }),
{
    let r = WIFI_GATES_READ_STEP as int;
    lemma_enable_sequence_index(wifi_gates, i);
    lemma_enable_sequence_index(wifi_gates, r + 1);
    lemma_enable_sequence_index(wifi_gates, r + 3);
    lemma_enable_sequence_index(wifi_gates, r + 5);
    if 2 <= i < 22 {
        lemma_ldo_ramps_index((i - 2) / 4, (i - 2) % 4);
    }
    let g = wifi_gates;
    assert((g & !1u32) & 1 == 0 && (g & !1u32) & !1u32 == g & !1u32) by (bit_vector);
    assert((g | 1u32) & 1 == 1 && (g | 1u32) & !1u32 == g & !1u32) by (bit_vector);
}

/// The value that the Wi-Fi gate read returns decides only the two gate
/// writes: every other step of the sequence, before and after the read, is
/// the same whatever the read returns.
pub proof fn lemma_only_gate_writes_depend_on_read(g1: u32, g2: u32, i: int)
    requires
        0 <= i < ENABLE_STEPS,
        i != WIFI_GATES_READ_STEP + 1,
        i != WIFI_GATES_READ_STEP + 5,
    ensures
        enable_sequence(g1)[i] == enable_sequence(g2)[i],
{
    lemma_enable_sequence_index(g1, i);
    lemma_enable_sequence_index(g2, i);
    if i >= 28 {
        let k = i - 28;
        if k == 0 {
        } else if k == 1 {
        } else if k == 3 {
        } else if k == 4 {
        } else if k == 5 {
        } else {
            assert(k == 7);
        }
    }
}

/// The order of the clock switches. The MAC clock is selected at the step
/// before the Wi-Fi gate read and at no other step. The PHY clock switch has a
/// wait of [`CLOCK_SWITCH_US`] µs on each side; the Wi-Fi gate is closed at
/// the step before the first wait and opened at the step after the second.
/// The RF control clock is selected at the final step, after the Wi-Fi gate is
/// open, and at no other step.
pub proof fn lemma_phy_switch_framed_and_rf_ctl_last(wifi_gates: u32, i: int)
    requires
        0 <= i < ENABLE_STEPS,
    ensures
        ({
            let s = enable_sequence(wifi_gates);
            let r = WIFI_GATES_READ_STEP as int;
            &&& s[r - 1] == RfAction::SelectClock(ClockSelect::WifiMac)
            &&& s[i] == RfAction::SelectClock(ClockSelect::WifiMac) ==> i == r - 1
            &&& s[r + 1] matches RfAction::WriteWifiGates(v) && v & 1 == 0
            &&& s[r + 2] == RfAction::DelayUs(CLOCK_SWITCH_US)
            &&& s[r + 3] == RfAction::SelectClock(ClockSelect::WifiPhy)
            &&& s[r + 4] == RfAction::DelayUs(CLOCK_SWITCH_US)
            &&& s[r + 5] matches RfAction::WriteWifiGates(v) && v & 1 == 1
            &&& s[ENABLE_STEPS - 1] == RfAction::SelectClock(ClockSelect::RfCtl)
            &&& r + 5 < ENABLE_STEPS - 1
            &&& s[i] == RfAction::SelectClock(ClockSelect::RfCtl) ==> i == ENABLE_STEPS - 1
            &&& s[i] == RfAction::SelectClock(ClockSelect::WifiPhy) ==> i == r + 3
        }),
{
    let r = WIFI_GATES_READ_STEP as int;
    lemma_enable_sequence_index(wifi_gates, i);
    lemma_enable_sequence_index(wifi_gates, r - 1);
    lemma_enable_sequence_index(wifi_gates, r + 1);
    lemma_enable_sequence_index(wifi_gates, r + 2);
    lemma_enable_sequence_index(wifi_gates, r + 3);
    lemma_enable_sequence_index(wifi_gates, r + 4);
    lemma_enable_sequence_index(wifi_gates, r + 5);
    lemma_enable_sequence_index(wifi_gates, ENABLE_STEPS - 1);
    if 2 <= i < 22 {
        lemma_ldo_ramps_index((i - 2) / 4, (i - 2) % 4);
    }
    let g = wifi_gates;
    assert((g & !1u32) & 1 == 0) by (bit_vector);
    assert((g | 1u32) & 1 == 1) by (bit_vector);
}

} // verus!
