use ws63_hal::pdm::{ClkRstEn, Pdm};
use ws63_hal::peripherals::Peripherals;
use ws63_hal::rf_power::{
    ClockSelect, RfAction, RfPower, RfRegister, ENABLE_STEPS, WIFI_GATES_READ_STEP,
};
use ws63_hal::shared_memory::{RamOwner, RamSelect, SharedMemAction, SharedMemory};
use ws63_hal::usb::{Usb, SNPS_SIGNATURE};
use ws63_hal::wlmac::{decode_address, WlmacDiagnostics, WlmacFilterState, WlmacRxCounters};

#[test]
fn decodes_vendor_address_register_order() {
    assert_eq!(
        decode_address(0x02_11, 0x42_63_24_a5),
        [0x02, 0x11, 0x42, 0x63, 0x24, 0xa5]
    );
}

#[test]
fn decode_address_extremes() {
    assert_eq!(decode_address(0, 0), [0; 6]);
    assert_eq!(decode_address(0xffff, 0xffff_ffff), [0xff; 6]);
    assert_eq!(decode_address(0x0100, 0x0000_0001), [1, 0, 0, 0, 0, 1]);
}

#[test]
fn decoded_address_spells_head_then_tail() {
    let b = decode_address(0xa1b2, 0xc3d4_e5f6);
    let value = b.iter().fold(0u64, |acc, &x| (acc << 8) | x as u64);
    assert_eq!(value, (0xa1b2u64 << 32) | 0xc3d4_e5f6);
}

#[test]
fn filter_state_decodes_both_addresses() {
    let diag = WlmacDiagnostics::assume_radio_ready();
    let s = diag.decode_filter_state(0x1234_5678, 0x02_11, 0x42_63_24_a5, 0xaabb, 0xccdd_eeff);
    assert_eq!(
        s,
        WlmacFilterState {
            rx_filter_control: 0x1234_5678,
            station_address: [0x02, 0x11, 0x42, 0x63, 0x24, 0xa5],
            bssid: [0xaa, 0xbb, 0xcc, 0xdd, 0xee, 0xff],
        }
    );
}

#[test]
fn rx_counters_default_to_zero() {
    let c = WlmacRxCounters::default();
    assert_eq!(c.rx_ampdu, 0);
    assert_eq!(c.rx_failed_mpdu, 0);
}

#[test]
fn usb_signature_in_upper_half() {
    let p = Peripherals::steal();
    let usb = Usb::new(p.usb);
    assert_eq!(SNPS_SIGNATURE, 0x4F54);
    assert!(usb.is_present(0x4F54_420A));
    assert!(usb.is_present(0x4F54_0000));
    assert!(usb.is_present(0x4F54_FFFF));
    assert!(!usb.is_present(0x0000_4F54));
    assert!(!usb.is_present(0x4F55_0000));
    assert!(!usb.is_present(0));
    assert!(!usb.is_present(0xFFFF_FFFF));
}

#[test]
fn pdm_bring_up_sets_all_fields() {
    let p = Peripherals::steal();
    let (_pdm, clk_rst_en) = Pdm::new(p.pdm);
    assert_eq!(
        clk_rst_en,
        ClkRstEn {
            pdm_dp_rst_n: true,
            dmic_clken: true,
            up_fifo_clken: true,
            func_up_en: true,
            func_up_ch_en_0: true,
        }
    );
}

fn rf_sequence(gates: u32) -> Vec<RfAction> {
    let p = Peripherals::steal();
    let rf = RfPower::new(p.cmu, p.cldo_crg);
    let mut out = Vec::new();
    let mut step = 0;
    while let Some(a) = rf.enable_action(step, gates) {
        out.push(a);
        step += 1;
    }
    out
}

#[test]
fn rf_sequence_matches_vendor_power_up() {
    let expected = vec![
        RfAction::Write(RfRegister::XoSignal, 0x3_0000),
        RfAction::Write(RfRegister::XoSignal, 0x3_083c),
        RfAction::Write(RfRegister::RxLdo, 0x4070),
        RfAction::DelayUs(120),
        RfAction::Write(RfRegister::RxLdo, 0x6070),
        RfAction::DelayUs(10),
        RfAction::Write(RfRegister::PllLdo, 0x4080),
        RfAction::DelayUs(120),
        RfAction::Write(RfRegister::PllLdo, 0x6080),
        RfAction::DelayUs(10),
        RfAction::Write(RfRegister::LnaLdo, 0x4070),
        RfAction::DelayUs(120),
        RfAction::Write(RfRegister::LnaLdo, 0x6070),
        RfAction::DelayUs(10),
        RfAction::Write(RfRegister::VcoLdo, 0x4000),
        RfAction::DelayUs(120),
        RfAction::Write(RfRegister::VcoLdo, 0x6000),
        RfAction::DelayUs(10),
        RfAction::Write(RfRegister::TxLdo, 0x4030),
        RfAction::DelayUs(120),
        RfAction::Write(RfRegister::TxLdo, 0x6030),
        RfAction::DelayUs(10),
        RfAction::Write(RfRegister::AbbLdo, 0x4070),
        RfAction::DelayUs(120),
        RfAction::Write(RfRegister::AbbLdo, 0x6070),
        RfAction::Write(RfRegister::AddaIso, 0x03),
        RfAction::Write(RfRegister::PllReference, 0x05),
        RfAction::DelayUs(10),
        RfAction::SelectClock(ClockSelect::WifiMac),
        RfAction::ReadWifiGates,
        RfAction::WriteWifiGates(0xf6),
        RfAction::DelayUs(1),
        RfAction::SelectClock(ClockSelect::WifiPhy),
        RfAction::DelayUs(1),
        RfAction::WriteWifiGates(0xf7),
        RfAction::SelectClock(ClockSelect::RfCtl),
    ];
    assert_eq!(rf_sequence(0xf7), expected);
    assert_eq!(expected.len(), ENABLE_STEPS);
    assert_eq!(expected[WIFI_GATES_READ_STEP], RfAction::ReadWifiGates);
}

#[test]
fn rf_wifi_gate_keeps_other_gates() {
    let s = rf_sequence(0);
    assert_eq!(s[30], RfAction::WriteWifiGates(0));
    assert_eq!(s[34], RfAction::WriteWifiGates(1));
    let s = rf_sequence(0xffff_ffff);
    assert_eq!(s[30], RfAction::WriteWifiGates(0xffff_fffe));
    assert_eq!(s[34], RfAction::WriteWifiGates(0xffff_ffff));
}

#[test]
fn rf_steps_before_read_ignore_gates() {
    let a = rf_sequence(0);
    let b = rf_sequence(0x1234_5679);
    assert_eq!(a[..=WIFI_GATES_READ_STEP], b[..=WIFI_GATES_READ_STEP]);
    assert_ne!(a, b);
}

#[test]
fn rf_sequence_ends_and_gives_back_cldo() {
    let p = Peripherals::steal();
    let rf = RfPower::new(p.cmu, p.cldo_crg);
    assert_eq!(rf.enable_action(ENABLE_STEPS, 0), None);
    assert_eq!(rf.enable_action(usize::MAX, 0), None);
    let _cldo = rf.into_cldo_crg();
}

#[test]
fn shared_memory_default_wifi_sequence() {
    let p = Peripherals::steal();
    let sm = SharedMemory::new(p.share_mem_ctl, p.bt_em_ctl);
    let layout = RamSelect {
        ram5_sel: 0,
        ram6_sel: 0,
        ram7_sel: 0,
        ram8_sel: 0,
        ram9_sel: 0,
        ram10_sel: 3,
        ram11_sel: 2,
        ram12_sel: false,
    };
    assert_eq!(sm.default_wifi_layout(), layout);
    let mut steps = Vec::new();
    let mut i = 0;
    while let Some(a) = sm.configure_default_wifi_action(i) {
        steps.push(a);
        i += 1;
    }
    assert_eq!(
        steps,
        vec![
            SharedMemAction::SetRamClocks(0),
            SharedMemAction::SetBtEmGate(true),
            SharedMemAction::Fence,
            SharedMemAction::SelectRamOwners(layout),
            SharedMemAction::SetRamClocks(0x3fff),
            SharedMemAction::SetBtEmGate(false),
            SharedMemAction::Fence,
        ]
    );
}

#[test]
fn ram_owner_selections() {
    assert_eq!(RamOwner::Packet.selection(), 0);
    assert_eq!(RamOwner::Itcm.selection(), 2);
    assert_eq!(RamOwner::Dtcm.selection(), 3);
}

#[derive(Clone, Copy, Debug, PartialEq)]
struct SharedMemRegs {
    cken: u16,
    gate: bool,
    select: Option<RamSelect>,
}

fn run_shared_mem(regs: &mut SharedMemRegs) {
    let p = Peripherals::steal();
    let sm = SharedMemory::new(p.share_mem_ctl, p.bt_em_ctl);
    let mut i = 0;
    while let Some(a) = sm.configure_default_wifi_action(i) {
        match a {
            SharedMemAction::SetRamClocks(v) => regs.cken = v,
            SharedMemAction::SetBtEmGate(b) => regs.gate = b,
            SharedMemAction::SelectRamOwners(s) => {
                assert_eq!(regs.cken, 0);
                assert!(regs.gate);
                regs.select = Some(s)
            }
            SharedMemAction::Fence => {}
        }
        i += 1;
    }
}

#[test]
fn shared_memory_layout_is_idempotent() {
    let mut regs = SharedMemRegs { cken: 0x1234, gate: true, select: None };
    run_shared_mem(&mut regs);
    let once = regs;
    assert_eq!(once.cken, 0x3fff);
    assert!(!once.gate);
    run_shared_mem(&mut regs);
    assert_eq!(regs, once);
}

#[test]
fn rf_power_up_final_state_and_repeat() {
    let mut controls = [0u32; 9];
    let mut selects = [false; 3];
    let mut cken: u32 = 0xa4;
    for _ in 0..2 {
        let p = Peripherals::steal();
        let rf = RfPower::new(p.cmu, p.cldo_crg);
        let mut gates = 0;
        let mut step = 0;
        while let Some(a) = rf.enable_action(step, gates) {
            match a {
                RfAction::Write(reg, v) => controls[reg as usize] = v,
                RfAction::DelayUs(_) => {}
                RfAction::SelectClock(c) => selects[c as usize] = true,
                RfAction::ReadWifiGates => gates = cken,
                RfAction::WriteWifiGates(v) => cken = v,
            }
            step += 1;
        }
        assert_eq!(
            controls,
            [0x3_083c, 0x6070, 0x6080, 0x6070, 0x6000, 0x6030, 0x6070, 0x03, 0x05]
        );
        assert_eq!(selects, [true; 3]);
        assert_eq!(cken, 0xa5);
    }
}
