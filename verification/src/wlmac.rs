//! Read-only WS63 Wi-Fi MAC diagnostics.
//!
//! The RF stack owns the WLMAC lifecycle, so nothing here programs the MAC.
//! The snapshot types below hold the receive statistics and the active
//! VAP0 receive-filter identity; the decoder turns the raw register words of
//! a snapshot into those values.

use core::marker::PhantomData;
use std::rc::Rc;
use vstd::prelude::*;

verus! {

/// A snapshot of the receive counters used by the WS63 mask-ROM helper.
#[derive(Clone, Copy, Debug, Default, Eq, PartialEq)]
pub struct WlmacRxCounters {
    /// Received aggregate MPDU count.
    pub rx_ampdu: u16,
    /// MPDUs with a valid FCS received inside an aggregate.
    pub rx_success_mpdu_in_ampdu: u32,
    /// MPDUs with an invalid FCS received inside an aggregate.
    pub rx_failed_mpdu_in_ampdu: u32,
    /// Received non-aggregate MPDUs with a valid FCS.
    pub rx_success_mpdu: u32,
    /// Received non-aggregate MPDUs with an invalid FCS.
    pub rx_failed_mpdu: u32,
    /// MPDUs rejected by the MAC receive filter.
    pub rx_filtered_mpdu: u16,
}

/// A snapshot of receive-security failures used by the WS63 mask-ROM helper.
#[derive(Clone, Copy, Debug, Default, Eq, PartialEq)]
pub struct WlmacRxSecurityCounters {
    /// CCMP replay failures.
    pub ccmp_replay_failures: u16,
    /// TKIP replay failures.
    pub tkip_replay_failures: u16,
    /// CCMP MIC failures.
    pub ccmp_mic_failures: u16,
    /// TKIP MIC failures.
    pub tkip_mic_failures: u16,
    /// Receive key-search failures.
    pub key_search_failures: u16,
}

/// A read-only snapshot of the active VAP0 receive-filter identity.
#[derive(Clone, Copy, Debug, Default, Eq, PartialEq)]
pub struct WlmacFilterState {
    /// Packed receive-filter control state currently programmed into WLMAC.
    pub rx_filter_control: u32,
    /// Station address programmed for hardware VAP0.
    pub station_address: [u8; 6],
    /// BSSID programmed for hardware VAP0.
    pub bssid: [u8; 6],
}

/// The six address bytes that a VAP0 address register pair holds: the two
/// bytes of the 16-bit head, most significant first, followed by the four
/// bytes of the 32-bit tail, most significant first.
pub open spec fn address_bytes(head: u16, tail: u32) -> Seq<u8> {
    seq![
        ((head / 0x100) % 0x100) as u8,
        (head % 0x100) as u8,
        ((tail / 0x100_0000) % 0x100) as u8,
        ((tail / 0x1_0000) % 0x100) as u8,
        ((tail / 0x100) % 0x100) as u8,
        (tail % 0x100) as u8,
    ]
}

/// The 48-bit value that six address bytes spell, read most significant
/// byte first.
pub open spec fn address_value(b: Seq<u8>) -> int {
    ((((b[0] * 0x100 + b[1]) * 0x100 + b[2]) * 0x100 + b[3]) * 0x100 + b[4]) * 0x100 + b[5]
}

/// Splits a VAP0 address register pair into the six address bytes, in the
/// order in which the vendor firmware stores them: head bytes first, each
/// register big-endian.
pub fn decode_address(head: u16, tail: u32) -> (r: [u8; 6])
    ensures
        r@ == address_bytes(head, tail),
{
    let h0: u16 = head >> 8u16;
    let h1: u16 = head & 0xffu16;
    let t0: u32 = tail >> 24u32;
    let t1: u32 = (tail >> 16u32) & 0xffu32;
    let t2: u32 = (tail >> 8u32) & 0xffu32;
    let t3: u32 = tail & 0xffu32;
    assert(h0 == (head / 0x100) % 0x100 && h1 == head % 0x100) by (bit_vector)
        requires
            h0 == head >> 8u16,
            h1 == head & 0xffu16,
    ;
    assert(t0 == (tail / 0x100_0000) % 0x100 && t1 == (tail / 0x1_0000) % 0x100) by (bit_vector)
        requires
            t0 == tail >> 24u32,
            t1 == (tail >> 16u32) & 0xffu32,
    ;
    assert(t2 == (tail / 0x100) % 0x100 && t3 == tail % 0x100) by (bit_vector)
        requires
            t2 == (tail >> 8u32) & 0xffu32,
            t3 == tail & 0xffu32,
    ;
    let r: [u8; 6] = [h0 as u8, h1 as u8, t0 as u8, t1 as u8, t2 as u8, t3 as u8];
    assert(r@ =~= address_bytes(head, tail));
    r
}

/// The six bytes decoded from a register pair spell, big-endian, the
/// 48-bit value whose upper 16 bits are the head and whose lower 32 bits
/// are the tail.
pub proof fn lemma_address_value(head: u16, tail: u32)
    ensures
        address_value(address_bytes(head, tail)) == head * 0x1_0000_0000 + tail,
{
    let b = address_bytes(head, tail);
    assert(head == b[0] * 0x100 + b[1]);
    assert(tail == ((b[2] * 0x100 + b[3]) * 0x100 + b[4]) * 0x100 + b[5]);
}

/// Decoding loses nothing: two register pairs that decode to the same six
/// bytes are the same pair.
pub proof fn lemma_decode_address_injective(h1: u16, t1: u32, h2: u16, t2: u32)
    requires
        address_bytes(h1, t1) == address_bytes(h2, t2),
    ensures
        h1 == h2,
        t1 == t2,
{
    lemma_address_value(h1, t1);
    lemma_address_value(h2, t2);
    let x1: int = h1 as int;
    let x2: int = h2 as int;
    let y1: int = t1 as int;
    let y2: int = t2 as int;
    assert(x1 * 0x1_0000_0000 + y1 == x2 * 0x1_0000_0000 + y2);
    assert(x1 == x2 && y1 == y2) by (nonlinear_arith)
        requires
            x1 * 0x1_0000_0000 + y1 == x2 * 0x1_0000_0000 + y2,
            0 <= y1 < 0x1_0000_0000,
            0 <= y2 < 0x1_0000_0000,
            0 <= x1,
            0 <= x2,
    ;
}

/// Read-only access to initialized WS63 WLMAC diagnostic counters.
///
/// This capability is neither `Send` nor `Sync`: the snapshots are taken
/// with interrupts masked on the current hart, and the value must not leave
/// it. The RF integration, rather than a peripheral token, owns the WLMAC
/// register block.
pub struct WlmacDiagnostics {
    _not_send_sync: PhantomData<Rc<()>>,
}

impl WlmacDiagnostics {
    /// Assumes that the RF integration has initialized and retained WLMAC.
    ///
    /// The caller must ensure the WLMAC register block is powered, clocked,
    /// and not concurrently reset or powered down for the lifetime of this
    /// value, and that reading these counters is permitted by the active RF
    /// firmware profile.
    pub fn assume_radio_ready() -> (r: Self)
        ensures
            r == WlmacDiagnostics::ready_capability(),
    {
        WlmacDiagnostics { _not_send_sync: PhantomData }
    }

    /// The capability that stands for an initialized, retained WLMAC.
    pub closed spec fn ready_capability() -> Self {
        WlmacDiagnostics { _not_send_sync: PhantomData }
    }

    /// Builds the filter-state snapshot from the raw words read from the
    /// receive-filter control register and the VAP0 address registers: the
    /// station address and the BSSID each come from a 16-bit head (the
    /// `vap0_address_heads` halves) and a 32-bit tail register.
    pub fn decode_filter_state(
        &self,
        rx_filter_control: u32,
        station_head: u16,
        station_tail: u32,
        bssid_head: u16,
        bssid_tail: u32,
    ) -> (r: WlmacFilterState)
        ensures
            r.rx_filter_control == rx_filter_control,
            r.station_address@ == address_bytes(station_head, station_tail),
            r.bssid@ == address_bytes(bssid_head, bssid_tail),
    {
        WlmacFilterState {
            rx_filter_control,
            station_address: decode_address(station_head, station_tail),
            bssid: decode_address(bssid_head, bssid_tail),
        }
    }
}

} // verus!
