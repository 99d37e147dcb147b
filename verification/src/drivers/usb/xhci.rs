//! Extensible Host Controller Interface: the bookkeeping of the controller driver —
//! command request blocks, transfer rings and their producer cycle, the search for a
//! ring, the recovery after a failed transfer, and the root hub's port ranges. The
//! register and memory accesses are left to the caller.

use vstd::prelude::*;
use crate::drivers::pci::PciClass;
use crate::drivers::usb::xhci_s::{CycleBit, EpType, TrbType};
use crate::drivers::usb::usb::PSIV;
use crate::drivers::usb::xhci_r::PortSc;
use crate::hal::NonNullPhysicalAddress;

verus! {

broadcast use crate::hal::PhysicalAddress::lemma_spec_new;

/// Finds the controllers of class 0C-03-30.
pub struct XhciRegistrar;

impl XhciRegistrar {
    /// The class that the driver takes: serial bus, USB, xHCI.
    pub fn preferred_class() -> (r: PciClass)
        ensures
            r == Self::spec_preferred_class(),
    {
        PciClass::code(0x0C).sub(0x03).interface(0x30)
    }

    /// Whether a device of class `class` gets this driver.
    pub fn accepts(class: PciClass) -> (r: bool)
        ensures
            r == class.spec_matches(Self::spec_preferred_class()),
    {
        class.matches(Self::preferred_class())
    }

    pub open spec fn spec_preferred_class() -> PciClass {
        PciClass((((((0x0Cu32 << 24u32) | 1) & 0xFF_00_00_00) | (0x03u32 << 16u32) | 2) & 0xFF_FF_00_00) | (0x30u32 << 8u32) | 3)
    }
}

/// The limits of the driver.
pub struct Xhci;

impl Xhci {
    pub const MAX_DEVICE_SLOTS: usize = 64;
    pub const MAX_DOORBELLS: usize = 64 * 32;
    pub const MAX_TR: usize = 256;
    pub const MAX_CRB: usize = 256;
    /// A page of TRBs.
    pub const SIZE_EP_RING: usize = 256;
    /// The last entry of a ring: it holds the link back to the first.
    pub const MAX_TR_INDEX: usize = 255;
    pub const MAX_PORT_CHANGE: usize = 64;

    /// Whether `port` lies in the range of `count` ports from `offset`.
    pub fn port_in_range(port: u8, offset: u8, count: u8) -> (r: bool)
        ensures
            r == (offset <= port && port < offset + count),
    {
        port >= offset && (port as u16) < offset as u16 + count as u16
    }

    /// The doorbell of a slot: the controller's own (0) when there is none.
    pub fn doorbell_index(slot_id: Option<u8>) -> (r: usize)
        ensures
            r == match slot_id { Some(s) => s as int, None => 0 },
    {
        match slot_id {
            Some(s) => s as usize,
            None => 0,
        }
    }

    /// The outcome of a command: its completion event when it succeeded, else an error.
    pub fn command_result(completion_code: Option<u8>) -> (r: Result<(), ()>)
        ensures
            r is Ok <==> completion_code == Some(1u8),
    {
        match completion_code {
            Some(1) => Ok(()),
            _ => Err(()),
        }
    }
}

/// The state of a request.
#[derive(Debug, Clone, Copy, PartialEq, Eq, PartialOrd, Ord, Structural)]
pub enum RequestState {
    Available,
    Acquired,
    Scheduled,
    Completed,
    Aborted,
}

impl RequestState {
    pub open spec fn spec_code(&self) -> usize {
        match *self {
            RequestState::Available => 0,
            RequestState::Acquired => 1,
            RequestState::Scheduled => 2,
            RequestState::Completed => 3,
            RequestState::Aborted => 4,
        }
    }

    pub fn code(&self) -> (r: usize)
        ensures
            r == self.spec_code(),
    {
        match *self {
            RequestState::Available => 0,
            RequestState::Acquired => 1,
            RequestState::Scheduled => 2,
            RequestState::Completed => 3,
            RequestState::Aborted => 4,
        }
    }

    /// The state of a stored code; an unknown code reads as available.
    pub fn from_usize(v: usize) -> (r: Self)
        ensures
            v < 5 ==> r.spec_code() == v,
            v >= 5 ==> r == RequestState::Available,
    {
        match v {
            1 => RequestState::Acquired,
            2 => RequestState::Scheduled,
            3 => RequestState::Completed,
            4 => RequestState::Aborted,
            _ => RequestState::Available,
        }
    }
}

impl Default for RequestState {
    fn default() -> (r: Self)
        ensures
            r == RequestState::Available,
    {
        RequestState::Available
    }
}

/// The TRB at a physical address of a ring.
#[derive(Debug, Clone, Copy, PartialEq, Eq, PartialOrd, Ord, Structural)]
pub struct ScheduledTrb(pub u64);

impl ScheduledTrb {
    pub fn empty() -> (r: Self)
        ensures
            r.0 == 0,
    {
        ScheduledTrb(0)
    }

    /// The TRB after this one.
    pub fn next(&self) -> (r: Self)
        requires
            self.0 + 16 <= u64::MAX,
        ensures
            r.0 == self.0 + 16,
    {
        ScheduledTrb(self.0 + 16)
    }
}

/// A command that waits for its completion.
#[derive(Debug, Clone, Copy, PartialEq, Eq, Structural)]
pub struct CommandRequestBlock {
    pub state: RequestState,
    pub scheduled_trb: ScheduledTrb,
}

impl CommandRequestBlock {
    pub fn new() -> (r: Self)
        ensures
            r.state == RequestState::Available,
            r.scheduled_trb.0 == 0,
    {
        CommandRequestBlock { state: RequestState::Available, scheduled_trb: ScheduledTrb::empty() }
    }

    /// Takes the block when it is available and its reuse delay is over.
    pub fn try_to_acquire(&mut self, reuse_delay_alive: bool) -> (r: bool)
        ensures
            r == (!reuse_delay_alive && old(self).state == RequestState::Available),
            r ==> final(self).state == RequestState::Acquired,
            !r ==> final(self).state == old(self).state,
            final(self).scheduled_trb == old(self).scheduled_trb,
    {
        if reuse_delay_alive {
            return false;
        }
        if self.state == RequestState::Available {
            self.state = RequestState::Acquired;
            true
        } else {
            false
        }
    }

    /// The command was put on the ring at `scheduled_trb`.
    pub fn schedule(&mut self, scheduled_trb: ScheduledTrb)
        ensures
            final(self).state == RequestState::Scheduled,
            final(self).scheduled_trb == scheduled_trb,
    {
        self.scheduled_trb = scheduled_trb;
        self.state = RequestState::Scheduled;
    }

    /// The completion arrived: a scheduled block completes and its waiter is woken;
    /// says whether that happened.
    pub fn set_response(&mut self) -> (r: bool)
        ensures
            r == (old(self).state == RequestState::Scheduled),
            r ==> final(self).state == RequestState::Completed,
            !r ==> final(self).state == old(self).state,
            final(self).scheduled_trb == old(self).scheduled_trb,
    {
        if self.state == RequestState::Scheduled {
            self.state = RequestState::Completed;
            true
        } else {
            false
        }
    }

    /// The block is given back; it may be taken again once its reuse delay is over.
    pub fn dispose(&mut self)
        ensures
            final(self).state == RequestState::Available,
            final(self).scheduled_trb == old(self).scheduled_trb,
    {
        self.state = RequestState::Available;
    }
}

/// The first block that is not available, was scheduled at `scheduled_trb`, and is in
/// `state` (in any state when none is given).
pub fn find_crb(crbs: &Vec<CommandRequestBlock>, scheduled_trb: ScheduledTrb, state: Option<RequestState>) -> (r: Option<usize>)
    ensures
        match r {
            Some(i) => i < crbs@.len() && crb_matches(crbs@[i as int], scheduled_trb, state)
                && forall|j: int| 0 <= j < i ==> !crb_matches(#[trigger] crbs@[j], scheduled_trb, state),
            None => forall|j: int| 0 <= j < crbs@.len() ==> !crb_matches(#[trigger] crbs@[j], scheduled_trb, state),
        },
{
    let mut i: usize = 0;
    while i < crbs.len()
        invariant
            i <= crbs@.len(),
            forall|j: int| 0 <= j < i ==> !crb_matches(#[trigger] crbs@[j], scheduled_trb, state),
        decreases crbs@.len() - i,
    {
        let crb = crbs[i];
        if crb.state != RequestState::Available && crb.scheduled_trb == scheduled_trb {
            match state {
                Some(s) => {
                    if crb.state == s {
                        return Some(i);
                    }
                },
                None => {
                    return Some(i);
                },
            }
        }
        i += 1;
    }
    None
}

/// Whether a block answers a completion at `scheduled_trb` in `state`.
pub open spec fn crb_matches(crb: CommandRequestBlock, scheduled_trb: ScheduledTrb, state: Option<RequestState>) -> bool {
    &&& crb.state != RequestState::Available
    &&& crb.scheduled_trb == scheduled_trb
    &&& match state {
        Some(s) => crb.state == s,
        None => true,
    }
}

/// What a ring is for: its base (none while it is free), its slot and endpoint (0 for
/// none: the command ring has neither).
#[derive(Debug, Clone, Copy, PartialEq, Eq, Structural)]
pub struct EpRingKey {
    pub tr_base: Option<NonNullPhysicalAddress>,
    pub slot_id: u8,
    pub dci: u8,
}

/// Whether ring `k` is the allocated ring of `slot_id` and `dci`.
pub open spec fn ring_matches(k: EpRingKey, slot_id: u8, dci: u8) -> bool {
    k.tr_base is Some && k.slot_id == slot_id && k.dci == dci
}

/// The ring of `slot_id` and `dci` (0 for none).
pub fn ep_ring_index(rings: &Vec<EpRingKey>, slot_id: u8, dci: u8) -> (r: Option<usize>)
    ensures
        match r {
            Some(i) => i < rings@.len() && ring_matches(rings@[i as int], slot_id, dci)
                && forall|j: int| 0 <= j < i ==> !ring_matches(#[trigger] rings@[j], slot_id, dci),
            None => forall|j: int| 0 <= j < rings@.len() ==> !ring_matches(#[trigger] rings@[j], slot_id, dci),
        },
{
    let mut i: usize = 0;
    while i < rings.len()
        invariant
            i <= rings@.len(),
            forall|j: int| 0 <= j < i ==> !ring_matches(#[trigger] rings@[j], slot_id, dci),
        decreases rings@.len() - i,
    {
        let k = rings[i];
        if k.tr_base.is_some() && k.slot_id == slot_id && k.dci == dci {
            return Some(i);
        }
        i += 1;
    }
    None
}

/// Where a ring for `slot_id` and `dci` comes from.
#[derive(Debug, Clone, Copy, PartialEq, Eq, Structural)]
pub enum RingAllocation {
    /// The ring that it already has, cleared.
    Reuse(usize),
    /// The first free ring, newly allocated.
    Allocate(usize),
    /// No ring is free.
    Exhausted,
}

/// Where the ring of `slot_id` and `dci` comes from: the one it has, else the first free one.
pub fn alloc_ep_ring(rings: &Vec<EpRingKey>, slot_id: u8, dci: u8) -> (r: RingAllocation)
    ensures
        match r {
            RingAllocation::Reuse(i) => i < rings@.len() && ring_matches(rings@[i as int], slot_id, dci),
            RingAllocation::Allocate(i) => i < rings@.len() && rings@[i as int].tr_base is None
                && (forall|j: int| 0 <= j < rings@.len() ==> !ring_matches(#[trigger] rings@[j], slot_id, dci))
                && forall|j: int| 0 <= j < i ==> (#[trigger] rings@[j]).tr_base is Some,
            RingAllocation::Exhausted => (forall|j: int| 0 <= j < rings@.len() ==> !ring_matches(#[trigger] rings@[j], slot_id, dci))
                && forall|j: int| 0 <= j < rings@.len() ==> (#[trigger] rings@[j]).tr_base is Some,
        },
{
    match ep_ring_index(rings, slot_id, dci) {
        Some(i) => {
            return RingAllocation::Reuse(i);
        },
        None => {},
    }
    let mut i: usize = 0;
    while i < rings.len()
        invariant
            i <= rings@.len(),
            forall|j: int| 0 <= j < rings@.len() ==> !ring_matches(#[trigger] rings@[j], slot_id, dci),
            forall|j: int| 0 <= j < i ==> (#[trigger] rings@[j]).tr_base is Some,
        decreases rings@.len() - i,
    {
        if rings[i].tr_base.is_none() {
            return RingAllocation::Allocate(i);
        }
        i += 1;
    }
    RingAllocation::Exhausted
}

/// Where a TRB goes on a transfer ring.
#[derive(Debug, Clone, Copy, PartialEq, Eq, Structural)]
pub struct IssueStep {
    /// A link back to the start is written here first (with the old cycle bit).
    pub link_at: Option<usize>,
    /// The TRB is written here.
    pub at: usize,
    /// With this cycle bit.
    pub cycle: bool,
}

/// The producer side of a transfer ring: the next entry and the producer cycle state.
pub struct TrRing {
    pub index: usize,
    pub pcs: CycleBit,
}

impl TrRing {
    /// A cleared ring: the first entry, cycle state one.
    pub fn new() -> (r: Self)
        ensures
            r.index == 0,
            r.pcs@,
    {
        let mut pcs = CycleBit::new();
        pcs.reset();
        TrRing { index: 0, pcs }
    }

    /// The value of the ring's dequeue pointer: its base with the cycle state.
    pub fn tr_value(&self, tr_base: NonNullPhysicalAddress) -> (r: Option<NonNullPhysicalAddress>)
        ensures
            match r {
                Some(v) => v@ == tr_base@ | (if self.pcs@ { 1u64 } else { 0u64 }) && v@ != 0,
                None => (tr_base@ | (if self.pcs@ { 1u64 } else { 0u64 })) == 0,
            },
    {
        let base = tr_base.get();
        NonNullPhysicalAddress::new(base | self.pcs.tr_value())
    }

    /// Puts the next TRB on the ring: at the last entry, a link to the first is written
    /// and the cycle state toggles; the TRB follows with the current cycle state.
    pub fn issue(&mut self) -> (r: IssueStep)
        requires
            old(self).index <= 255,
        ensures
            old(self).index == 255 ==> r == (IssueStep { link_at: Some(255usize), at: 0, cycle: !old(self).pcs@ })
                && final(self).index == 1 && final(self).pcs@ == !old(self).pcs@,
            old(self).index < 255 ==> r == (IssueStep { link_at: None, at: old(self).index, cycle: old(self).pcs@ })
                && final(self).index == old(self).index + 1 && final(self).pcs@ == old(self).pcs@,
            final(self).index <= 255,
    {
        let mut link_at = None;
        let mut index = self.index;
        if index == Xhci::MAX_TR_INDEX {
            link_at = Some(index);
            index = 0;
            self.pcs.toggle();
        }
        let step = IssueStep { link_at, at: index, cycle: self.pcs.value() };
        self.index = index + 1;
        step
    }
}

/// Which TRBs become no-ops after a transfer failed at a TRB of type `event_trb`:
/// a data stage followed by its status stage (a stall in the data stage); a setup stage
/// followed by its status stage, or by data and status stages (a transaction error in
/// the setup stage). Normal and status TRBs need none. `next` and `last` are the types
/// of the TRBs after it, past a link.
pub fn transfer_error_recovery(event_trb: Option<TrbType>, next: Option<TrbType>, last: Option<TrbType>) -> (r: usize)
    requires
        !(event_trb == Some(TrbType::NORMAL) || event_trb == Some(TrbType::STATUS)) ==> (
            (event_trb == Some(TrbType::DATA) && next == Some(TrbType::STATUS))
            || (event_trb == Some(TrbType::SETUP) && (next == Some(TrbType::STATUS)
                || (next == Some(TrbType::DATA) && last == Some(TrbType::STATUS))))),
    ensures
        (event_trb == Some(TrbType::NORMAL) || event_trb == Some(TrbType::STATUS)) ==> r == 0,
        event_trb == Some(TrbType::DATA) && next == Some(TrbType::STATUS) ==> r == 2,
        event_trb == Some(TrbType::SETUP) && next == Some(TrbType::STATUS) ==> r == 2,
        event_trb == Some(TrbType::SETUP) && next == Some(TrbType::DATA) && last == Some(TrbType::STATUS) ==> r == 3,
{
    match event_trb {
        Some(TrbType::NORMAL) | Some(TrbType::STATUS) => 0,
        Some(TrbType::DATA) => 2,
        _ => {
            match next {
                Some(TrbType::STATUS) => 2,
                _ => 3,
            }
        },
    }
}


/// What `configure_endpoint` writes into an endpoint context.
#[derive(Debug, Clone, Copy, PartialEq, Eq, Structural)]
pub struct EndpointSettings {
    pub ep_type: EpType,
    pub max_packet_size: u16,
    /// Additional transactions per service opportunity; absent when the size
    /// came from the speed's default.
    pub max_burst_size: Option<usize>,
    /// Set when the size came from the speed's default.
    pub average_trb_len: Option<usize>,
    /// The interval exponent; absent for an interval of zero.
    pub interval: Option<u8>,
    /// Three retries for all but isochronous endpoints.
    pub error_count: Option<usize>,
}

/// The smallest `k` with `2^k >= n`.
pub open spec fn is_ceil_log2(k: nat, n: int) -> bool {
    &&& vstd::arithmetic::power2::pow2(k) >= n
    &&& (k == 0 || vstd::arithmetic::power2::pow2((k - 1) as nat) < n)
}

/// The exponent of the next power of two at or above `n`.
fn ceil_log2(n: u8) -> (k: u8)
    requires
        1 <= n <= 128,
    ensures
        k <= 7,
        is_ceil_log2(k as nat, n as int),
{
    let mut k: u8 = 0;
    let mut p: u16 = 1;
    proof {
        vstd::arithmetic::power2::lemma2_to64();
    }
    while p < n as u16
        invariant
            1 <= n <= 128,
            k <= 7,
            p == vstd::arithmetic::power2::pow2(k as nat),
            k == 0 || vstd::arithmetic::power2::pow2((k - 1) as nat) < n,
        decreases 128 - p,
    {
        proof {
            vstd::arithmetic::power2::lemma2_to64();
            vstd::arithmetic::power2::lemma_pow2_unfold((k + 1) as nat);
        }
        p = p * 2;
        k = k + 1;
    }
    k
}

/// The endpoint settings for a device of speed `psiv`: a nonzero
/// `max_packet_size` is split into its size (bits 0-10) and burst (bits 11-12),
/// a zero one takes the speed's default; a nonzero interval becomes the
/// exponent that the controller wants (low and full speed interrupt endpoints
/// count frames and round up to a power of two, other low and full speed
/// endpoints add two, faster ones subtract one).
pub fn endpoint_settings(psiv: PSIV, ep_type: EpType, max_packet_size: u16, interval: u8) -> (r: EndpointSettings)
    requires
        interval > 0 && (psiv == PSIV::LS || psiv == PSIV::FS) ==> if ep_type == EpType::InterruptOut
            || ep_type == EpType::InterruptIn {
            interval <= 128
        } else {
            interval <= 253
        },
    ensures
        r.ep_type == ep_type,
        max_packet_size > 0 ==> r.max_packet_size == max_packet_size % 0x800
            && r.max_burst_size == Some((max_packet_size / 0x800 % 4) as usize)
            && r.average_trb_len is None,
        max_packet_size == 0 ==> r.max_packet_size == (match psiv {
            PSIV::FS | PSIV::LS => 8u16,
            PSIV::HS => 64u16,
            _ => 512u16,
        }) && r.max_burst_size is None && r.average_trb_len == Some(8usize),
        interval == 0 ==> r.interval is None,
        interval > 0 ==> (r.interval matches Some(v) && if psiv == PSIV::LS || psiv == PSIV::FS {
            if ep_type == EpType::InterruptOut || ep_type == EpType::InterruptIn {
                v >= 3 && is_ceil_log2((v - 3) as nat, interval as int)
            } else {
                v == interval + 2
            }
        } else {
            v == interval - 1
        }),
        r.error_count == if ep_type == EpType::IsochOut || ep_type == EpType::IsochIn {
            None
        } else {
            Some(3usize)
        },
{
    let (mps, burst, avg) = if max_packet_size > 0 {
        let size: u16 = max_packet_size & 0x07FF;
        let burst: u16 = (max_packet_size & 0x1800) >> 11u16;
        assert(size == max_packet_size % 0x800 && burst == max_packet_size / 0x800 % 4) by (bit_vector)
            requires
                size == max_packet_size & 0x07FF,
                burst == (max_packet_size & 0x1800) >> 11u16,
        ;
        (size, Some(burst as usize), None)
    } else {
        (psiv.max_packet_size().0, None, Some(8usize))
    };
    let iv = if interval > 0 {
        match psiv {
            PSIV::LS | PSIV::FS => {
                if ep_type.is_interrupt() {
                    Some(ceil_log2(interval) + 3)
                } else {
                    Some(interval + 2)
                }
            },
            _ => Some(interval - 1),
        }
    } else {
        None
    };
    let error_count = if !ep_type.is_isochronous() {
        Some(3)
    } else {
        None
    };
    EndpointSettings {
        ep_type,
        max_packet_size: mps,
        max_burst_size: burst,
        average_trb_len: avg,
        interval: iv,
        error_count,
    }
}

/// The number of context entries after endpoint `dci` is added: it grows to
/// cover the endpoint and never shrinks.
pub fn context_entries_with(dci: u8, current: usize) -> (r: usize)
    ensures
        r == if dci as usize > current { dci as usize } else { current },
{
    if dci as usize > current {
        dci as usize
    } else {
        current
    }
}


/// What the root hub task does for a port that reported a change.
#[derive(Debug, Clone, Copy, PartialEq, Eq, Structural)]
pub enum RootPortChange {
    /// Nothing changed that matters.
    Ignore,
    /// A device arrived: clear the change and reset the port (write the bits
    /// given), wait for the port to be enabled, then attach the device.
    ResetAndAttach(u32),
    /// The device left: clear the change (write the bits given) and remove the
    /// device of the port's slot.
    Detach(u32),
}

/// The root hub's answer to a port change: only a change of the connection
/// matters, unless the caller forces a look at the port.
pub fn root_port_change(status: PortSc, force: bool) -> (r: RootPortChange)
    ensures
        !(force || status.0 & PortSc::CSC == PortSc::CSC) ==> r == RootPortChange::Ignore,
        (force || status.0 & PortSc::CSC == PortSc::CSC) && status.0 & PortSc::CCS == PortSc::CCS ==> r
            == RootPortChange::ResetAndAttach(PortSc::CSC | PortSc::PR),
        (force || status.0 & PortSc::CSC == PortSc::CSC) && status.0 & PortSc::CCS != PortSc::CCS ==> r
            == RootPortChange::Detach(PortSc::CSC),
{
    if force || status.is_connected_status_changed() {
        if status.is_connected() {
            RootPortChange::ResetAndAttach(PortSc::CSC | PortSc::PR)
        } else {
            RootPortChange::Detach(PortSc::CSC)
        }
    } else {
        RootPortChange::Ignore
    }
}

/// What the root hub task does for a USB3 port when it starts.
#[derive(Debug, Clone, Copy, PartialEq, Eq, Structural)]
pub enum RootPortStart {
    /// No device.
    Skip,
    /// An enabled device: attach it.
    Attach,
    /// A device on a disabled port: wait for the port to be enabled, then attach
    /// it, or reset the port if it stays disabled.
    WaitForEnable,
}

pub fn usb3_port_at_start(status: PortSc) -> (r: RootPortStart)
    ensures
        status.0 & PortSc::CCS != PortSc::CCS ==> r == RootPortStart::Skip,
        status.0 & PortSc::CCS == PortSc::CCS && status.0 & PortSc::PED != PortSc::PED ==> r
            == RootPortStart::WaitForEnable,
        status.0 & PortSc::CCS == PortSc::CCS && status.0 & PortSc::PED == PortSc::PED ==> r
            == RootPortStart::Attach,
{
    if status.is_connected() {
        if status.is_disabled() {
            RootPortStart::WaitForEnable
        } else {
            RootPortStart::Attach
        }
    } else {
        RootPortStart::Skip
    }
}

/// What attaching a root port does: a connected and enabled port gets its
/// device attached; any other port is powered off and then powered and reset
/// (the bits given).
#[derive(Debug, Clone, Copy, PartialEq, Eq, Structural)]
pub enum RootPortAttach {
    Attach,
    PowerCycle(u32),
}

pub fn root_port_attach(status: PortSc) -> (r: RootPortAttach)
    ensures
        status.0 & PortSc::CCS == PortSc::CCS && status.0 & PortSc::PED == PortSc::PED ==> r
            == RootPortAttach::Attach,
        !(status.0 & PortSc::CCS == PortSc::CCS && status.0 & PortSc::PED == PortSc::PED) ==> r
            == RootPortAttach::PowerCycle(PortSc::PP | PortSc::PR),
{
    if status.is_connected() && status.is_enabled() {
        RootPortAttach::Attach
    } else {
        RootPortAttach::PowerCycle(PortSc::PP | PortSc::PR)
    }
}

} // verus!
