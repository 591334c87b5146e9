//! The flags of the `SO_TIMESTAMPING` socket option.

use vstd::prelude::*;

verus! {

/// Every bit that is the bit of a flag.
pub const ALL_BITS: i32 = 0x7FFF;

/// A set of timestamping flags, held as the bits that the kernel takes.
#[derive(Clone, Copy, Debug, PartialEq, Eq, Structural)]
pub struct Timestamping {
    bits: i32,
}

impl View for Timestamping {
    type V = i32;

    closed spec fn view(&self) -> i32 {
        self.bits
    }
}

impl Timestamping {
    /// Only bits of flags are set.
    pub open spec fn wf(self) -> bool {
        self@ & !ALL_BITS == 0
    }

    /// Every flag of `other` is a flag of this set.
    pub open spec fn spec_contains(self, other: Timestamping) -> bool {
        self@ & other@ == other@
    }

    /// Timestamps of sent packets, taken by the network adapter.
    pub const TX_HARDWARE: i32 = 0x0001;

    /// Timestamps of sent packets, taken as they leave the kernel.
    pub const TX_SOFTWARE: i32 = 0x0002;

    /// Timestamps of received packets, taken by the network adapter.
    pub const RX_HARDWARE: i32 = 0x0004;

    /// Timestamps of received packets, taken as they enter the kernel.
    pub const RX_SOFTWARE: i32 = 0x0008;

    /// Report the timestamps that software took.
    pub const SOFTWARE: i32 = 0x0010;

    /// Report hardware timestamps converted to system time.
    pub const SYS_HARDWARE: i32 = 0x0020;

    /// Report hardware timestamps as the adapter took them.
    pub const RAW_HARDWARE: i32 = 0x0040;

    /// Give each packet an identifier.
    pub const OPT_ID: i32 = 0x0080;

    /// Timestamps of sent packets, taken before the packet scheduler.
    pub const TX_SCHED: i32 = 0x0100;

    /// Timestamps of sent packets, taken when all their data is acknowledged.
    pub const TX_ACK: i32 = 0x0200;

    /// Deliver the timestamps of sent packets as control messages.
    pub const OPT_CMSG: i32 = 0x0400;

    /// Deliver the timestamps of sent packets without the packet.
    pub const OPT_TSONLY: i32 = 0x0800;

    /// Deliver transmit statistics with the timestamps.
    pub const OPT_STATS: i32 = 0x1000;

    /// Deliver packet information with hardware timestamps.
    pub const OPT_PKTINFO: i32 = 0x2000;

    /// Deliver both the software and the hardware timestamp of a sent packet.
    pub const OPT_TX_SWHW: i32 = 0x4000;

    /// The set that holds `TX_HARDWARE` alone.
    pub fn tx_hardware() -> (r: Self)
        ensures
            r@ == Timestamping::TX_HARDWARE,
            r.wf(),
    {
        proof {
            lemma_flag_values();
        }
        Timestamping { bits: Timestamping::TX_HARDWARE }
    }

    /// The set that holds `TX_SOFTWARE` alone.
    pub fn tx_software() -> (r: Self)
        ensures
            r@ == Timestamping::TX_SOFTWARE,
            r.wf(),
    {
        proof {
            lemma_flag_values();
        }
        Timestamping { bits: Timestamping::TX_SOFTWARE }
    }

    /// The set that holds `RX_HARDWARE` alone.
    pub fn rx_hardware() -> (r: Self)
        ensures
            r@ == Timestamping::RX_HARDWARE,
            r.wf(),
    {
        proof {
            lemma_flag_values();
        }
        Timestamping { bits: Timestamping::RX_HARDWARE }
    }

    /// The set that holds `RX_SOFTWARE` alone.
    pub fn rx_software() -> (r: Self)
        ensures
            r@ == Timestamping::RX_SOFTWARE,
            r.wf(),
    {
        proof {
            lemma_flag_values();
        }
        Timestamping { bits: Timestamping::RX_SOFTWARE }
    }

    /// The set that holds `SOFTWARE` alone.
    pub fn software() -> (r: Self)
        ensures
            r@ == Timestamping::SOFTWARE,
            r.wf(),
    {
        proof {
            lemma_flag_values();
        }
        Timestamping { bits: Timestamping::SOFTWARE }
    }

    /// The set that holds `SYS_HARDWARE` alone.
    pub fn sys_hardware() -> (r: Self)
        ensures
            r@ == Timestamping::SYS_HARDWARE,
            r.wf(),
    {
        proof {
            lemma_flag_values();
        }
        Timestamping { bits: Timestamping::SYS_HARDWARE }
    }

    /// The set that holds `RAW_HARDWARE` alone.
    pub fn raw_hardware() -> (r: Self)
        ensures
            r@ == Timestamping::RAW_HARDWARE,
            r.wf(),
    {
        proof {
            lemma_flag_values();
        }
        Timestamping { bits: Timestamping::RAW_HARDWARE }
    }

    /// The set that holds `OPT_ID` alone.
    pub fn opt_id() -> (r: Self)
        ensures
            r@ == Timestamping::OPT_ID,
            r.wf(),
    {
        proof {
            lemma_flag_values();
        }
        Timestamping { bits: Timestamping::OPT_ID }
    }

    /// The set that holds `TX_SCHED` alone.
    pub fn tx_sched() -> (r: Self)
        ensures
            r@ == Timestamping::TX_SCHED,
            r.wf(),
    {
        proof {
            lemma_flag_values();
        }
        Timestamping { bits: Timestamping::TX_SCHED }
    }

    /// The set that holds `TX_ACK` alone.
    pub fn tx_ack() -> (r: Self)
        ensures
            r@ == Timestamping::TX_ACK,
            r.wf(),
    {
        proof {
            lemma_flag_values();
        }
        Timestamping { bits: Timestamping::TX_ACK }
    }

    /// The set that holds `OPT_CMSG` alone.
    pub fn opt_cmsg() -> (r: Self)
        ensures
            r@ == Timestamping::OPT_CMSG,
            r.wf(),
    {
        proof {
            lemma_flag_values();
        }
        Timestamping { bits: Timestamping::OPT_CMSG }
    }

    /// The set that holds `OPT_TSONLY` alone.
    pub fn opt_tsonly() -> (r: Self)
        ensures
            r@ == Timestamping::OPT_TSONLY,
            r.wf(),
    {
        proof {
            lemma_flag_values();
        }
        Timestamping { bits: Timestamping::OPT_TSONLY }
    }

    /// The set that holds `OPT_STATS` alone.
    pub fn opt_stats() -> (r: Self)
        ensures
            r@ == Timestamping::OPT_STATS,
            r.wf(),
    {
        proof {
            lemma_flag_values();
        }
        Timestamping { bits: Timestamping::OPT_STATS }
    }

    /// The set that holds `OPT_PKTINFO` alone.
    pub fn opt_pktinfo() -> (r: Self)
        ensures
            r@ == Timestamping::OPT_PKTINFO,
            r.wf(),
    {
        proof {
            lemma_flag_values();
        }
        Timestamping { bits: Timestamping::OPT_PKTINFO }
    }

    /// The set that holds `OPT_TX_SWHW` alone.
    pub fn opt_tx_swhw() -> (r: Self)
        ensures
            r@ == Timestamping::OPT_TX_SWHW,
            r.wf(),
    {
        proof {
            lemma_flag_values();
        }
        Timestamping { bits: Timestamping::OPT_TX_SWHW }
    }

    /// The set without flags.
    pub fn empty() -> (r: Self)
        ensures
            r@ == 0,
            r.wf(),
    {
        proof {
            lemma_flag_bits(0, 0);
        }
        Timestamping { bits: 0 }
    }

    /// The set of all flags.
    pub fn all() -> (r: Self)
        ensures
            r@ == ALL_BITS,
            r.wf(),
    {
        proof {
            lemma_flag_bits(ALL_BITS, 0);
        }
        Timestamping { bits: ALL_BITS }
    }

    /// The bits of the set, as the kernel takes them.
    pub fn bits(&self) -> (bits: i32)
        ensures
            bits == self@,
    {
        self.bits
    }

    /// The set with the given bits, or nothing where a bit is set that is
    /// the bit of no flag.
    pub fn from_bits(bits: i32) -> (r: Option<Self>)
        ensures
            r is Some <==> bits & !ALL_BITS == 0,
            r matches Some(flags) ==> flags@ == bits && flags.wf(),
    {
        if bits & !ALL_BITS == 0 {
            Some(Timestamping { bits })
        } else {
            None
        }
    }

    /// The set with those of the given bits that are bits of flags.
    pub fn from_bits_truncate(bits: i32) -> (r: Self)
        ensures
            r@ == bits & ALL_BITS,
            r.wf(),
    {
        proof {
            lemma_flag_bits(bits, 0);
        }
        Timestamping { bits: bits & ALL_BITS }
    }

    /// Tells whether the set has no flag.
    pub fn is_empty(&self) -> (b: bool)
        ensures
            b == (self@ == 0),
    {
        self.bits == 0
    }

    /// Tells whether every flag of `other` is in the set.
    pub fn contains(&self, other: Timestamping) -> (b: bool)
        ensures
            b == self.spec_contains(other),
    {
        self.bits & other.bits == other.bits
    }

    /// The flags that are in either set.
    pub fn union(self, other: Timestamping) -> (r: Self)
        ensures
            r@ == self@ | other@,
            self.wf() && other.wf() ==> r.wf(),
            r.spec_contains(self),
            r.spec_contains(other),
    {
        proof {
            lemma_flag_bits(self.bits, other.bits);
        }
        Timestamping { bits: self.bits | other.bits }
    }

    /// The flags that are in both sets.
    pub fn intersection(self, other: Timestamping) -> (r: Self)
        ensures
            r@ == self@ & other@,
            self.wf() || other.wf() ==> r.wf(),
            self.spec_contains(r),
            other.spec_contains(r),
    {
        proof {
            lemma_flag_bits(self.bits, other.bits);
        }
        Timestamping { bits: self.bits & other.bits }
    }
}

/// What the operations on flag bits keep.
proof fn lemma_flag_bits(a: i32, b: i32)
    by (bit_vector)
    ensures
        0i32 & !ALL_BITS == 0,
        ALL_BITS & !ALL_BITS == 0,
        (a & ALL_BITS) & !ALL_BITS == 0,
        a & !ALL_BITS == 0 && b & !ALL_BITS == 0 ==> (a | b) & !ALL_BITS == 0,
        a & !ALL_BITS == 0 || b & !ALL_BITS == 0 ==> (a & b) & !ALL_BITS == 0,
        (a | b) & a == a,
        (a | b) & b == b,
        a & (a & b) == a & b,
        b & (a & b) == a & b,
{
}

/// Each flag is one bit among the bits of flags.
pub proof fn lemma_flag_values()
    ensures
        Timestamping::TX_HARDWARE & !ALL_BITS == 0,
        Timestamping::TX_SOFTWARE & !ALL_BITS == 0,
        Timestamping::RX_HARDWARE & !ALL_BITS == 0,
        Timestamping::RX_SOFTWARE & !ALL_BITS == 0,
        Timestamping::SOFTWARE & !ALL_BITS == 0,
        Timestamping::SYS_HARDWARE & !ALL_BITS == 0,
        Timestamping::RAW_HARDWARE & !ALL_BITS == 0,
        Timestamping::OPT_ID & !ALL_BITS == 0,
        Timestamping::TX_SCHED & !ALL_BITS == 0,
        Timestamping::TX_ACK & !ALL_BITS == 0,
        Timestamping::OPT_CMSG & !ALL_BITS == 0,
        Timestamping::OPT_TSONLY & !ALL_BITS == 0,
        Timestamping::OPT_STATS & !ALL_BITS == 0,
        Timestamping::OPT_PKTINFO & !ALL_BITS == 0,
        Timestamping::OPT_TX_SWHW & !ALL_BITS == 0,
{
    assert(0x0001i32 & !ALL_BITS == 0
        && 0x0002i32 & !ALL_BITS == 0
        && 0x0004i32 & !ALL_BITS == 0
        && 0x0008i32 & !ALL_BITS == 0
        && 0x0010i32 & !ALL_BITS == 0
        && 0x0020i32 & !ALL_BITS == 0
        && 0x0040i32 & !ALL_BITS == 0
        && 0x0080i32 & !ALL_BITS == 0
        && 0x0100i32 & !ALL_BITS == 0
        && 0x0200i32 & !ALL_BITS == 0
        && 0x0400i32 & !ALL_BITS == 0
        && 0x0800i32 & !ALL_BITS == 0
        && 0x1000i32 & !ALL_BITS == 0
        && 0x2000i32 & !ALL_BITS == 0
        && 0x4000i32 & !ALL_BITS == 0) by (bit_vector);
}

} // verus!
