use vstd::prelude::*;

use crate::protocol::addresses::{
    BROADCAST, ENUMERATION_BROADCAST, ERV_FIRST, ERV_LAST, INDOOR_UNIT_FIRST, INDOOR_UNIT_LAST,
    MAIN_WRC, SUB_WRC, TRACKING_BROADCAST,
};
use crate::protocol::codec::{
    FrameId, FrameInner, RxFrame, SpecFrame, SpecRxFrame, SpecTimedFrame, SpecTxFrame, TimedFrame,
    TxFrame,
};
use crate::protocol::commands::{
    CommandC4Request, CommandC5Request, CommandC6, CommandD1, TrackingAssignAddress,
    TrackingCommandFB, TrackingDiscoverState, TrackingHello,
};

verus! {

/// The command id of the short broadcast that closes the tracking phase.
pub const TRACKING_COMPLETE_ID: u8 = 0xf9;

/// The protocol stage the controller owns as ground truth.
#[derive(Clone, Copy, Debug, PartialEq, Eq, Structural)]
pub enum Phase {
    Discovery,
    Enumeration,
    NormalOperation,
}

/// Whether an address belongs to a peripheral: indoor-unit range or
/// auxiliary-ventilation range.
pub open spec fn spec_is_unit_address(a: u8) -> bool {
    (INDOOR_UNIT_FIRST <= a <= INDOOR_UNIT_LAST) || (ERV_FIRST <= a <= ERV_LAST)
}

/// An empty-payload read poll of one peripheral, and the pause after it.
pub open spec fn spec_poll(addr: u8, cmd: u8, delay_ms: u64) -> SpecTimedFrame {
    SpecTimedFrame {
        frame: SpecTxFrame::Long(
            SpecFrame {
                src: MAIN_WRC,
                dst: addr,
                cmd,
                data: seq![0u8, 0u8, 0u8, 0u8, 0u8, 0u8, 0u8, 0u8],
            },
        ),
        delay_ms,
    }
}

/// The k-th of the four read-status command kinds of normal operation.
pub open spec fn spec_read_kind(k: int) -> u8 {
    if k == 0 {
        0x52
    } else if k == 1 {
        0x53
    } else if k == 2 {
        0x54
    } else {
        0x55
    }
}

/// One enumeration block: every peripheral address polled with one read
/// kind, then the two-message sub-WRC handshake, direct and broadcast.
pub open spec fn spec_enum_block(cmd: u8, n_units: u8, high: u8) -> Seq<SpecTimedFrame> {
    Seq::new(32, |i: int| spec_poll((INDOOR_UNIT_FIRST + i) as u8, cmd, 180)) + Seq::new(
        32,
        |i: int| spec_poll((ERV_FIRST + i) as u8, cmd, 180),
    ) + seq![
        SpecTimedFrame {
            frame: SpecTxFrame::Long(
                SpecFrame {
                    src: MAIN_WRC,
                    dst: SUB_WRC,
                    cmd: CommandC5Request::ID,
                    data: seq![0x22u8, 0u8, 0u8, 0u8, 0u8, 0u8, 0u8, 0u8],
                },
            ),
            delay_ms: 180,
        },
        SpecTimedFrame {
            frame: SpecTxFrame::Long(
                SpecFrame {
                    src: MAIN_WRC,
                    dst: SUB_WRC,
                    cmd: CommandC4Request::ID,
                    data: seq![0u8, n_units, 0u8, 0u8, high, 0u8, 0u8, 0x44u8],
                },
            ),
            delay_ms: 180,
        },
        SpecTimedFrame {
            frame: SpecTxFrame::Long(
                SpecFrame {
                    src: MAIN_WRC,
                    dst: ENUMERATION_BROADCAST,
                    cmd: CommandC6::ID,
                    data: seq![0x22u8, n_units, 0x20u8, 0xb0u8, 0u8, 0u8, 0u8, 0u8],
                },
            ),
            delay_ms: 180,
        },
        SpecTimedFrame {
            frame: SpecTxFrame::Long(
                SpecFrame {
                    src: MAIN_WRC,
                    dst: ENUMERATION_BROADCAST,
                    cmd: CommandC4Request::ID,
                    data: seq![0u8, n_units, 0u8, 0u8, high, 0u8, 0u8, 0x44u8],
                },
            ),
            delay_ms: 180,
        },
    ]
}

/// One full enumeration pass: the block for each of the two enumeration
/// read kinds.
pub open spec fn spec_enumeration_pass(n_units: u8, high: u8) -> Seq<SpecTimedFrame> {
    spec_enum_block(0x52, n_units, high) + spec_enum_block(0x54, n_units, high)
}

/// One normal-operation block: every known peripheral polled with one read
/// kind, the sub-WRC handshake, and the end-of-phase broadcast.
pub open spec fn spec_normal_block(units: Seq<u8>, cmd: u8, n_units: u8, high: u8) -> Seq<
    SpecTimedFrame,
> {
    Seq::new(units.len(), |i: int| spec_poll(units[i], cmd, 180)) + seq![
        SpecTimedFrame {
            frame: SpecTxFrame::Long(
                SpecFrame {
                    src: MAIN_WRC,
                    dst: SUB_WRC,
                    cmd: CommandC4Request::ID,
                    data: seq![0x01u8, n_units, 0u8, 0u8, high, 0u8, 0u8, 0x44u8],
                },
            ),
            delay_ms: 900,
        },
        SpecTimedFrame {
            frame: SpecTxFrame::Long(
                SpecFrame {
                    src: MAIN_WRC,
                    dst: SUB_WRC,
                    cmd: CommandC5Request::ID,
                    data: seq![0x22u8, 0x80u8, 0u8, 0u8, 0u8, 0u8, 0u8, 0u8],
                },
            ),
            delay_ms: 900,
        },
        SpecTimedFrame {
            frame: SpecTxFrame::Long(
                SpecFrame {
                    src: MAIN_WRC,
                    dst: BROADCAST,
                    cmd: CommandD1::ID,
                    data: seq![0x01u8, 0u8, 0u8, 0u8, 0u8, 0u8, 0u8, 0u8],
                },
            ),
            delay_ms: 300,
        },
    ]
}

/// One normal-operation cycle: the block for each of the four read kinds,
/// in their fixed order.
pub open spec fn spec_normal_cycle(units: Seq<u8>, n_units: u8, high: u8) -> Seq<SpecTimedFrame> {
    spec_normal_block(units, 0x52, n_units, high) + spec_normal_block(units, 0x53, n_units, high)
        + spec_normal_block(units, 0x54, n_units, high) + spec_normal_block(
        units,
        0x55,
        n_units,
        high,
    )
}

/// Phase cycle order: within one normal-operation cycle, the j-th known
/// peripheral is polled by the k-th block with exactly the k-th read kind,
/// so every cycle issues the four kinds in one fixed repeating order.
pub proof fn lemma_normal_cycle_order(units: Seq<u8>, n_units: u8, high: u8, k: int, j: int)
    requires
        0 <= k < 4,
        0 <= j < units.len(),
    ensures
        spec_normal_cycle(units, n_units, high)[k * (units.len() + 3) + j] == spec_poll(
            units[j],
            spec_read_kind(k),
            180,
        ),
{
    let b = units.len() as int + 3;
    assert(spec_normal_block(units, 0x52, n_units, high).len() == b);
    assert(spec_normal_block(units, 0x53, n_units, high).len() == b);
    assert(spec_normal_block(units, 0x54, n_units, high).len() == b);
    assert(spec_normal_block(units, 0x55, n_units, high).len() == b);
    if k == 0 {
        assert(spec_normal_cycle(units, n_units, high)[j] == spec_normal_block(
            units,
            0x52,
            n_units,
            high,
        )[j]);
    } else if k == 1 {
        assert(spec_normal_cycle(units, n_units, high)[b + j] == spec_normal_block(
            units,
            0x53,
            n_units,
            high,
        )[j]);
    } else if k == 2 {
        assert(spec_normal_cycle(units, n_units, high)[2 * b + j] == spec_normal_block(
            units,
            0x54,
            n_units,
            high,
        )[j]);
    } else {
        assert(spec_normal_cycle(units, n_units, high)[3 * b + j] == spec_normal_block(
            units,
            0x55,
            n_units,
            high,
        )[j]);
    }
}

/// The largest address in the sequence, or zero when there is none.
pub open spec fn spec_max(s: Seq<u8>) -> u8
    decreases s.len(),
{
    if s.len() == 0 {
        0u8
    } else {
        let m = spec_max(s.drop_last());
        if s.last() > m {
            s.last()
        } else {
            m
        }
    }
}

fn max_address(v: &Vec<u8>) -> (r: u8)
    ensures
        r == spec_max(v@),
{
    let mut acc: u8 = 0;
    let mut i: usize = 0;
    proof {
        assert(v@.take(0) =~= Seq::<u8>::empty());
    }
    while i < v.len()
        invariant
            i <= v@.len(),
            acc == spec_max(v@.take(i as int)),
        decreases v@.len() - i,
    {
        proof {
            assert(v@.take(i + 1).drop_last() =~= v@.take(i as int));
        }
        if v[i] > acc {
            acc = v[i];
        }
        i = i + 1;
    }
    proof {
        assert(v@.take(v@.len() as int) =~= v@);
    }
    acc
}

fn contains_address(v: &Vec<u8>, x: u8) -> (r: bool)
    ensures
        r == v@.contains(x),
{
    let mut i: usize = 0;
    while i < v.len()
        invariant
            i <= v@.len(),
            forall|j: int| 0 <= j < i ==> v@[j] != x,
        decreases v@.len() - i,
    {
        if v[i] == x {
            return true;
        }
        i = i + 1;
    }
    false
}

/// The main WRC: it owns the protocol phase and drives the bus through
/// discovery, enumeration and normal operation.
pub struct MainWrc {
    pub phase: Phase,
    /// Temporary candidate addresses that answered the discovery broadcast,
    /// in order of arrival.
    pub discovered: Vec<u8>,
    /// Bus addresses of the peripherals that answered enumeration polls.
    pub iu_addresses: Vec<u8>,
}

impl MainWrc {
    /// Both gathered lists stay small enough to count in one byte.
    pub open spec fn wf(self) -> bool {
        self.discovered@.len() <= 255 && self.iu_addresses@.len() <= 255
    }

    /// A fresh controller, about to run discovery.
    pub fn new() -> (r: MainWrc)
        ensures
            r.wf(),
            r.phase is Discovery,
            r.discovered@ == Seq::<u8>::empty(),
            r.iu_addresses@ == Seq::<u8>::empty(),
    {
        MainWrc { phase: Phase::Discovery, discovered: Vec::new(), iu_addresses: Vec::new() }
    }

    /// Enter discovery: every unit is told to drop its address and pick a
    /// fresh temporary candidate, and the controller forgets what it had
    /// discovered. The pause leaves the units time to answer.
    pub fn begin_discovery(&mut self) -> (r: TimedFrame)
        requires
            old(self).wf(),
        ensures
            final(self).wf(),
            final(self).phase is Discovery,
            final(self).discovered@ == Seq::<u8>::empty(),
            final(self).iu_addresses@ == old(self).iu_addresses@,
            r@ == (SpecTimedFrame {
                frame: SpecTxFrame::Long(
                    SpecFrame {
                        src: MAIN_WRC,
                        dst: TRACKING_BROADCAST,
                        cmd: TrackingCommandFB::ID,
                        data: seq![2u8, 0u8, 0u8, 0u8, 0u8, 0u8, 0u8, 0u8],
                    },
                ),
                delay_ms: 8000,
            }),
    {
        self.phase = Phase::Discovery;
        self.discovered = Vec::new();
        let cmd = TrackingCommandFB {
            state: TrackingDiscoverState::TrackingStart,
            unknown: [0, 0, 0, 0, 0, 0, 0],
        };
        let frame = FrameInner::<8> {
            id: FrameId { src: MAIN_WRC, dst: TRACKING_BROADCAST, cmd: TrackingCommandFB::ID },
            data: cmd.pack(),
        };
        proof {
            assert(cmd.spec_pack() =~= seq![2u8, 0u8, 0u8, 0u8, 0u8, 0u8, 0u8, 0u8]);
        }
        TimedFrame { frame: TxFrame::Long(frame), delay_ms: 8000 }
    }

    /// React to one received frame. During discovery, hellos are gathered;
    /// during enumeration, peripherals that answer a poll are recorded;
    /// during normal operation, the sub WRC answering the end-of-phase
    /// broadcast forces the controller back to discovery, which the result
    /// reports. Everything else is ignored.
    pub fn on_frame(&mut self, frame: &RxFrame) -> (reset: bool)
        requires
            old(self).wf(),
        ensures
            final(self).wf(),
            match frame@ {
                SpecRxFrame::Short(fr) => {
                    &&& if old(self).phase is Discovery && fr.dst == MAIN_WRC && fr.cmd
                        == TrackingHello::ID && old(self).discovered@.len() < 255 {
                        final(self).discovered@ == old(self).discovered@.push(fr.src)
                    } else {
                        final(self).discovered@ == old(self).discovered@
                    }
                    &&& final(self).phase == old(self).phase
                    &&& final(self).iu_addresses@ == old(self).iu_addresses@
                    &&& !reset
                },
                SpecRxFrame::Long(fr) => {
                    &&& if old(self).phase is Enumeration && fr.dst == MAIN_WRC
                        && spec_is_unit_address(fr.src) && (fr.cmd == 0x52 || fr.cmd == 0x54) && !old(
                        self,
                    ).iu_addresses@.contains(fr.src) && old(self).iu_addresses@.len() < 255 {
                        final(self).iu_addresses@ == old(self).iu_addresses@.push(fr.src)
                            && final(self).phase == old(self).phase && !reset
                    } else if old(self).phase is NormalOperation && fr.src == SUB_WRC && fr.dst
                        == MAIN_WRC && fr.cmd == CommandD1::ID {
                        final(self).iu_addresses@ == old(self).iu_addresses@ && final(self).phase
                            is Discovery && reset
                    } else {
                        final(self).iu_addresses@ == old(self).iu_addresses@ && final(self).phase
                            == old(self).phase && !reset
                    }
                    &&& final(self).discovered@ == old(self).discovered@
                },
                SpecRxFrame::Corrupted(_) => {
                    &&& *final(self) == *old(self)
                    &&& !reset
                },
            },
    {
        match frame {
            RxFrame::Short(f) => {
                if matches!(self.phase, Phase::Discovery) && f.id.dst == MAIN_WRC && f.id.cmd
                    == TrackingHello::ID && self.discovered.len() < 255 {
                    self.discovered.push(f.id.src);
                }
                false
            },
            RxFrame::Long(f) => {
                if matches!(self.phase, Phase::Enumeration) && f.id.dst == MAIN_WRC
                    && Self::is_unit_address(f.id.src) && (f.id.cmd == 0x52 || f.id.cmd == 0x54) {
                    if !contains_address(&self.iu_addresses, f.id.src) && self.iu_addresses.len()
                        < 255 {
                        self.iu_addresses.push(f.id.src);
                    }
                    false
                } else if matches!(self.phase, Phase::NormalOperation) && f.id.src == SUB_WRC
                    && f.id.dst == MAIN_WRC && f.id.cmd == CommandD1::ID {
                    self.phase = Phase::Discovery;
                    true
                } else {
                    false
                }
            },
            RxFrame::Corrupted(_) => false,
        }
    }

    fn is_unit_address(a: u8) -> (r: bool)
        ensures
            r == spec_is_unit_address(a),
    {
        (INDOOR_UNIT_FIRST <= a && a <= INDOOR_UNIT_LAST) || (ERV_FIRST <= a && a <= ERV_LAST)
    }

    /// Close discovery: grant the i-th discovered candidate the stable
    /// value i, in arrival order, then broadcast the end of tracking and
    /// enter enumeration.
    pub fn finish_discovery(&mut self) -> (r: Vec<TimedFrame>)
        requires
            old(self).wf(),
        ensures
            final(self).wf(),
            final(self).phase is Enumeration,
            final(self).discovered@ == old(self).discovered@,
            final(self).iu_addresses@ == old(self).iu_addresses@,
            r@.len() == old(self).discovered@.len() + 1,
            forall|i: int|
                0 <= i < old(self).discovered@.len() ==> r@[i]@ == (SpecTimedFrame {
                    frame: SpecTxFrame::Short(
                        SpecFrame {
                            src: MAIN_WRC,
                            dst: old(self).discovered@[i],
                            cmd: TrackingAssignAddress::ID,
                            data: seq![i as u8],
                        },
                    ),
                    delay_ms: 180,
                }),
            r@[r@.len() - 1]@ == (SpecTimedFrame {
                frame: SpecTxFrame::Short(
                    SpecFrame {
                        src: MAIN_WRC,
                        dst: TRACKING_BROADCAST,
                        cmd: TRACKING_COMPLETE_ID,
                        data: seq![0u8],
                    },
                ),
                delay_ms: 600,
            }),
    {
        let mut r: Vec<TimedFrame> = Vec::new();
        let mut i: usize = 0;
        while i < self.discovered.len()
            invariant
                i <= self.discovered@.len(),
                self.discovered@.len() <= 255,
                r@.len() == i,
                *self == *old(self),
                forall|j: int|
                    0 <= j < i ==> r@[j]@ == (SpecTimedFrame {
                        frame: SpecTxFrame::Short(
                            SpecFrame {
                                src: MAIN_WRC,
                                dst: old(self).discovered@[j],
                                cmd: TrackingAssignAddress::ID,
                                data: seq![j as u8],
                            },
                        ),
                        delay_ms: 180,
                    }),
            decreases self.discovered@.len() - i,
        {
            let grant = TrackingAssignAddress { address: i as u8 };
            let frame = FrameInner::<1> {
                id: FrameId {
                    src: MAIN_WRC,
                    dst: self.discovered[i],
                    cmd: TrackingAssignAddress::ID,
                },
                data: grant.pack(),
            };
            proof {
                assert(grant.spec_pack() =~= seq![i as u8]);
            }
            r.push(TimedFrame { frame: TxFrame::Short(frame), delay_ms: 180 });
            i = i + 1;
        }
        let done = FrameInner::<1> {
            id: FrameId { src: MAIN_WRC, dst: TRACKING_BROADCAST, cmd: TRACKING_COMPLETE_ID },
            data: [0x00],
        };
        proof {
            assert(done.data@ =~= seq![0u8]);
        }
        r.push(TimedFrame { frame: TxFrame::Short(done), delay_ms: 600 });
        self.phase = Phase::Enumeration;
        r
    }

    /// Append the given read kind's polls of both whole peripheral address
    /// ranges, then the sub-WRC handshake and its broadcast form.
    #[verifier::loop_isolation(false)]
    fn push_enum_block(&self, r: &mut Vec<TimedFrame>, cmd: u8, n_units: u8, high: u8)
        ensures
            final(r)@.len() == old(r)@.len() + spec_enum_block(cmd, n_units, high).len(),
            forall|i: int| 0 <= i < old(r)@.len() ==> final(r)@[i] == old(r)@[i],
            forall|i: int|
                old(r)@.len() <= i < final(r)@.len() ==> final(r)@[i]@ == spec_enum_block(
                    cmd,
                    n_units,
                    high,
                )[i - old(r)@.len()],
    {
        let ghost base = r@.len() as int;
        let ghost block = spec_enum_block(cmd, n_units, high);
        assert(block.len() == 68);
        let mut k: usize = 0;
        while k < 32
            invariant
                k <= 32,
                r@.len() == base + k,
                forall|i: int| 0 <= i < base ==> r@[i] == old(r)@[i],
                forall|i: int| base <= i < r@.len() ==> r@[i]@ == block[i - base],
            decreases 32 - k,
        {
            let addr: u8 = INDOOR_UNIT_FIRST + (k as u8);
            r.push(self.poll(addr, cmd, 180));
            proof {
                assert(block[k as int] == spec_poll((INDOOR_UNIT_FIRST + k as int) as u8, cmd, 180));
                assert(addr == (INDOOR_UNIT_FIRST + k as int) as u8);
            }
            k = k + 1;
        }
        let mut k: usize = 0;
        while k < 32
            invariant
                k <= 32,
                r@.len() == base + 32 + k,
                forall|i: int| 0 <= i < base ==> r@[i] == old(r)@[i],
                forall|i: int| base <= i < r@.len() ==> r@[i]@ == block[i - base],
            decreases 32 - k,
        {
            let addr: u8 = ERV_FIRST + (k as u8);
            r.push(self.poll(addr, cmd, 180));
            proof {
                assert(block[32 + k as int] == spec_poll((ERV_FIRST + k as int) as u8, cmd, 180));
                assert(addr == (ERV_FIRST + k as int) as u8);
            }
            k = k + 1;
        }
        let handshake = CommandC5Request {
            unknown_byte0: 0x22,
            unknown_byte1: 0x00,
            unknown: [0, 0, 0, 0, 0, 0],
        };
        let frame = FrameInner::<8> {
            id: FrameId { src: MAIN_WRC, dst: SUB_WRC, cmd: CommandC5Request::ID },
            data: handshake.pack(),
        };
        proof {
            assert(handshake.spec_pack() =~= seq![0x22u8, 0u8, 0u8, 0u8, 0u8, 0u8, 0u8, 0u8]);
        }
        r.push(TimedFrame { frame: TxFrame::Long(frame), delay_ms: 180 });
        let ping = CommandC4Request {
            unknown_byte0: 0x00,
            number_of_indoor_units: n_units,
            unknown_iu_address: high,
            unknown_byte7: 0x44,
        };
        let frame = FrameInner::<8> {
            id: FrameId { src: MAIN_WRC, dst: SUB_WRC, cmd: CommandC4Request::ID },
            data: ping.pack(),
        };
        proof {
            assert(ping.spec_pack() =~= seq![0u8, n_units, 0u8, 0u8, high, 0u8, 0u8, 0x44u8]);
        }
        r.push(TimedFrame { frame: TxFrame::Long(frame), delay_ms: 180 });
        let status = CommandC6 {
            unknown_byte0: 0x22,
            number_of_indoor_units: n_units,
            unknown: [0x20, 0xb0, 0, 0, 0, 0],
        };
        let frame = FrameInner::<8> {
            id: FrameId { src: MAIN_WRC, dst: ENUMERATION_BROADCAST, cmd: CommandC6::ID },
            data: status.pack(),
        };
        proof {
            assert(status.spec_pack() =~= seq![0x22u8, n_units, 0x20u8, 0xb0u8, 0u8, 0u8, 0u8, 0u8]);
        }
        r.push(TimedFrame { frame: TxFrame::Long(frame), delay_ms: 180 });
        let ping = CommandC4Request {
            unknown_byte0: 0x00,
            number_of_indoor_units: n_units,
            unknown_iu_address: high,
            unknown_byte7: 0x44,
        };
        let frame = FrameInner::<8> {
            id: FrameId { src: MAIN_WRC, dst: ENUMERATION_BROADCAST, cmd: CommandC4Request::ID },
            data: ping.pack(),
        };
        proof {
            assert(ping.spec_pack() =~= seq![0u8, n_units, 0u8, 0u8, high, 0u8, 0u8, 0x44u8]);
        }
        r.push(TimedFrame { frame: TxFrame::Long(frame), delay_ms: 180 });
    }

    fn poll(&self, addr: u8, cmd: u8, delay_ms: u64) -> (t: TimedFrame)
        ensures
            t@ == spec_poll(addr, cmd, delay_ms),
    {
        let frame = FrameInner::<8> {
            id: FrameId { src: MAIN_WRC, dst: addr, cmd },
            data: [0, 0, 0, 0, 0, 0, 0, 0],
        };
        proof {
            assert(frame.data@ =~= seq![0u8, 0u8, 0u8, 0u8, 0u8, 0u8, 0u8, 0u8]);
        }
        TimedFrame { frame: TxFrame::Long(frame), delay_ms }
    }

    /// One full enumeration pass over the bus: both whole peripheral
    /// address ranges polled with the two enumeration read kinds, the sub
    /// WRC handshakes, and the broadcast status; then the controller enters
    /// normal operation. Enumeration always advances after one pass.
    pub fn enumeration_pass(&mut self) -> (r: Vec<TimedFrame>)
        requires
            old(self).wf(),
            old(self).phase is Enumeration,
        ensures
            final(self).wf(),
            final(self).phase is NormalOperation,
            final(self).discovered@ == old(self).discovered@,
            final(self).iu_addresses@ == old(self).iu_addresses@,
            ({
                let pass = spec_enumeration_pass(
                    old(self).iu_addresses@.len() as u8,
                    spec_max(old(self).iu_addresses@),
                );
                r@.len() == pass.len() && forall|i: int| 0 <= i < r@.len() ==> r@[i]@ == pass[i]
            }),
    {
        let n_units: u8 = self.iu_addresses.len() as u8;
        let high: u8 = max_address(&self.iu_addresses);
        let mut r: Vec<TimedFrame> = Vec::new();
        self.push_enum_block(&mut r, 0x52, n_units, high);
        self.push_enum_block(&mut r, 0x54, n_units, high);
        proof {
            let pass = spec_enumeration_pass(n_units, high);
            let b52 = spec_enum_block(0x52, n_units, high);
            let b54 = spec_enum_block(0x54, n_units, high);
            assert(b52.len() == 68 && b54.len() == 68);
            assert(forall|i: int| 0 <= i < 68 ==> pass[i] == b52[i]);
            assert(forall|i: int| 68 <= i < 136 ==> pass[i] == b54[i - 68]);
        }
        self.phase = Phase::NormalOperation;
        r
    }

    /// Append one read kind's polls of the known peripherals, the sub-WRC
    /// handshake, and the end-of-phase broadcast.
    #[verifier::loop_isolation(false)]
    fn push_normal_block(&self, r: &mut Vec<TimedFrame>, cmd: u8, n_units: u8, high: u8)
        requires
            self.wf(),
        ensures
            final(r)@.len() == old(r)@.len() + spec_normal_block(
                self.iu_addresses@,
                cmd,
                n_units,
                high,
            ).len(),
            forall|i: int| 0 <= i < old(r)@.len() ==> final(r)@[i] == old(r)@[i],
            forall|i: int|
                old(r)@.len() <= i < final(r)@.len() ==> final(r)@[i]@ == spec_normal_block(
                    self.iu_addresses@,
                    cmd,
                    n_units,
                    high,
                )[i - old(r)@.len()],
    {
        let ghost base = r@.len() as int;
        let ghost block = spec_normal_block(self.iu_addresses@, cmd, n_units, high);
        assert(block.len() == self.iu_addresses@.len() + 3);
        let mut k: usize = 0;
        while k < self.iu_addresses.len()
            invariant
                k <= self.iu_addresses@.len(),
                r@.len() == base + k,
                block == spec_normal_block(self.iu_addresses@, cmd, n_units, high),
                block.len() == self.iu_addresses@.len() + 3,
                forall|i: int| 0 <= i < base ==> r@[i] == old(r)@[i],
                forall|i: int| base <= i < r@.len() ==> r@[i]@ == block[i - base],
            decreases self.iu_addresses@.len() - k,
        {
            let addr = self.iu_addresses[k];
            r.push(self.poll(addr, cmd, 180));
            proof {
                assert(block[k as int] == spec_poll(self.iu_addresses@[k as int], cmd, 180));
            }
            k = k + 1;
        }
        let ping = CommandC4Request {
            unknown_byte0: 0x01,
            number_of_indoor_units: n_units,
            unknown_iu_address: high,
            unknown_byte7: 0x44,
        };
        let frame = FrameInner::<8> {
            id: FrameId { src: MAIN_WRC, dst: SUB_WRC, cmd: CommandC4Request::ID },
            data: ping.pack(),
        };
        proof {
            assert(ping.spec_pack() =~= seq![0x01u8, n_units, 0u8, 0u8, high, 0u8, 0u8, 0x44u8]);
        }
        r.push(TimedFrame { frame: TxFrame::Long(frame), delay_ms: 900 });
        let handshake = CommandC5Request {
            unknown_byte0: 0x22,
            unknown_byte1: 0x80,
            unknown: [0, 0, 0, 0, 0, 0],
        };
        let frame = FrameInner::<8> {
            id: FrameId { src: MAIN_WRC, dst: SUB_WRC, cmd: CommandC5Request::ID },
            data: handshake.pack(),
        };
        proof {
            assert(handshake.spec_pack() =~= seq![0x22u8, 0x80u8, 0u8, 0u8, 0u8, 0u8, 0u8, 0u8]);
        }
        r.push(TimedFrame { frame: TxFrame::Long(frame), delay_ms: 900 });
        let end = FrameInner::<8> {
            id: FrameId { src: MAIN_WRC, dst: BROADCAST, cmd: CommandD1::ID },
            data: [0x01, 0, 0, 0, 0, 0, 0, 0],
        };
        proof {
            assert(end.data@ =~= seq![0x01u8, 0u8, 0u8, 0u8, 0u8, 0u8, 0u8, 0u8]);
        }
        r.push(TimedFrame { frame: TxFrame::Long(end), delay_ms: 300 });
    }

    /// One normal-operation cycle: the four read kinds to every known
    /// peripheral in their fixed order, each followed by the sub-WRC
    /// handshake and the end-of-phase broadcast.
    pub fn normal_cycle(&self) -> (r: Vec<TimedFrame>)
        requires
            self.wf(),
            self.phase is NormalOperation,
        ensures
            ({
                let cyc = spec_normal_cycle(
                    self.iu_addresses@,
                    self.iu_addresses@.len() as u8,
                    spec_max(self.iu_addresses@),
                );
                r@.len() == cyc.len() && forall|i: int| 0 <= i < r@.len() ==> r@[i]@ == cyc[i]
            }),
    {
        let n_units: u8 = self.iu_addresses.len() as u8;
        let high: u8 = max_address(&self.iu_addresses);
        let mut r: Vec<TimedFrame> = Vec::new();
        self.push_normal_block(&mut r, 0x52, n_units, high);
        self.push_normal_block(&mut r, 0x53, n_units, high);
        self.push_normal_block(&mut r, 0x54, n_units, high);
        self.push_normal_block(&mut r, 0x55, n_units, high);
        proof {
            let units = self.iu_addresses@;
            let cyc = spec_normal_cycle(units, n_units, high);
            let b = units.len() as int + 3;
            let b1 = spec_normal_block(units, 0x52, n_units, high);
            let b2 = spec_normal_block(units, 0x53, n_units, high);
            let b3 = spec_normal_block(units, 0x54, n_units, high);
            let b4 = spec_normal_block(units, 0x55, n_units, high);
            assert(b1.len() == b && b2.len() == b && b3.len() == b && b4.len() == b);
            assert(forall|i: int| 0 <= i < b ==> cyc[i] == b1[i]);
            assert(forall|i: int| b <= i < 2 * b ==> cyc[i] == b2[i - b]);
            assert(forall|i: int| 2 * b <= i < 3 * b ==> cyc[i] == b3[i - 2 * b]);
            assert(forall|i: int| 3 * b <= i < 4 * b ==> cyc[i] == b4[i - 3 * b]);
        }
        r
    }
}

} // verus!
