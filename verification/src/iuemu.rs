use vstd::prelude::*;

use crate::protocol::addresses::{INDOOR_UNIT_FIRST, MAIN_WRC, SUB_WRC, TRACKING_BROADCAST};
use crate::protocol::codec::{
    FrameId, FrameInner, RxFrame, SpecFrame, SpecRxFrame, SpecTxFrame, TxFrame,
};
use crate::protocol::commands::{
    all_zero, Command52IndoorUnitResponse, Command52Request, Command53IndoorUnitResponse,
    Command53Request, Command54IndoorUnitResponse, Command54Request, Command55IndoorUnitResponse,
    Command55Request, CommandA0, Mode, StatusMode, Temperature, TemperatureUnit,
    TrackingAddressAssigned, TrackingAssignAddress, TrackingCommandFB, TrackingDiscoverState,
    TrackingHello,
};
use crate::protocol::iu::{IndoorUnitFanSpeed, IndoorUnitMode, IndoorUnitState};

verus! {

/// Relies on rand::random: a byte drawn from the thread's generator;
/// nothing is promised of the value.
#[verifier::external_body]
fn random_u8() -> u8 {
    rand::random()
}

/// A peripheral's device address: an unstable probe value picked during
/// discovery, or the stable value the controller granted.
#[derive(Clone, Copy, Debug, PartialEq, Eq, Structural)]
pub enum Address {
    Temporary(u8),
    Assigned(u8),
}

impl Address {
    /// The numeric value the unit currently answers from.
    pub open spec fn spec_value(self) -> u8 {
        match self {
            Address::Temporary(v) => v,
            Address::Assigned(v) => v,
        }
    }

    pub fn value(self) -> (r: u8)
        ensures
            r == self.spec_value(),
    {
        match self {
            Address::Temporary(v) => v,
            Address::Assigned(v) => v,
        }
    }

    /// A fresh temporary candidate, drawn at random.
    pub fn random_temporary() -> (r: Self)
        ensures
            r is Temporary,
    {
        Address::Temporary(random_u8())
    }
}

/// A frame the unit answers with, after the given pause. During discovery
/// the pause is derived from the unit's candidate address, so that smaller
/// candidates answer sooner; a caller that prefers randomized collision
/// backoff may replace it.
#[derive(Copy, Clone, Debug, PartialEq)]
pub struct Reply {
    pub delay_ms: u64,
    pub frame: TxFrame,
}

/// The mathematical image of a unit's reply.
pub struct SpecReply {
    pub delay_ms: u64,
    pub frame: SpecTxFrame,
}

impl View for Reply {
    type V = SpecReply;

    open spec fn view(&self) -> SpecReply {
        SpecReply { delay_ms: self.delay_ms, frame: self.frame@ }
    }
}

/// One emulated indoor unit: its identity on the bus and its local state.
#[derive(Clone, Copy, Debug, PartialEq, Eq, Structural)]
pub struct IndoorUnit {
    pub unit_id: u8,
    pub state: IndoorUnitState,
    pub address: Address,
}

/// Whether a frame addressed to `dst` is for the unit at `addr`: only an
/// assigned unit listens, on the indoor-unit base address offset by its
/// assigned value plus ten.
pub open spec fn spec_unit_dst(addr: Address, dst: u8) -> bool {
    match addr {
        Address::Temporary(_) => false,
        Address::Assigned(a) => dst as int == INDOOR_UNIT_FIRST + a + 10,
    }
}

/// What a discovery broadcast does to the unit: how the address changes,
/// and the hello owed from the resulting address.
pub open spec fn spec_discover(u: IndoorUnit, data: Seq<u8>, fresh: u8) -> (
    IndoorUnit,
    Option<SpecReply>,
) {
    match TrackingDiscoverState::spec_from_value(TrackingCommandFB::spec_state_bits(data)) {
        None => (u, None),
        Some(st) => {
            if (st is DiscoverUnassigned && u.address is Assigned) || (st is DiscoverAssigned
                && u.address is Temporary) {
                (u, None)
            } else {
                let addr = if st is DiscoverAssigned {
                    u.address
                } else {
                    Address::Temporary(fresh)
                };
                (
                    IndoorUnit { address: addr, ..u },
                    Some(
                        SpecReply {
                            delay_ms: (addr.spec_value() as u64 * 100) as u64,
                            frame: SpecTxFrame::Short(
                                SpecFrame {
                                    src: addr.spec_value(),
                                    dst: MAIN_WRC,
                                    cmd: TrackingHello::ID,
                                    data: seq![0u8],
                                },
                            ),
                        },
                    ),
                )
            }
        },
    }
}

/// What an assign-address command does to the unit: it becomes Assigned to
/// the carried value and acknowledges with that same value, from the
/// address the command was sent to.
pub open spec fn spec_assign(u: IndoorUnit, f: SpecFrame) -> (IndoorUnit, Option<SpecReply>) {
    (
        IndoorUnit { address: Address::Assigned(f.data[0]), ..u },
        Some(
            SpecReply {
                delay_ms: 0,
                frame: SpecTxFrame::Short(
                    SpecFrame {
                        src: f.dst,
                        dst: MAIN_WRC,
                        cmd: TrackingAddressAssigned::ID,
                        data: seq![f.data[0]],
                    },
                ),
            },
        ),
    )
}

/// A long reply from the unit back to the asking controller, sent at once.
pub open spec fn spec_unit_reply(f: SpecFrame, cmd: u8, data: Seq<u8>) -> SpecReply {
    SpecReply {
        delay_ms: 0,
        frame: SpecTxFrame::Long(SpecFrame { src: f.dst, dst: f.src, cmd, data }),
    }
}

/// What a change-settings command does to the unit: the matching local
/// fields are overwritten and the payload is echoed back on the
/// settings-changed command id, with unmapped bits cleared.
pub open spec fn spec_change_settings(u: IndoorUnit, f: SpecFrame) -> (
    IndoorUnit,
    Option<SpecReply>,
) {
    let d = f.data;
    match Mode::spec_from_value(d[3] & 0x07) {
        None => (u, None),
        Some(mode) => {
            if (d[4] & 0x20 != 0) != (d[4] & 0x10 != 0) {
                (u, None)
            } else {
                let cmd = CommandA0 {
                    unknown_byte0: d[0],
                    unknown_byte1: d[1],
                    fan_speed: d[2] >> 5,
                    setpoint_temp: d[2] & 0x1f,
                    s_plasma_ion: d[3] & 0x40 != 0,
                    reset_clean_filter: d[3] & 0x20 != 0,
                    humidifier: d[3] & 0x10 != 0,
                    mode,
                    unknown_bit32: d[4] & 0x80 != 0,
                    unknown_bit33: d[4] & 0x40 != 0,
                    power: d[4] & 0x20 != 0,
                    unknown_bit35: d[4] & 0x10 != 0,
                    unknown_byte5: d[5],
                    unknown_byte6: d[6],
                    unknown_byte7: d[7],
                };
                let st = u.state;
                (
                    IndoorUnit {
                        state: IndoorUnitState {
                            setpoint_temp: cmd.setpoint_temp,
                            s_plasma_ion: cmd.s_plasma_ion,
                            clean_filter: st.clean_filter != cmd.reset_clean_filter,
                            humidifier: cmd.humidifier,
                            mode: cmd.mode.spec_to_iu(),
                            power: cmd.power,
                            ..st
                        },
                        ..u
                    },
                    Some(spec_unit_reply(f, 0x50, cmd.spec_pack())),
                )
            }
        },
    }
}

/// The first status snapshot the unit reports: local state where the field
/// is understood, fixed constants where it is not.
pub open spec fn spec_status_52(s: IndoorUnitState) -> Seq<u8> {
    (Command52IndoorUnitResponse {
        setpoint_temp: Temperature {
            unit: TemperatureUnit::Celsius,
            raw_value: (s.setpoint_temp + 55) as u8,
        },
        iu_room_temp: Temperature { unit: TemperatureUnit::Celsius, raw_value: 75 },
        iu_eva_inlet_temp: Temperature { unit: TemperatureUnit::Celsius, raw_value: 95 },
        fan_speed: 0,
        power: s.power,
        unknown_bit33: true,
        unknown_bit34: true,
        defrost: s.defrost,
        mode: StatusMode::spec_from_iu(s.mode),
        clean_filter: s.clean_filter,
        iu_eva_outlet_temp: Temperature { unit: TemperatureUnit::Celsius, raw_value: 73 },
    }).spec_pack().update(5, 0xc1u8).update(6, 0xffu8)
}

/// The second status snapshot the unit reports.
pub open spec fn spec_status_53(s: IndoorUnitState) -> Seq<u8> {
    (Command53IndoorUnitResponse { humidifier: s.humidifier }).spec_pack()
}

/// The third status snapshot the unit reports; its first byte is a fixed
/// constant whose meaning is unknown.
pub open spec fn spec_status_54(s: IndoorUnitState) -> Seq<u8> {
    (Command54IndoorUnitResponse {
        oa_intake: s.oa_intake,
        away_mds: s.away_mds,
        unknown_bit58: false,
        s_plasma_ion: s.s_plasma_ion,
        unknown_bit60: false,
        range_hood: false,
        discharge_temp_control: false,
    }).spec_pack().update(0, 0xffu8)
}

/// The fourth status snapshot the unit reports: fixed constants throughout.
pub open spec fn spec_status_55(s: IndoorUnitState) -> Seq<u8> {
    (Command55IndoorUnitResponse {
        humidity: 1,
        co2: 1,
        unknown: [0u8, 0u8, 0u8, 0u8, 0u8, 0u8, 0u8],
    }).spec_pack()
}

/// What a command addressed to the unit does: settings are changed, status
/// snapshots are reported, anything unrecognized is ignored.
pub open spec fn spec_unit_command(u: IndoorUnit, f: SpecFrame) -> (IndoorUnit, Option<SpecReply>) {
    if f.cmd == CommandA0::ID {
        spec_change_settings(u, f)
    } else if f.cmd == Command52Request::ID {
        if all_zero(f.data) {
            (u, Some(spec_unit_reply(f, Command52Request::ID, spec_status_52(u.state))))
        } else {
            (u, None)
        }
    } else if f.cmd == Command53Request::ID {
        if all_zero(f.data) {
            (u, Some(spec_unit_reply(f, Command53Request::ID, spec_status_53(u.state))))
        } else {
            (u, None)
        }
    } else if f.cmd == Command54Request::ID {
        if all_zero(f.data) {
            (u, Some(spec_unit_reply(f, Command54Request::ID, spec_status_54(u.state))))
        } else {
            (u, None)
        }
    } else if f.cmd == Command55Request::ID {
        if all_zero(f.data) {
            (u, Some(spec_unit_reply(f, Command55Request::ID, spec_status_55(u.state))))
        } else {
            (u, None)
        }
    } else {
        (u, None)
    }
}

/// One reactive step of a peripheral: the next state and the reply owed,
/// given the received frame and a fresh random byte for re-randomizing.
///
/// A corrupted frame, a frame for someone else, an unrecognized command,
/// and a recognized command with a malformed payload are all ignored.
pub open spec fn spec_handle(u: IndoorUnit, f: SpecRxFrame, fresh: u8) -> (
    IndoorUnit,
    Option<SpecReply>,
) {
    match f {
        SpecRxFrame::Long(frame) => {
            if frame.src == MAIN_WRC && frame.dst == TRACKING_BROADCAST && frame.cmd
                == TrackingCommandFB::ID {
                spec_discover(u, frame.data, fresh)
            } else if (frame.src == MAIN_WRC || frame.src == SUB_WRC) && spec_unit_dst(
                u.address,
                frame.dst,
            ) {
                spec_unit_command(u, frame)
            } else {
                (u, None)
            }
        },
        SpecRxFrame::Short(frame) => {
            if frame.src == MAIN_WRC && frame.dst == u.address.spec_value() && frame.cmd
                == TrackingAssignAddress::ID {
                spec_assign(u, frame)
            } else {
                (u, None)
            }
        },
        SpecRxFrame::Corrupted(_) => (u, None),
    }
}

/// Discovery assignment: a unit holding only a temporary address that sees
/// a DiscoverUnassigned broadcast picks the fresh candidate and says hello
/// from it; a following assign-address command sent to that candidate
/// leaves the unit Assigned to exactly the granted value, and it
/// acknowledges with that same value.
pub proof fn lemma_discovery_assignment(
    u: IndoorUnit,
    bc: SpecFrame,
    assign: SpecFrame,
    fresh: u8,
    granted: u8,
)
    requires
        u.address is Temporary,
        bc.src == MAIN_WRC,
        bc.dst == TRACKING_BROADCAST,
        bc.cmd == TrackingCommandFB::ID,
        bc.data.len() == 8,
        TrackingDiscoverState::spec_from_value(TrackingCommandFB::spec_state_bits(bc.data))
            == Some(TrackingDiscoverState::DiscoverUnassigned),
        assign.src == MAIN_WRC,
        assign.dst == fresh,
        assign.cmd == TrackingAssignAddress::ID,
        assign.data.len() == 1,
        assign.data[0] == granted,
    ensures
        ({
            let (u1, r1) = spec_handle(u, SpecRxFrame::Long(bc), fresh);
            let (u2, r2) = spec_handle(u1, SpecRxFrame::Short(assign), fresh);
            u1.address == Address::Temporary(fresh) && r1 == Some(
                SpecReply {
                    delay_ms: (fresh as u64 * 100) as u64,
                    frame: SpecTxFrame::Short(
                        SpecFrame {
                            src: fresh,
                            dst: MAIN_WRC,
                            cmd: TrackingHello::ID,
                            data: seq![0u8],
                        },
                    ),
                },
            ) && u2.address == Address::Assigned(granted) && r2 == Some(
                SpecReply {
                    delay_ms: 0,
                    frame: SpecTxFrame::Short(
                        SpecFrame {
                            src: fresh,
                            dst: MAIN_WRC,
                            cmd: TrackingAddressAssigned::ID,
                            data: seq![granted],
                        },
                    ),
                },
            )
        }),
{
    let (u1, r1) = spec_handle(u, SpecRxFrame::Long(bc), fresh);
    assert(u1.address == Address::Temporary(fresh));
    let (u2, r2) = spec_handle(u1, SpecRxFrame::Short(assign), fresh);
    assert(seq![assign.data[0]] =~= seq![granted]);
}

impl IndoorUnit {
    /// The setpoint always fits the five bits the wire gives it, so status
    /// snapshots can always be packed.
    pub open spec fn wf(self) -> bool {
        self.state.setpoint_temp < 32
    }

    /// A fresh unit: powered on and heating, holding a random temporary
    /// address.
    pub fn new(unit_id: u8) -> (r: Self)
        ensures
            r.wf(),
            r.unit_id == unit_id,
            r.address is Temporary,
            r.state == (IndoorUnitState {
                power: true,
                mode: IndoorUnitMode::Heat,
                fan_speed: IndoorUnitFanSpeed::Auto,
                setpoint_temp: 23,
                defrost: true,
                s_plasma_ion: false,
                clean_filter: true,
                humidifier: false,
                oa_intake: false,
                away_mds: false,
            }),
    {
        IndoorUnit {
            unit_id,
            state: IndoorUnitState {
                power: true,
                mode: IndoorUnitMode::Heat,
                fan_speed: IndoorUnitFanSpeed::Auto,
                setpoint_temp: 23,
                defrost: true,
                s_plasma_ion: false,
                clean_filter: true,
                humidifier: false,
                oa_intake: false,
                away_mds: false,
            },
            address: Address::random_temporary(),
        }
    }

    /// React to one received frame: update the local state and hand back
    /// the reply owed, exactly as `spec_handle` says.
    pub fn handle_frame(&mut self, frame: &RxFrame, fresh: u8) -> (r: Option<Reply>)
        requires
            old(self).wf(),
        ensures
            final(self).wf(),
            ({
                let (nu, nr) = spec_handle(*old(self), frame@, fresh);
                *final(self) == nu && (match r {
                    Some(rep) => nr == Some(rep@),
                    None => nr is None,
                })
            }),
    {
        match frame {
            RxFrame::Long(f) => {
                if f.id.src == MAIN_WRC && f.id.dst == TRACKING_BROADCAST && f.id.cmd
                    == TrackingCommandFB::ID {
                    self.handle_discover(&f.data, fresh)
                } else if (f.id.src == MAIN_WRC || f.id.src == SUB_WRC) && self.is_unit_dst(
                    f.id.dst,
                ) {
                    self.handle_unit_command(f)
                } else {
                    None
                }
            },
            RxFrame::Short(f) => {
                if f.id.src == MAIN_WRC && f.id.dst == self.address.value() && f.id.cmd
                    == TrackingAssignAddress::ID {
                    let old_dst = f.id.dst;
                    let granted = f.data[0];
                    self.address = Address::Assigned(granted);
                    let ack = TrackingAddressAssigned { address: granted };
                    let reply = FrameInner::<1> {
                        id: FrameId { src: old_dst, dst: MAIN_WRC, cmd: TrackingAddressAssigned::ID },
                        data: ack.pack(),
                    };
                    proof {
                        assert(ack.spec_pack() =~= seq![f.data@[0]]);
                    }
                    Some(Reply { delay_ms: 0, frame: TxFrame::Short(reply) })
                } else {
                    None
                }
            },
            RxFrame::Corrupted(_) => None,
        }
    }

    fn is_unit_dst(&self, dst: u8) -> (r: bool)
        ensures
            r == spec_unit_dst(self.address, dst),
    {
        match self.address {
            Address::Temporary(_) => false,
            Address::Assigned(a) => (dst as u16) == (INDOOR_UNIT_FIRST as u16) + (a as u16) + 10,
        }
    }

    fn handle_discover(&mut self, data: &[u8; 8], fresh: u8) -> (r: Option<Reply>)
        requires
            old(self).wf(),
        ensures
            final(self).wf(),
            ({
                let (nu, nr) = spec_discover(*old(self), data@, fresh);
                *final(self) == nu && (match r {
                    Some(rep) => nr == Some(rep@),
                    None => nr is None,
                })
            }),
    {
        let cmd = match TrackingCommandFB::unpack(data) {
            Ok(cmd) => cmd,
            Err(_) => {
                return None;
            },
        };
        match cmd.state {
            TrackingDiscoverState::TrackingStart => {
                self.address = Address::Temporary(fresh);
            },
            TrackingDiscoverState::DiscoverUnassigned => {
                if let Address::Assigned(_) = self.address {
                    return None;
                }
                self.address = Address::Temporary(fresh);
            },
            TrackingDiscoverState::DiscoverAssigned => {
                if let Address::Temporary(_) = self.address {
                    return None;
                }
            },
        }
        let addr = self.address.value();
        let delay_ms: u64 = (addr as u64) * 100;
        let hello = TrackingHello { unknown: 0x00 };
        let reply = FrameInner::<1> {
            id: FrameId { src: addr, dst: MAIN_WRC, cmd: TrackingHello::ID },
            data: hello.pack(),
        };
        proof {
            assert(hello.spec_pack() =~= seq![0u8]);
        }
        Some(Reply { delay_ms, frame: TxFrame::Short(reply) })
    }

    fn handle_unit_command(&mut self, f: &FrameInner<8>) -> (r: Option<Reply>)
        requires
            old(self).wf(),
        ensures
            final(self).wf(),
            ({
                let (nu, nr) = spec_unit_command(*old(self), f@);
                *final(self) == nu && (match r {
                    Some(rep) => nr == Some(rep@),
                    None => nr is None,
                })
            }),
    {
        if f.id.cmd == CommandA0::ID {
            let cmd = match CommandA0::unpack(&f.data) {
                Ok(cmd) => cmd,
                Err(_) => {
                    return None;
                },
            };
            self.state.setpoint_temp = cmd.setpoint_temp;
            self.state.s_plasma_ion = cmd.s_plasma_ion;
            self.state.clean_filter = self.state.clean_filter != cmd.reset_clean_filter;
            self.state.humidifier = cmd.humidifier;
            self.state.mode = cmd.mode.to_iu();
            self.state.power = cmd.power;
            let reply = FrameInner::<8> {
                id: FrameId { src: f.id.dst, dst: f.id.src, cmd: 0x50 },
                data: cmd.pack(),
            };
            Some(Reply { delay_ms: 0, frame: TxFrame::Long(reply) })
        } else if f.id.cmd == Command52Request::ID {
            if Command52Request::unpack(&f.data).is_err() {
                return None;
            }
            let resp = Command52IndoorUnitResponse {
                setpoint_temp: Temperature::new(self.state.setpoint_temp, TemperatureUnit::Celsius),
                iu_room_temp: Temperature::new(20, TemperatureUnit::Celsius),
                iu_eva_inlet_temp: Temperature::new(40, TemperatureUnit::Celsius),
                fan_speed: 0,
                power: self.state.power,
                unknown_bit33: true,
                unknown_bit34: true,
                defrost: self.state.defrost,
                mode: StatusMode::from_iu(self.state.mode),
                clean_filter: self.state.clean_filter,
                iu_eva_outlet_temp: Temperature::new(18, TemperatureUnit::Celsius),
            };
            let packed = resp.pack();
            let data: [u8; 8] = [
                packed[0],
                packed[1],
                packed[2],
                packed[3],
                packed[4],
                0xc1,
                0xff,
                packed[7],
            ];
            proof {
                assert(data@ =~= spec_status_52(old(self).state));
            }
            let reply = FrameInner::<8> {
                id: FrameId { src: f.id.dst, dst: f.id.src, cmd: Command52Request::ID },
                data,
            };
            Some(Reply { delay_ms: 0, frame: TxFrame::Long(reply) })
        } else if f.id.cmd == Command53Request::ID {
            if Command53Request::unpack(&f.data).is_err() {
                return None;
            }
            let resp = Command53IndoorUnitResponse { humidifier: self.state.humidifier };
            let reply = FrameInner::<8> {
                id: FrameId { src: f.id.dst, dst: f.id.src, cmd: Command53Request::ID },
                data: resp.pack(),
            };
            Some(Reply { delay_ms: 0, frame: TxFrame::Long(reply) })
        } else if f.id.cmd == Command54Request::ID {
            if Command54Request::unpack(&f.data).is_err() {
                return None;
            }
            let resp = Command54IndoorUnitResponse {
                oa_intake: self.state.oa_intake,
                away_mds: self.state.away_mds,
                unknown_bit58: false,
                s_plasma_ion: self.state.s_plasma_ion,
                unknown_bit60: false,
                range_hood: false,
                discharge_temp_control: false,
            };
            let packed = resp.pack();
            let data: [u8; 8] = [
                0xff,
                packed[1],
                packed[2],
                packed[3],
                packed[4],
                packed[5],
                packed[6],
                packed[7],
            ];
            proof {
                assert(data@ =~= spec_status_54(old(self).state));
            }
            let reply = FrameInner::<8> {
                id: FrameId { src: f.id.dst, dst: f.id.src, cmd: Command54Request::ID },
                data,
            };
            Some(Reply { delay_ms: 0, frame: TxFrame::Long(reply) })
        } else if f.id.cmd == Command55Request::ID {
            if Command55Request::unpack(&f.data).is_err() {
                return None;
            }
            let resp = Command55IndoorUnitResponse {
                humidity: 1,
                co2: 1,
                unknown: [0, 0, 0, 0, 0, 0, 0],
            };
            let reply = FrameInner::<8> {
                id: FrameId { src: f.id.dst, dst: f.id.src, cmd: Command55Request::ID },
                data: resp.pack(),
            };
            Some(Reply { delay_ms: 0, frame: TxFrame::Long(reply) })
        } else {
            None
        }
    }
}

} // verus!
