use vstd::prelude::*;

use super::iu::IndoorUnitMode;

verus! {

/// Why a payload could not be read as a command.
#[derive(Clone, Copy, Debug, PartialEq, Eq, Structural)]
pub enum CommandError {
    /// A bit pattern that no variant of an enumerated field admits.
    InvalidValue,
    /// A payload that breaks the command's fixed invariants.
    InvariantViolation,
}

/// True of a payload whose every byte is zero.
pub open spec fn all_zero(s: Seq<u8>) -> bool {
    forall|i: int| 0 <= i < s.len() ==> s[i] == 0
}

/// The eight zero bytes that every empty long command carries.
pub open spec fn empty_payload() -> Seq<u8> {
    seq![0u8, 0u8, 0u8, 0u8, 0u8, 0u8, 0u8, 0u8]
}

fn pack_zero8() -> (r: [u8; 8])
    ensures
        r@ =~= empty_payload(),
{
    let r: [u8; 8] = [0, 0, 0, 0, 0, 0, 0, 0];
    proof {
        assert(r@ =~= empty_payload());
    }
    r
}

fn payload_is_zero(data: &[u8; 8]) -> (r: bool)
    ensures
        r == all_zero(data@),
{
    let mut i: usize = 0;
    while i < 8
        invariant
            i <= 8,
            data@.len() == 8,
            forall|j: int| 0 <= j < i ==> data@[j] == 0,
        decreases 8 - i,
    {
        if data[i] != 0 {
            return false;
        }
        i = i + 1;
    }
    true
}

#[derive(Clone, Copy, Debug, PartialEq, Eq, Structural)]
pub enum TemperatureUnit {
    Celsius,
    Fahrenheit,
}

/// A temperature byte: the unit in the top bit, the offset reading in the
/// remaining seven bits.
#[derive(Clone, Copy, Debug, PartialEq, Eq, Structural)]
pub struct Temperature {
    pub unit: TemperatureUnit,
    pub raw_value: u8,
}

impl Temperature {
    /// The reading fits the seven bits left beside the unit.
    pub open spec fn wf(self) -> bool {
        self.raw_value < 128
    }

    /// The byte that carries this temperature on the wire.
    pub open spec fn spec_to_byte(self) -> u8 {
        (if self.unit is Fahrenheit {
            0x80u8
        } else {
            0x00u8
        }) | self.raw_value
    }

    /// The temperature a wire byte carries.
    pub open spec fn spec_from_byte(b: u8) -> Temperature {
        Temperature {
            unit: if b & 0x80 != 0 {
                TemperatureUnit::Fahrenheit
            } else {
                TemperatureUnit::Celsius
            },
            raw_value: b & 0x7f,
        }
    }

    /// A Celsius reading is stored offset by 55.
    pub fn new(value: u8, unit: TemperatureUnit) -> (r: Self)
        requires
            value + 55 < 128,
        ensures
            r == (Temperature { unit, raw_value: (value + 55) as u8 }),
    {
        Self { unit, raw_value: value + 55 }
    }

    /// The reading in degrees Celsius; a Fahrenheit byte is handed back raw.
    pub fn celsius(&self) -> (r: u8)
        requires
            self.unit is Celsius ==> self.raw_value >= 55,
        ensures
            r == if self.unit is Celsius {
                (self.raw_value - 55) as u8
            } else {
                self.raw_value
            },
    {
        match self.unit {
            TemperatureUnit::Celsius => self.raw_value - 55,
            TemperatureUnit::Fahrenheit => self.raw_value,
        }
    }

    fn to_byte(&self) -> (r: u8)
        ensures
            r == self.spec_to_byte(),
    {
        (match self.unit {
            TemperatureUnit::Fahrenheit => 0x80u8,
            TemperatureUnit::Celsius => 0x00u8,
        }) | self.raw_value
    }

    fn from_byte(b: u8) -> (r: Temperature)
        ensures
            r == Self::spec_from_byte(b),
    {
        Temperature {
            unit: if b & 0x80 != 0 {
                TemperatureUnit::Fahrenheit
            } else {
                TemperatureUnit::Celsius
            },
            raw_value: b & 0x7f,
        }
    }
}

proof fn lemma_split_hi3_lo5(x: u8, y: u8)
    by (bit_vector)
    requires
        x < 8,
        y < 32,
    ensures
        ((x << 5) | y) >> 5 == x,
        ((x << 5) | y) & 0x1f == y,
{
}

proof fn lemma_split_hi4_lo4(x: u8, y: u8)
    by (bit_vector)
    requires
        x < 16,
        y < 16,
    ensures
        ((x << 4) | y) >> 4 == x,
        ((x << 4) | y) & 0x0f == y,
{
}

proof fn lemma_low_two_bits(v: u8)
    by (bit_vector)
    requires
        v < 4,
    ensures
        v & 0x03 == v,
{
}

proof fn lemma_bool_low7(u: bool, r: u8)
    by (bit_vector)
    requires
        r < 128,
    ensures
        ({
            let b = (if u {
                0x80u8
            } else {
                0x00u8
            }) | r;
            ((b & 0x80 != 0) == u) && (b & 0x7f == r)
        }),
{
}

proof fn lemma_bools3_low3(p: bool, q: bool, r: bool, m: u8)
    by (bit_vector)
    requires
        m < 8,
    ensures
        ({
            let b = (if p {
                0x40u8
            } else {
                0u8
            }) | (if q {
                0x20u8
            } else {
                0u8
            }) | (if r {
                0x10u8
            } else {
                0u8
            }) | m;
            ((b & 0x40 != 0) == p) && ((b & 0x20 != 0) == q) && ((b & 0x10 != 0) == r) && (b & 0x07
                == m)
        }),
{
}

proof fn lemma_bools4_low4(p0: bool, p1: bool, p2: bool, p3: bool, m: u8)
    by (bit_vector)
    requires
        m < 16,
    ensures
        ({
            let b = (if p0 {
                0x80u8
            } else {
                0u8
            }) | (if p1 {
                0x40u8
            } else {
                0u8
            }) | (if p2 {
                0x20u8
            } else {
                0u8
            }) | (if p3 {
                0x10u8
            } else {
                0u8
            }) | m;
            ((b & 0x80 != 0) == p0) && ((b & 0x40 != 0) == p1) && ((b & 0x20 != 0) == p2) && ((b
                & 0x10 != 0) == p3) && (b & 0x0f == m)
        }),
{
}

proof fn lemma_bools7(p0: bool, p1: bool, p2: bool, p3: bool, p4: bool, p5: bool, p6: bool)
    by (bit_vector)
    ensures
        ({
            let b = (if p0 {
                0x80u8
            } else {
                0u8
            }) | (if p1 {
                0x40u8
            } else {
                0u8
            }) | (if p2 {
                0x20u8
            } else {
                0u8
            }) | (if p3 {
                0x10u8
            } else {
                0u8
            }) | (if p4 {
                0x08u8
            } else {
                0u8
            }) | (if p5 {
                0x04u8
            } else {
                0u8
            }) | (if p6 {
                0x02u8
            } else {
                0u8
            });
            ((b & 0x80 != 0) == p0) && ((b & 0x40 != 0) == p1) && ((b & 0x20 != 0) == p2) && ((b
                & 0x10 != 0) == p3) && ((b & 0x08 != 0) == p4) && ((b & 0x04 != 0) == p5) && ((b
                & 0x02 != 0) == p6)
        }),
{
}

/// Tracking command `0xfa` -- polarity detect.
///
/// Sent in inverse by the main WRC so that other devices on the bus know to
/// invert their rx/tx pins.
#[derive(Clone, Copy, Debug, PartialEq, Eq)]
pub struct TrackingCommandFA {
    pub unknown_b0: u8,
    pub unknown: [u8; 7],
}

impl TrackingCommandFA {
    pub const ID: u8 = 0xfa;

    /// The first byte always reads `0xaa`; the rest stays zero.
    pub open spec fn wf(self) -> bool {
        self.unknown_b0 == 0xaa && all_zero(self.unknown@)
    }

    pub open spec fn spec_pack(self) -> Seq<u8> {
        seq![self.unknown_b0] + self.unknown@
    }

    pub fn pack(&self) -> (r: [u8; 8])
        requires
            self.wf(),
        ensures
            r@ == self.spec_pack(),
    {
        let r: [u8; 8] = [
            self.unknown_b0,
            self.unknown[0],
            self.unknown[1],
            self.unknown[2],
            self.unknown[3],
            self.unknown[4],
            self.unknown[5],
            self.unknown[6],
        ];
        proof {
            assert(r@ =~= self.spec_pack());
        }
        r
    }

    pub fn unpack(data: &[u8; 8]) -> (r: Result<Self, CommandError>)
        ensures
            r matches Ok(c) ==> c.unknown_b0 == data@[0] && c.unknown@ =~= data@.skip(1),
            r is Ok <==> data@[0] == 0xaa && all_zero(data@.skip(1)),
    {
        let rest: [u8; 7] = [data[1], data[2], data[3], data[4], data[5], data[6], data[7]];
        proof {
            assert(rest@ =~= data@.skip(1));
        }
        if data[0] != 0xaa {
            return Err(CommandError::InvariantViolation);
        }
        let mut i: usize = 1;
        while i < 8
            invariant
                1 <= i <= 8,
                data@.len() == 8,
                data@[0] == 0xaa,
                forall|j: int| 1 <= j < i ==> data@[j] == 0,
            decreases 8 - i,
        {
            if data[i] != 0 {
                proof {
                    assert(data@.skip(1)[i - 1] != 0);
                }
                return Err(CommandError::InvariantViolation);
            }
            i = i + 1;
        }
        proof {
            assert(forall|k: int| 0 <= k < 7 ==> data@.skip(1)[k] == data@[k + 1]);
        }
        Ok(Self { unknown_b0: data[0], unknown: rest })
    }
}

impl Default for TrackingCommandFA {
    fn default() -> (r: Self)
        ensures
            r.wf(),
            r.unknown_b0 == 0xaa,
    {
        Self { unknown_b0: 0xaa, unknown: [0, 0, 0, 0, 0, 0, 0] }
    }
}

/// The sub-state a discovery broadcast carries.
#[derive(Clone, Copy, Debug, PartialEq, Eq, Structural)]
pub enum TrackingDiscoverState {
    /// Start tracking: every unit drops its address and picks a fresh
    /// temporary candidate.
    TrackingStart,
    /// Units without an assigned address re-randomize and reply; assigned
    /// ones keep quiet.
    DiscoverUnassigned,
    /// Units with an assigned address reply; temporary ones keep quiet.
    DiscoverAssigned,
}

impl TrackingDiscoverState {
    /// The two-bit wire value of the sub-state.
    pub open spec fn spec_value(self) -> u8 {
        match self {
            TrackingDiscoverState::TrackingStart => 2,
            TrackingDiscoverState::DiscoverUnassigned => 1,
            TrackingDiscoverState::DiscoverAssigned => 0,
        }
    }

    /// The sub-state a two-bit wire value names, if any.
    pub open spec fn spec_from_value(v: u8) -> Option<TrackingDiscoverState> {
        if v == 2 {
            Some(TrackingDiscoverState::TrackingStart)
        } else if v == 1 {
            Some(TrackingDiscoverState::DiscoverUnassigned)
        } else if v == 0 {
            Some(TrackingDiscoverState::DiscoverAssigned)
        } else {
            None
        }
    }

    pub fn value(self) -> (r: u8)
        ensures
            r == self.spec_value(),
    {
        match self {
            TrackingDiscoverState::TrackingStart => 2,
            TrackingDiscoverState::DiscoverUnassigned => 1,
            TrackingDiscoverState::DiscoverAssigned => 0,
        }
    }

    pub fn from_value(v: u8) -> (r: Option<TrackingDiscoverState>)
        ensures
            r == Self::spec_from_value(v),
    {
        if v == 2 {
            Some(TrackingDiscoverState::TrackingStart)
        } else if v == 1 {
            Some(TrackingDiscoverState::DiscoverUnassigned)
        } else if v == 0 {
            Some(TrackingDiscoverState::DiscoverAssigned)
        } else {
            None
        }
    }
}

/// Tracking command `0xfb` -- discover.
///
/// Broadcast by the main WRC to discover units on the bus; units answer
/// with a `TrackingHello`.
#[derive(Clone, Copy, Debug, PartialEq, Eq)]
pub struct TrackingCommandFB {
    pub state: TrackingDiscoverState,
    pub unknown: [u8; 7],
}

impl TrackingCommandFB {
    pub const ID: u8 = 0xfb;

    pub open spec fn spec_pack(self) -> Seq<u8> {
        seq![self.state.spec_value()] + self.unknown@
    }

    /// The sub-state sits in the low two bits of the first byte.
    pub open spec fn spec_state_bits(s: Seq<u8>) -> u8 {
        s[0] & 0x03
    }

    pub fn pack(&self) -> (r: [u8; 8])
        ensures
            r@ == self.spec_pack(),
    {
        let r: [u8; 8] = [
            self.state.value(),
            self.unknown[0],
            self.unknown[1],
            self.unknown[2],
            self.unknown[3],
            self.unknown[4],
            self.unknown[5],
            self.unknown[6],
        ];
        proof {
            assert(r@ =~= self.spec_pack());
        }
        r
    }

    pub fn unpack(data: &[u8; 8]) -> (r: Result<Self, CommandError>)
        ensures
            r matches Ok(c) ==> Some(c.state) == TrackingDiscoverState::spec_from_value(
                Self::spec_state_bits(data@),
            ) && c.unknown@ =~= data@.skip(1),
            r is Ok <==> TrackingDiscoverState::spec_from_value(Self::spec_state_bits(data@))
                is Some,
            r matches Err(e) ==> e == CommandError::InvalidValue,
    {
        let rest: [u8; 7] = [data[1], data[2], data[3], data[4], data[5], data[6], data[7]];
        proof {
            assert(rest@ =~= data@.skip(1));
        }
        match TrackingDiscoverState::from_value(data[0] & 0x03) {
            Some(state) => Ok(Self { state, unknown: rest }),
            None => Err(CommandError::InvalidValue),
        }
    }
}

/// Tracking command `0xfc` -- hello.
///
/// Sent by a unit in answer to a discovery broadcast, from its candidate
/// address.
#[derive(Clone, Copy, Debug, PartialEq, Eq, Structural)]
pub struct TrackingHello {
    pub unknown: u8,
}

impl TrackingHello {
    pub const ID: u8 = 0xfc;

    pub open spec fn spec_pack(self) -> Seq<u8> {
        seq![self.unknown]
    }

    pub fn pack(&self) -> (r: [u8; 1])
        ensures
            r@ == self.spec_pack(),
    {
        let r: [u8; 1] = [self.unknown];
        proof {
            assert(r@ =~= self.spec_pack());
        }
        r
    }

    pub fn unpack(data: &[u8; 1]) -> (r: Result<Self, CommandError>)
        ensures
            r matches Ok(c) ==> c.unknown == data@[0],
            r is Ok,
    {
        Ok(Self { unknown: data[0] })
    }
}

/// Tracking command `0xfd` -- assign an address to the unit at a temporary
/// address.
#[derive(Clone, Copy, Debug, PartialEq, Eq, Structural)]
pub struct TrackingAssignAddress {
    pub address: u8,
}

impl TrackingAssignAddress {
    pub const ID: u8 = 0xfd;

    pub open spec fn spec_pack(self) -> Seq<u8> {
        seq![self.address]
    }

    pub fn pack(&self) -> (r: [u8; 1])
        ensures
            r@ == self.spec_pack(),
    {
        let r: [u8; 1] = [self.address];
        proof {
            assert(r@ =~= self.spec_pack());
        }
        r
    }

    pub fn unpack(data: &[u8; 1]) -> (r: Result<Self, CommandError>)
        ensures
            r matches Ok(c) ==> c.address == data@[0],
            r is Ok,
    {
        Ok(Self { address: data[0] })
    }
}

/// Tracking command `0xfe` -- a unit's acknowledgement of its new address.
#[derive(Clone, Copy, Debug, PartialEq, Eq, Structural)]
pub struct TrackingAddressAssigned {
    pub address: u8,
}

impl TrackingAddressAssigned {
    pub const ID: u8 = 0xfe;

    pub open spec fn spec_pack(self) -> Seq<u8> {
        seq![self.address]
    }

    pub fn pack(&self) -> (r: [u8; 1])
        ensures
            r@ == self.spec_pack(),
    {
        let r: [u8; 1] = [self.address];
        proof {
            assert(r@ =~= self.spec_pack());
        }
        r
    }

    pub fn unpack(data: &[u8; 1]) -> (r: Result<Self, CommandError>)
        ensures
            r matches Ok(c) ==> c.address == data@[0],
            r is Ok,
    {
        Ok(Self { address: data[0] })
    }
}

/// Command `0x52` (request): read the first settings snapshot of a unit.
/// The payload is always empty.
#[derive(Clone, Copy, Debug, PartialEq, Eq, Structural)]
pub struct Command52Request;

impl Command52Request {
    pub const ID: u8 = 0x52;

    pub fn new() -> Self {
        Self
    }

    pub fn pack(&self) -> (r: [u8; 8])
        ensures
            r@ == empty_payload(),
    {
        pack_zero8()
    }

    pub fn unpack(data: &[u8; 8]) -> (r: Result<Self, CommandError>)
        ensures
            r is Ok <==> all_zero(data@),
    {
        if payload_is_zero(data) {
            Ok(Self)
        } else {
            Err(CommandError::InvariantViolation)
        }
    }
}

/// Command `0x53` (request): read the second settings snapshot of a unit.
/// The payload is always empty.
#[derive(Clone, Copy, Debug, PartialEq, Eq, Structural)]
pub struct Command53Request;

impl Command53Request {
    pub const ID: u8 = 0x53;

    pub fn new() -> Self {
        Self
    }

    pub fn pack(&self) -> (r: [u8; 8])
        ensures
            r@ == empty_payload(),
    {
        pack_zero8()
    }

    pub fn unpack(data: &[u8; 8]) -> (r: Result<Self, CommandError>)
        ensures
            r is Ok <==> all_zero(data@),
    {
        if payload_is_zero(data) {
            Ok(Self)
        } else {
            Err(CommandError::InvariantViolation)
        }
    }
}

/// Command `0x54` (request): read the third settings snapshot of a unit.
/// The payload is always empty.
#[derive(Clone, Copy, Debug, PartialEq, Eq, Structural)]
pub struct Command54Request;

impl Command54Request {
    pub const ID: u8 = 0x54;

    pub fn new() -> Self {
        Self
    }

    pub fn pack(&self) -> (r: [u8; 8])
        ensures
            r@ == empty_payload(),
    {
        pack_zero8()
    }

    pub fn unpack(data: &[u8; 8]) -> (r: Result<Self, CommandError>)
        ensures
            r is Ok <==> all_zero(data@),
    {
        if payload_is_zero(data) {
            Ok(Self)
        } else {
            Err(CommandError::InvariantViolation)
        }
    }
}

/// Command `0x55` (request): read the fourth settings snapshot of a unit.
/// The payload is always empty.
#[derive(Clone, Copy, Debug, PartialEq, Eq, Structural)]
pub struct Command55Request;

impl Command55Request {
    pub const ID: u8 = 0x55;

    pub fn new() -> Self {
        Self
    }

    pub fn pack(&self) -> (r: [u8; 8])
        ensures
            r@ == empty_payload(),
    {
        pack_zero8()
    }

    pub fn unpack(data: &[u8; 8]) -> (r: Result<Self, CommandError>)
        ensures
            r is Ok <==> all_zero(data@),
    {
        if payload_is_zero(data) {
            Ok(Self)
        } else {
            Err(CommandError::InvariantViolation)
        }
    }
}

/// Command `0xc4` (reply): the sub WRC's empty acknowledgement of a
/// handover request.
#[derive(Clone, Copy, Debug, PartialEq, Eq, Structural)]
pub struct CommandC4Reply;

impl CommandC4Reply {
    pub const ID: u8 = 0xc4;

    pub fn new() -> Self {
        Self
    }

    pub fn pack(&self) -> (r: [u8; 8])
        ensures
            r@ == empty_payload(),
    {
        pack_zero8()
    }

    pub fn unpack(data: &[u8; 8]) -> (r: Result<Self, CommandError>)
        ensures
            r is Ok <==> all_zero(data@),
    {
        if payload_is_zero(data) {
            Ok(Self)
        } else {
            Err(CommandError::InvariantViolation)
        }
    }
}

impl Default for CommandC4Reply {
    fn default() -> (r: Self) {
        Self
    }
}

/// Command `0xd1` -- end of phase.
///
/// Broadcast by the main WRC at the end of every command round. A sub WRC
/// that answers it forces the main WRC to reset.
#[derive(Clone, Copy, Debug, PartialEq, Eq, Structural)]
pub struct CommandD1;

impl CommandD1 {
    pub const ID: u8 = 0xd1;

    pub fn new() -> Self {
        Self
    }

    pub fn pack(&self) -> (r: [u8; 8])
        ensures
            r@ == empty_payload(),
    {
        pack_zero8()
    }

    pub fn unpack(data: &[u8; 8]) -> (r: Result<Self, CommandError>)
        ensures
            r is Ok <==> all_zero(data@),
    {
        if payload_is_zero(data) {
            Ok(Self)
        } else {
            Err(CommandError::InvariantViolation)
        }
    }
}

/// The answer to an end-of-phase broadcast: the forced-reset signal.
#[derive(Clone, Copy, Debug, PartialEq, Eq, Structural)]
pub struct CommandD1Response;

impl CommandD1Response {
    pub const ID: u8 = 0xd1;

    pub fn new() -> Self {
        Self
    }

    pub fn pack(&self) -> (r: [u8; 8])
        ensures
            r@ == empty_payload(),
    {
        pack_zero8()
    }

    pub fn unpack(data: &[u8; 8]) -> (r: Result<Self, CommandError>)
        ensures
            r is Ok <==> all_zero(data@),
    {
        if payload_is_zero(data) {
            Ok(Self)
        } else {
            Err(CommandError::InvariantViolation)
        }
    }
}

impl Default for CommandD1Response {
    fn default() -> (r: Self) {
        Self
    }
}

/// The operating mode as the change-settings command carries it.
#[derive(Clone, Copy, Debug, PartialEq, Eq, Structural)]
pub enum Mode {
    Auto,
    Cool,
    Dry,
    Fan,
    Heat,
}

impl Mode {
    /// The three-bit wire value of the mode.
    pub open spec fn spec_value(self) -> u8 {
        match self {
            Mode::Auto => 0,
            Mode::Cool => 1,
            Mode::Dry => 2,
            Mode::Fan => 3,
            Mode::Heat => 4,
        }
    }

    /// The mode a three-bit wire value names, if any.
    pub open spec fn spec_from_value(v: u8) -> Option<Mode> {
        if v == 0 {
            Some(Mode::Auto)
        } else if v == 1 {
            Some(Mode::Cool)
        } else if v == 2 {
            Some(Mode::Dry)
        } else if v == 3 {
            Some(Mode::Fan)
        } else if v == 4 {
            Some(Mode::Heat)
        } else {
            None
        }
    }

    pub fn value(self) -> (r: u8)
        ensures
            r == self.spec_value(),
    {
        match self {
            Mode::Auto => 0,
            Mode::Cool => 1,
            Mode::Dry => 2,
            Mode::Fan => 3,
            Mode::Heat => 4,
        }
    }

    pub fn from_value(v: u8) -> (r: Option<Mode>)
        ensures
            r == Self::spec_from_value(v),
    {
        if v == 0 {
            Some(Mode::Auto)
        } else if v == 1 {
            Some(Mode::Cool)
        } else if v == 2 {
            Some(Mode::Dry)
        } else if v == 3 {
            Some(Mode::Fan)
        } else if v == 4 {
            Some(Mode::Heat)
        } else {
            None
        }
    }

    pub open spec fn spec_from_iu(m: IndoorUnitMode) -> Mode {
        match m {
            IndoorUnitMode::Auto => Mode::Auto,
            IndoorUnitMode::Heat => Mode::Heat,
            IndoorUnitMode::Cool => Mode::Cool,
            IndoorUnitMode::Dry => Mode::Dry,
            IndoorUnitMode::Fan => Mode::Fan,
        }
    }

    pub fn from_iu(m: IndoorUnitMode) -> (r: Mode)
        ensures
            r == Self::spec_from_iu(m),
    {
        match m {
            IndoorUnitMode::Auto => Mode::Auto,
            IndoorUnitMode::Heat => Mode::Heat,
            IndoorUnitMode::Cool => Mode::Cool,
            IndoorUnitMode::Dry => Mode::Dry,
            IndoorUnitMode::Fan => Mode::Fan,
        }
    }

    pub open spec fn spec_to_iu(self) -> IndoorUnitMode {
        match self {
            Mode::Auto => IndoorUnitMode::Auto,
            Mode::Cool => IndoorUnitMode::Cool,
            Mode::Dry => IndoorUnitMode::Dry,
            Mode::Fan => IndoorUnitMode::Fan,
            Mode::Heat => IndoorUnitMode::Heat,
        }
    }

    pub fn to_iu(self) -> (r: IndoorUnitMode)
        ensures
            r == self.spec_to_iu(),
    {
        match self {
            Mode::Auto => IndoorUnitMode::Auto,
            Mode::Cool => IndoorUnitMode::Cool,
            Mode::Dry => IndoorUnitMode::Dry,
            Mode::Fan => IndoorUnitMode::Fan,
            Mode::Heat => IndoorUnitMode::Heat,
        }
    }
}

/// Command `0xa0` -- change indoor unit settings (request).
///
/// Sent from a WRC to indoor units on the bus to change their settings.
/// Units reply on command `0x50` with the same payload.
#[derive(Clone, Copy, Debug, PartialEq, Eq, Structural)]
pub struct CommandA0 {
    pub unknown_byte0: u8,
    pub unknown_byte1: u8,
    pub fan_speed: u8,
    pub setpoint_temp: u8,
    pub s_plasma_ion: bool,
    pub reset_clean_filter: bool,
    pub humidifier: bool,
    pub mode: Mode,
    pub unknown_bit32: bool,
    pub unknown_bit33: bool,
    /// Power state.
    pub power: bool,
    /// Unknown; mirrors `power` on the wire.
    pub unknown_bit35: bool,
    pub unknown_byte5: u8,
    pub unknown_byte6: u8,
    pub unknown_byte7: u8,
}

impl CommandA0 {
    pub const ID: u8 = 0xa0;

    /// The packed fields fit their bit ranges and the power bit mirrors its
    /// shadow, as every observed frame has it.
    pub open spec fn wf(self) -> bool {
        self.fan_speed < 8 && self.setpoint_temp < 32 && self.power == self.unknown_bit35
    }

    pub open spec fn spec_pack(self) -> Seq<u8> {
        seq![
            self.unknown_byte0,
            self.unknown_byte1,
            (self.fan_speed << 5) | self.setpoint_temp,
            (if self.s_plasma_ion {
                0x40u8
            } else {
                0u8
            }) | (if self.reset_clean_filter {
                0x20u8
            } else {
                0u8
            }) | (if self.humidifier {
                0x10u8
            } else {
                0u8
            }) | self.mode.spec_value(),
            (if self.unknown_bit32 {
                0x80u8
            } else {
                0u8
            }) | (if self.unknown_bit33 {
                0x40u8
            } else {
                0u8
            }) | (if self.power {
                0x20u8
            } else {
                0u8
            }) | (if self.unknown_bit35 {
                0x10u8
            } else {
                0u8
            }),
            self.unknown_byte5,
            self.unknown_byte6,
            self.unknown_byte7,
        ]
    }

    pub fn pack(&self) -> (r: [u8; 8])
        requires
            self.wf(),
        ensures
            r@ == self.spec_pack(),
    {
        let b2: u8 = (self.fan_speed << 5u8) | self.setpoint_temp;
        let b3: u8 = (if self.s_plasma_ion {
            0x40u8
        } else {
            0u8
        }) | (if self.reset_clean_filter {
            0x20u8
        } else {
            0u8
        }) | (if self.humidifier {
            0x10u8
        } else {
            0u8
        }) | self.mode.value();
        let b4: u8 = (if self.unknown_bit32 {
            0x80u8
        } else {
            0u8
        }) | (if self.unknown_bit33 {
            0x40u8
        } else {
            0u8
        }) | (if self.power {
            0x20u8
        } else {
            0u8
        }) | (if self.unknown_bit35 {
            0x10u8
        } else {
            0u8
        });
        let r: [u8; 8] = [
            self.unknown_byte0,
            self.unknown_byte1,
            b2,
            b3,
            b4,
            self.unknown_byte5,
            self.unknown_byte6,
            self.unknown_byte7,
        ];
        proof {
            assert(r@ =~= self.spec_pack());
        }
        r
    }

    pub fn unpack(data: &[u8; 8]) -> (r: Result<Self, CommandError>)
        ensures
            r matches Ok(c) ==> c.unknown_byte0 == data@[0] && c.unknown_byte1 == data@[1]
                && c.fan_speed == data@[2] >> 5 && c.setpoint_temp == data@[2] & 0x1f
                && c.s_plasma_ion == (data@[3] & 0x40 != 0) && c.reset_clean_filter == (data@[3]
                & 0x20 != 0) && c.humidifier == (data@[3] & 0x10 != 0) && Some(c.mode)
                == Mode::spec_from_value(data@[3] & 0x07) && c.unknown_bit32 == (data@[4] & 0x80
                != 0) && c.unknown_bit33 == (data@[4] & 0x40 != 0) && c.power == (data@[4] & 0x20
                != 0) && c.unknown_bit35 == (data@[4] & 0x10 != 0) && c.unknown_byte5 == data@[5]
                && c.unknown_byte6 == data@[6] && c.unknown_byte7 == data@[7],
            r is Ok <==> Mode::spec_from_value(data@[3] & 0x07) is Some && (data@[4] & 0x20 != 0)
                == (data@[4] & 0x10 != 0),
            r matches Err(e) ==> (e == CommandError::InvalidValue <==> Mode::spec_from_value(
                data@[3] & 0x07,
            ) is None),
            r matches Ok(c) ==> c.wf(),
    {
        proof {
            let b2 = data@[2];
            assert(b2 >> 5 < 8 && b2 & 0x1f < 32) by (bit_vector);
        }
        let mode = match Mode::from_value(data[3] & 0x07) {
            Some(mode) => mode,
            None => {
                return Err(CommandError::InvalidValue);
            },
        };
        let power = data[4] & 0x20 != 0;
        let shadow = data[4] & 0x10 != 0;
        if power != shadow {
            return Err(CommandError::InvariantViolation);
        }
        Ok(
            Self {
                unknown_byte0: data[0],
                unknown_byte1: data[1],
                fan_speed: data[2] >> 5u8,
                setpoint_temp: data[2] & 0x1f,
                s_plasma_ion: data[3] & 0x40 != 0,
                reset_clean_filter: data[3] & 0x20 != 0,
                humidifier: data[3] & 0x10 != 0,
                mode,
                unknown_bit32: data[4] & 0x80 != 0,
                unknown_bit33: data[4] & 0x40 != 0,
                power,
                unknown_bit35: shadow,
                unknown_byte5: data[5],
                unknown_byte6: data[6],
                unknown_byte7: data[7],
            },
        )
    }
}

/// The power field of the change-ERV-settings command: two mirrored bits.
#[derive(Clone, Copy, Debug, PartialEq, Eq, Structural)]
pub enum PowerState {
    On,
    Off,
}

impl PowerState {
    /// The two-bit wire value: both bits set for on, both clear for off.
    pub open spec fn spec_value(self) -> u8 {
        match self {
            PowerState::On => 3,
            PowerState::Off => 0,
        }
    }

    pub open spec fn spec_from_value(v: u8) -> Option<PowerState> {
        if v == 3 {
            Some(PowerState::On)
        } else if v == 0 {
            Some(PowerState::Off)
        } else {
            None
        }
    }

    pub fn value(self) -> (r: u8)
        ensures
            r == self.spec_value(),
    {
        match self {
            PowerState::On => 3,
            PowerState::Off => 0,
        }
    }

    pub fn from_value(v: u8) -> (r: Option<PowerState>)
        ensures
            r == Self::spec_from_value(v),
    {
        if v == 3 {
            Some(PowerState::On)
        } else if v == 0 {
            Some(PowerState::Off)
        } else {
            None
        }
    }
}

/// Command `0xa2` -- change ERV settings (request).
#[derive(Clone, Copy, Debug, PartialEq, Eq, Structural)]
pub struct CommandA2 {
    pub fan_speed: u8,
    pub clean_up: bool,
    pub other_mode: u8,
    pub power: PowerState,
}

impl CommandA2 {
    pub const ID: u8 = 0xa2;

    pub open spec fn wf(self) -> bool {
        self.fan_speed < 8 && self.other_mode < 4
    }

    pub open spec fn spec_pack(self) -> Seq<u8> {
        seq![
            0u8,
            0u8,
            self.fan_speed << 5,
            (if self.clean_up {
                0x40u8
            } else {
                0u8
            }) | (self.other_mode << 3),
            self.power.spec_value() << 4,
            0u8,
            0u8,
            0u8,
        ]
    }

    pub fn pack(&self) -> (r: [u8; 8])
        requires
            self.wf(),
        ensures
            r@ == self.spec_pack(),
    {
        let b3: u8 = (if self.clean_up {
            0x40u8
        } else {
            0u8
        }) | (self.other_mode << 3u8);
        let r: [u8; 8] = [0, 0, self.fan_speed << 5u8, b3, self.power.value() << 4u8, 0, 0, 0];
        proof {
            assert(r@ =~= self.spec_pack());
        }
        r
    }

    pub fn unpack(data: &[u8; 8]) -> (r: Result<Self, CommandError>)
        ensures
            r matches Ok(c) ==> c.fan_speed == data@[2] >> 5 && c.clean_up == (data@[3] & 0x40 != 0)
                && c.other_mode == (data@[3] >> 3) & 0x03 && Some(c.power)
                == PowerState::spec_from_value((data@[4] >> 4) & 0x03),
            r is Ok <==> PowerState::spec_from_value((data@[4] >> 4) & 0x03) is Some,
            r matches Err(e) ==> e == CommandError::InvalidValue,
    {
        let power = match PowerState::from_value((data[4] >> 4u8) & 0x03) {
            Some(power) => power,
            None => {
                return Err(CommandError::InvalidValue);
            },
        };
        Ok(
            Self {
                fan_speed: data[2] >> 5u8,
                clean_up: data[3] & 0x40 != 0,
                other_mode: (data[3] >> 3u8) & 0x03,
                power,
            },
        )
    }
}

/// The operating mode as the first status response reports it: one bit for
/// each mode other than auto.
#[derive(Clone, Copy, Debug, PartialEq, Eq, Structural)]
pub enum StatusMode {
    Auto,
    Heat,
    Cool,
    Dry,
    Fan,
}

impl StatusMode {
    /// The four-bit wire value of the mode.
    pub open spec fn spec_value(self) -> u8 {
        match self {
            StatusMode::Auto => 0,
            StatusMode::Heat => 1,
            StatusMode::Cool => 2,
            StatusMode::Dry => 4,
            StatusMode::Fan => 8,
        }
    }

    /// The mode a four-bit wire value names, if any.
    pub open spec fn spec_from_value(v: u8) -> Option<StatusMode> {
        if v == 0 {
            Some(StatusMode::Auto)
        } else if v == 1 {
            Some(StatusMode::Heat)
        } else if v == 2 {
            Some(StatusMode::Cool)
        } else if v == 4 {
            Some(StatusMode::Dry)
        } else if v == 8 {
            Some(StatusMode::Fan)
        } else {
            None
        }
    }

    pub fn value(self) -> (r: u8)
        ensures
            r == self.spec_value(),
    {
        match self {
            StatusMode::Auto => 0,
            StatusMode::Heat => 1,
            StatusMode::Cool => 2,
            StatusMode::Dry => 4,
            StatusMode::Fan => 8,
        }
    }

    pub fn from_value(v: u8) -> (r: Option<StatusMode>)
        ensures
            r == Self::spec_from_value(v),
    {
        if v == 0 {
            Some(StatusMode::Auto)
        } else if v == 1 {
            Some(StatusMode::Heat)
        } else if v == 2 {
            Some(StatusMode::Cool)
        } else if v == 4 {
            Some(StatusMode::Dry)
        } else if v == 8 {
            Some(StatusMode::Fan)
        } else {
            None
        }
    }

    pub open spec fn spec_from_iu(m: IndoorUnitMode) -> StatusMode {
        match m {
            IndoorUnitMode::Auto => StatusMode::Auto,
            IndoorUnitMode::Heat => StatusMode::Heat,
            IndoorUnitMode::Cool => StatusMode::Cool,
            IndoorUnitMode::Dry => StatusMode::Dry,
            IndoorUnitMode::Fan => StatusMode::Fan,
        }
    }

    pub fn from_iu(m: IndoorUnitMode) -> (r: StatusMode)
        ensures
            r == Self::spec_from_iu(m),
    {
        match m {
            IndoorUnitMode::Auto => StatusMode::Auto,
            IndoorUnitMode::Heat => StatusMode::Heat,
            IndoorUnitMode::Cool => StatusMode::Cool,
            IndoorUnitMode::Dry => StatusMode::Dry,
            IndoorUnitMode::Fan => StatusMode::Fan,
        }
    }

    pub open spec fn spec_to_iu(self) -> IndoorUnitMode {
        match self {
            StatusMode::Auto => IndoorUnitMode::Auto,
            StatusMode::Heat => IndoorUnitMode::Heat,
            StatusMode::Cool => IndoorUnitMode::Cool,
            StatusMode::Dry => IndoorUnitMode::Dry,
            StatusMode::Fan => IndoorUnitMode::Fan,
        }
    }

    pub fn to_iu(self) -> (r: IndoorUnitMode)
        ensures
            r == self.spec_to_iu(),
    {
        match self {
            StatusMode::Auto => IndoorUnitMode::Auto,
            StatusMode::Heat => IndoorUnitMode::Heat,
            StatusMode::Cool => IndoorUnitMode::Cool,
            StatusMode::Dry => IndoorUnitMode::Dry,
            StatusMode::Fan => IndoorUnitMode::Fan,
        }
    }
}

/// Command `0x52` (indoor unit response): the first settings snapshot.
#[derive(Clone, Copy, Debug, PartialEq, Eq, Structural)]
pub struct Command52IndoorUnitResponse {
    /// Setpoint temperature.
    pub setpoint_temp: Temperature,
    /// Indoor unit room temperature.
    pub iu_room_temp: Temperature,
    /// Indoor unit evaporator inlet temperature.
    pub iu_eva_inlet_temp: Temperature,
    pub fan_speed: u8,
    pub power: bool,
    pub unknown_bit33: bool,
    pub unknown_bit34: bool,
    pub defrost: bool,
    pub mode: StatusMode,
    pub clean_filter: bool,
    /// Indoor unit evaporator outlet temperature.
    pub iu_eva_outlet_temp: Temperature,
}

impl Command52IndoorUnitResponse {
    pub const ID: u8 = 0x52;

    pub open spec fn wf(self) -> bool {
        self.setpoint_temp.wf() && self.iu_room_temp.wf() && self.iu_eva_inlet_temp.wf()
            && self.iu_eva_outlet_temp.wf() && self.fan_speed < 8
    }

    pub open spec fn spec_pack(self) -> Seq<u8> {
        seq![
            self.setpoint_temp.spec_to_byte(),
            self.iu_room_temp.spec_to_byte(),
            self.iu_eva_inlet_temp.spec_to_byte(),
            self.fan_speed,
            (if self.power {
                0x80u8
            } else {
                0u8
            }) | (if self.unknown_bit33 {
                0x40u8
            } else {
                0u8
            }) | (if self.unknown_bit34 {
                0x20u8
            } else {
                0u8
            }) | (if self.defrost {
                0x10u8
            } else {
                0u8
            }) | self.mode.spec_value(),
            if self.clean_filter {
                0x10u8
            } else {
                0u8
            },
            0u8,
            self.iu_eva_outlet_temp.spec_to_byte(),
        ]
    }

    pub fn pack(&self) -> (r: [u8; 8])
        requires
            self.wf(),
        ensures
            r@ == self.spec_pack(),
    {
        let b4: u8 = (if self.power {
            0x80u8
        } else {
            0u8
        }) | (if self.unknown_bit33 {
            0x40u8
        } else {
            0u8
        }) | (if self.unknown_bit34 {
            0x20u8
        } else {
            0u8
        }) | (if self.defrost {
            0x10u8
        } else {
            0u8
        }) | self.mode.value();
        let b5: u8 = if self.clean_filter {
            0x10u8
        } else {
            0u8
        };
        let r: [u8; 8] = [
            self.setpoint_temp.to_byte(),
            self.iu_room_temp.to_byte(),
            self.iu_eva_inlet_temp.to_byte(),
            self.fan_speed,
            b4,
            b5,
            0,
            self.iu_eva_outlet_temp.to_byte(),
        ];
        proof {
            assert(r@ =~= self.spec_pack());
        }
        r
    }

    pub fn unpack(data: &[u8; 8]) -> (r: Result<Self, CommandError>)
        ensures
            r matches Ok(c) ==> c.setpoint_temp == Temperature::spec_from_byte(data@[0])
                && c.iu_room_temp == Temperature::spec_from_byte(data@[1]) && c.iu_eva_inlet_temp
                == Temperature::spec_from_byte(data@[2]) && c.fan_speed == data@[3] & 0x07
                && c.power == (data@[4] & 0x80 != 0) && c.unknown_bit33 == (data@[4] & 0x40 != 0)
                && c.unknown_bit34 == (data@[4] & 0x20 != 0) && c.defrost == (data@[4] & 0x10 != 0)
                && Some(c.mode) == StatusMode::spec_from_value(data@[4] & 0x0f) && c.clean_filter
                == (data@[5] & 0x10 != 0) && c.iu_eva_outlet_temp == Temperature::spec_from_byte(
                data@[7],
            ),
            r is Ok <==> StatusMode::spec_from_value(data@[4] & 0x0f) is Some,
            r matches Err(e) ==> e == CommandError::InvalidValue,
    {
        let mode = match StatusMode::from_value(data[4] & 0x0f) {
            Some(mode) => mode,
            None => {
                return Err(CommandError::InvalidValue);
            },
        };
        Ok(
            Self {
                setpoint_temp: Temperature::from_byte(data[0]),
                iu_room_temp: Temperature::from_byte(data[1]),
                iu_eva_inlet_temp: Temperature::from_byte(data[2]),
                fan_speed: data[3] & 0x07,
                power: data[4] & 0x80 != 0,
                unknown_bit33: data[4] & 0x40 != 0,
                unknown_bit34: data[4] & 0x20 != 0,
                defrost: data[4] & 0x10 != 0,
                mode,
                clean_filter: data[5] & 0x10 != 0,
                iu_eva_outlet_temp: Temperature::from_byte(data[7]),
            },
        )
    }
}

/// Command `0x52` (ERV response): the first settings snapshot of an ERV.
#[derive(Clone, Copy, Debug, PartialEq, Eq, Structural)]
pub struct Command52ErvResponse {
    pub power: bool,
    pub clean_up: bool,
}

impl Command52ErvResponse {
    pub const ID: u8 = 0x52;

    pub open spec fn spec_pack(self) -> Seq<u8> {
        seq![
            0u8,
            0u8,
            0u8,
            0u8,
            (if self.power {
                0x80u8
            } else {
                0u8
            }) | (if self.clean_up {
                0x40u8
            } else {
                0u8
            }),
            0u8,
            0u8,
            0u8,
        ]
    }

    pub fn pack(&self) -> (r: [u8; 8])
        ensures
            r@ == self.spec_pack(),
    {
        let b4: u8 = (if self.power {
            0x80u8
        } else {
            0u8
        }) | (if self.clean_up {
            0x40u8
        } else {
            0u8
        });
        let r: [u8; 8] = [0, 0, 0, 0, b4, 0, 0, 0];
        proof {
            assert(r@ =~= self.spec_pack());
        }
        r
    }

    pub fn unpack(data: &[u8; 8]) -> (r: Result<Self, CommandError>)
        ensures
            r matches Ok(c) ==> c.power == (data@[4] & 0x80 != 0) && c.clean_up == (data@[4] & 0x40
                != 0),
            r is Ok,
    {
        Ok(Self { power: data[4] & 0x80 != 0, clean_up: data[4] & 0x40 != 0 })
    }
}

/// Command `0x53` (indoor unit response): the second settings snapshot.
#[derive(Clone, Copy, Debug, PartialEq, Eq, Structural)]
pub struct Command53IndoorUnitResponse {
    pub humidifier: bool,
}

impl Command53IndoorUnitResponse {
    pub const ID: u8 = 0x53;

    pub open spec fn spec_pack(self) -> Seq<u8> {
        seq![
            0u8,
            0u8,
            0u8,
            0u8,
            0u8,
            0u8,
            0u8,
            if self.humidifier {
                0x10u8
            } else {
                0u8
            },
        ]
    }

    pub fn pack(&self) -> (r: [u8; 8])
        ensures
            r@ == self.spec_pack(),
    {
        let b7: u8 = if self.humidifier {
            0x10u8
        } else {
            0u8
        };
        let r: [u8; 8] = [0, 0, 0, 0, 0, 0, 0, b7];
        proof {
            assert(r@ =~= self.spec_pack());
        }
        r
    }

    pub fn unpack(data: &[u8; 8]) -> (r: Result<Self, CommandError>)
        ensures
            r matches Ok(c) ==> c.humidifier == (data@[7] & 0x10 != 0),
            r is Ok,
    {
        Ok(Self { humidifier: data[7] & 0x10 != 0 })
    }
}

/// Command `0x54` (indoor unit response): the third settings snapshot.
#[derive(Clone, Copy, Debug, PartialEq, Eq, Structural)]
pub struct Command54IndoorUnitResponse {
    /// Outdoor air intake.
    pub oa_intake: bool,
    /// Away / motion detect sensor.
    pub away_mds: bool,
    pub unknown_bit58: bool,
    /// S-plasma ion.
    pub s_plasma_ion: bool,
    pub unknown_bit60: bool,
    /// Range hood (related to ERVs).
    pub range_hood: bool,
    /// Discharge temperature control.
    pub discharge_temp_control: bool,
}

impl Command54IndoorUnitResponse {
    pub const ID: u8 = 0x54;

    pub open spec fn spec_pack(self) -> Seq<u8> {
        seq![
            0u8,
            0u8,
            0u8,
            0u8,
            0u8,
            0u8,
            0u8,
            (if self.oa_intake {
                0x80u8
            } else {
                0u8
            }) | (if self.away_mds {
                0x40u8
            } else {
                0u8
            }) | (if self.unknown_bit58 {
                0x20u8
            } else {
                0u8
            }) | (if self.s_plasma_ion {
                0x10u8
            } else {
                0u8
            }) | (if self.unknown_bit60 {
                0x08u8
            } else {
                0u8
            }) | (if self.range_hood {
                0x04u8
            } else {
                0u8
            }) | (if self.discharge_temp_control {
                0x02u8
            } else {
                0u8
            }),
        ]
    }

    pub fn pack(&self) -> (r: [u8; 8])
        ensures
            r@ == self.spec_pack(),
    {
        let b7: u8 = (if self.oa_intake {
            0x80u8
        } else {
            0u8
        }) | (if self.away_mds {
            0x40u8
        } else {
            0u8
        }) | (if self.unknown_bit58 {
            0x20u8
        } else {
            0u8
        }) | (if self.s_plasma_ion {
            0x10u8
        } else {
            0u8
        }) | (if self.unknown_bit60 {
            0x08u8
        } else {
            0u8
        }) | (if self.range_hood {
            0x04u8
        } else {
            0u8
        }) | (if self.discharge_temp_control {
            0x02u8
        } else {
            0u8
        });
        let r: [u8; 8] = [0, 0, 0, 0, 0, 0, 0, b7];
        proof {
            assert(r@ =~= self.spec_pack());
        }
        r
    }

    pub fn unpack(data: &[u8; 8]) -> (r: Result<Self, CommandError>)
        ensures
            r matches Ok(c) ==> c.oa_intake == (data@[7] & 0x80 != 0) && c.away_mds == (data@[7]
                & 0x40 != 0) && c.unknown_bit58 == (data@[7] & 0x20 != 0) && c.s_plasma_ion == (
            data@[7] & 0x10 != 0) && c.unknown_bit60 == (data@[7] & 0x08 != 0) && c.range_hood == (
            data@[7] & 0x04 != 0) && c.discharge_temp_control == (data@[7] & 0x02 != 0),
            r is Ok,
    {
        Ok(
            Self {
                oa_intake: data[7] & 0x80 != 0,
                away_mds: data[7] & 0x40 != 0,
                unknown_bit58: data[7] & 0x20 != 0,
                s_plasma_ion: data[7] & 0x10 != 0,
                unknown_bit60: data[7] & 0x08 != 0,
                range_hood: data[7] & 0x04 != 0,
                discharge_temp_control: data[7] & 0x02 != 0,
            },
        )
    }
}

/// Command `0x55` (indoor unit response): the fourth settings snapshot.
#[derive(Clone, Copy, Debug, PartialEq, Eq)]
pub struct Command55IndoorUnitResponse {
    pub humidity: u8,
    pub co2: u8,
    pub unknown: [u8; 7],
}

impl Command55IndoorUnitResponse {
    pub const ID: u8 = 0x55;

    pub open spec fn wf(self) -> bool {
        self.humidity < 16 && self.co2 < 16
    }

    pub open spec fn spec_pack(self) -> Seq<u8> {
        seq![(self.humidity << 4) | self.co2] + self.unknown@
    }

    pub fn pack(&self) -> (r: [u8; 8])
        requires
            self.wf(),
        ensures
            r@ == self.spec_pack(),
    {
        let r: [u8; 8] = [
            (self.humidity << 4u8) | self.co2,
            self.unknown[0],
            self.unknown[1],
            self.unknown[2],
            self.unknown[3],
            self.unknown[4],
            self.unknown[5],
            self.unknown[6],
        ];
        proof {
            assert(r@ =~= self.spec_pack());
        }
        r
    }

    pub fn unpack(data: &[u8; 8]) -> (r: Result<Self, CommandError>)
        ensures
            r matches Ok(c) ==> c.humidity == data@[0] >> 4 && c.co2 == data@[0] & 0x0f
                && c.unknown@ =~= data@.skip(1),
            r is Ok,
    {
        let rest: [u8; 7] = [data[1], data[2], data[3], data[4], data[5], data[6], data[7]];
        proof {
            assert(rest@ =~= data@.skip(1));
        }
        Ok(Self { humidity: data[0] >> 4u8, co2: data[0] & 0x0f, unknown: rest })
    }
}

/// Which probe a WRC reports temperatures from.
#[derive(Clone, Copy, Debug, PartialEq, Eq, Structural)]
pub enum TemperatureProbeSource {
    IndoorUnitSensor,
    WiredRemoteSensor,
}

impl TemperatureProbeSource {
    /// The one-bit wire value of the probe source.
    pub open spec fn spec_value(self) -> u8 {
        match self {
            TemperatureProbeSource::IndoorUnitSensor => 0,
            TemperatureProbeSource::WiredRemoteSensor => 1,
        }
    }

    pub open spec fn spec_from_bit(v: u8) -> TemperatureProbeSource {
        if v & 0x01 != 0 {
            TemperatureProbeSource::WiredRemoteSensor
        } else {
            TemperatureProbeSource::IndoorUnitSensor
        }
    }

    pub fn value(self) -> (r: u8)
        ensures
            r == self.spec_value(),
    {
        match self {
            TemperatureProbeSource::IndoorUnitSensor => 0,
            TemperatureProbeSource::WiredRemoteSensor => 1,
        }
    }

    pub fn from_bit(v: u8) -> (r: TemperatureProbeSource)
        ensures
            r == Self::spec_from_bit(v),
    {
        if v & 0x01 != 0 {
            TemperatureProbeSource::WiredRemoteSensor
        } else {
            TemperatureProbeSource::IndoorUnitSensor
        }
    }
}

/// A two-byte temperature in tenths of a degree, offset by 55.3 degrees.
#[derive(Clone, Copy, Debug, PartialEq, Eq, Structural)]
pub struct PrecisionTemperature {
    pub high: u8,
    pub low: u8,
}

impl PrecisionTemperature {
    /// The signed sixteen-bit reading the two bytes carry.
    pub open spec fn spec_signed(self) -> int {
        let v = (self.high as int) * 256 + (self.low as int);
        if v >= 32768 {
            v - 65536
        } else {
            v
        }
    }

    /// The reading in tenths of a degree Celsius.
    pub fn celsius_tenths(&self) -> (r: i32)
        ensures
            r == self.spec_signed() - 553,
    {
        let v: i32 = (self.high as i32) * 256 + (self.low as i32);
        if v >= 32768 {
            v - 65536 - 553
        } else {
            v - 553
        }
    }
}

/// Command `0x64` -- a WRC's periodic temperature report.
#[derive(Clone, Copy, Debug, PartialEq, Eq, Structural)]
pub struct Command64Request {
    pub unknown_b0: u8,
    pub unknown_b1_8_14: u8,
    pub active_temp_sensor: TemperatureProbeSource,
    pub wrc_temperature: PrecisionTemperature,
    pub iu_temperature: PrecisionTemperature,
    pub unknown2: u8,
    pub unknown3: u8,
}

impl Command64Request {
    pub const ID: u8 = 0x64;

    pub open spec fn wf(self) -> bool {
        self.unknown_b1_8_14 < 128
    }

    pub open spec fn spec_pack(self) -> Seq<u8> {
        seq![
            self.unknown_b0,
            (self.unknown_b1_8_14 << 1) | self.active_temp_sensor.spec_value(),
            self.wrc_temperature.high,
            self.wrc_temperature.low,
            self.iu_temperature.high,
            self.iu_temperature.low,
            self.unknown2,
            self.unknown3,
        ]
    }

    pub fn pack(&self) -> (r: [u8; 8])
        requires
            self.wf(),
        ensures
            r@ == self.spec_pack(),
    {
        let r: [u8; 8] = [
            self.unknown_b0,
            (self.unknown_b1_8_14 << 1u8) | self.active_temp_sensor.value(),
            self.wrc_temperature.high,
            self.wrc_temperature.low,
            self.iu_temperature.high,
            self.iu_temperature.low,
            self.unknown2,
            self.unknown3,
        ];
        proof {
            assert(r@ =~= self.spec_pack());
        }
        r
    }

    pub fn unpack(data: &[u8; 8]) -> (r: Result<Self, CommandError>)
        ensures
            r matches Ok(c) ==> c.unknown_b0 == data@[0] && c.unknown_b1_8_14 == data@[1] >> 1
                && c.active_temp_sensor == TemperatureProbeSource::spec_from_bit(data@[1])
                && c.wrc_temperature == (PrecisionTemperature { high: data@[2], low: data@[3] })
                && c.iu_temperature == (PrecisionTemperature { high: data@[4], low: data@[5] })
                && c.unknown2 == data@[6] && c.unknown3 == data@[7],
            r is Ok,
    {
        Ok(
            Self {
                unknown_b0: data[0],
                unknown_b1_8_14: data[1] >> 1u8,
                active_temp_sensor: TemperatureProbeSource::from_bit(data[1]),
                wrc_temperature: PrecisionTemperature { high: data[2], low: data[3] },
                iu_temperature: PrecisionTemperature { high: data[4], low: data[5] },
                unknown2: data[6],
                unknown3: data[7],
            },
        )
    }
}

proof fn lemma_bools4(p0: bool, p1: bool, p2: bool, p3: bool)
    by (bit_vector)
    ensures
        ({
            let b = (if p0 {
                0x80u8
            } else {
                0u8
            }) | (if p1 {
                0x40u8
            } else {
                0u8
            }) | (if p2 {
                0x20u8
            } else {
                0u8
            }) | (if p3 {
                0x10u8
            } else {
                0u8
            });
            ((b & 0x80 != 0) == p0) && ((b & 0x40 != 0) == p1) && ((b & 0x20 != 0) == p2) && ((b
                & 0x10 != 0) == p3)
        }),
{
}

proof fn lemma_low_three_bits(v: u8)
    by (bit_vector)
    requires
        v < 8,
    ensures
        v & 0x07 == v,
{
}

proof fn lemma_flag_bit16(p: bool)
    by (bit_vector)
    ensures
        ((if p {
            0x10u8
        } else {
            0u8
        }) & 0x10 != 0) == p,
{
}

proof fn lemma_shift5(x: u8)
    by (bit_vector)
    requires
        x < 8,
    ensures
        (x << 5) >> 5 == x,
{
}

proof fn lemma_flag_and_mid2(p: bool, m: u8)
    by (bit_vector)
    requires
        m < 4,
    ensures
        ({
            let b = (if p {
                0x40u8
            } else {
                0u8
            }) | (m << 3);
            ((b & 0x40 != 0) == p) && ((b >> 3) & 0x03 == m)
        }),
{
}

proof fn lemma_shift4_low2(v: u8)
    by (bit_vector)
    requires
        v < 4,
    ensures
        ((v << 4) >> 4) & 0x03 == v,
{
}

proof fn lemma_hi7_lo1(x: u8, u: bool)
    by (bit_vector)
    requires
        x < 128,
    ensures
        ({
            let b = (x << 1) | (if u {
                1u8
            } else {
                0u8
            });
            (b >> 1 == x) && ((b & 0x01 != 0) == u)
        }),
{
}

/// The temperature byte reads back as exactly the temperature that was
/// packed.
pub proof fn lemma_temperature_round_trip(t: Temperature)
    requires
        t.wf(),
    ensures
        Temperature::spec_from_byte(t.spec_to_byte()) == t,
{
    lemma_bool_low7(t.unit is Fahrenheit, t.raw_value);
}

/// A packed discovery broadcast reads back as exactly the sub-state and
/// trailing bytes that were packed.
pub proof fn lemma_fb_round_trip(c: TrackingCommandFB)
    ensures
        TrackingDiscoverState::spec_from_value(TrackingCommandFB::spec_state_bits(c.spec_pack()))
            == Some(c.state),
        c.spec_pack().skip(1) =~= c.unknown@,
{
    lemma_low_two_bits(c.state.spec_value());
    assert(c.spec_pack()[0] == c.state.spec_value());
}

/// A packed change-settings command reads back, field by field, as exactly
/// the command that was packed: pack and unpack agree on every bit.
pub proof fn lemma_a0_round_trip(c: CommandA0)
    requires
        c.wf(),
    ensures
        ({
            let d = c.spec_pack();
            d.len() == 8 && d[0] == c.unknown_byte0 && d[1] == c.unknown_byte1 && d[2] >> 5
                == c.fan_speed && d[2] & 0x1f == c.setpoint_temp && (d[3] & 0x40 != 0)
                == c.s_plasma_ion && (d[3] & 0x20 != 0) == c.reset_clean_filter && (d[3] & 0x10
                != 0) == c.humidifier && Mode::spec_from_value(d[3] & 0x07) == Some(c.mode) && (d[4]
                & 0x80 != 0) == c.unknown_bit32 && (d[4] & 0x40 != 0) == c.unknown_bit33 && (d[4]
                & 0x20 != 0) == c.power && (d[4] & 0x10 != 0) == c.unknown_bit35 && d[5]
                == c.unknown_byte5 && d[6] == c.unknown_byte6 && d[7] == c.unknown_byte7
        }),
{
    lemma_split_hi3_lo5(c.fan_speed, c.setpoint_temp);
    lemma_bools3_low3(c.s_plasma_ion, c.reset_clean_filter, c.humidifier, c.mode.spec_value());
    lemma_bools4(c.unknown_bit32, c.unknown_bit33, c.power, c.unknown_bit35);
}

/// A packed first status snapshot reads back, field by field, as exactly
/// the response that was packed.
pub proof fn lemma_status52_round_trip(c: Command52IndoorUnitResponse)
    requires
        c.wf(),
    ensures
        ({
            let d = c.spec_pack();
            d.len() == 8 && Temperature::spec_from_byte(d[0]) == c.setpoint_temp
                && Temperature::spec_from_byte(d[1]) == c.iu_room_temp
                && Temperature::spec_from_byte(d[2]) == c.iu_eva_inlet_temp && d[3] & 0x07
                == c.fan_speed && (d[4] & 0x80 != 0) == c.power && (d[4] & 0x40 != 0)
                == c.unknown_bit33 && (d[4] & 0x20 != 0) == c.unknown_bit34 && (d[4] & 0x10 != 0)
                == c.defrost && StatusMode::spec_from_value(d[4] & 0x0f) == Some(c.mode) && (d[5]
                & 0x10 != 0) == c.clean_filter && Temperature::spec_from_byte(d[7])
                == c.iu_eva_outlet_temp
        }),
{
    lemma_temperature_round_trip(c.setpoint_temp);
    lemma_temperature_round_trip(c.iu_room_temp);
    lemma_temperature_round_trip(c.iu_eva_inlet_temp);
    lemma_temperature_round_trip(c.iu_eva_outlet_temp);
    lemma_low_three_bits(c.fan_speed);
    lemma_bools4_low4(c.power, c.unknown_bit33, c.unknown_bit34, c.defrost, c.mode.spec_value());
    lemma_flag_bit16(c.clean_filter);
}

/// A packed third status snapshot reads back, flag by flag, as exactly the
/// response that was packed.
pub proof fn lemma_status54_round_trip(c: Command54IndoorUnitResponse)
    ensures
        ({
            let d = c.spec_pack();
            d.len() == 8 && (d[7] & 0x80 != 0) == c.oa_intake && (d[7] & 0x40 != 0) == c.away_mds
                && (d[7] & 0x20 != 0) == c.unknown_bit58 && (d[7] & 0x10 != 0) == c.s_plasma_ion
                && (d[7] & 0x08 != 0) == c.unknown_bit60 && (d[7] & 0x04 != 0) == c.range_hood && (
            d[7] & 0x02 != 0) == c.discharge_temp_control
        }),
{
    lemma_bools7(
        c.oa_intake,
        c.away_mds,
        c.unknown_bit58,
        c.s_plasma_ion,
        c.unknown_bit60,
        c.range_hood,
        c.discharge_temp_control,
    );
}

/// A packed fourth status snapshot reads back as exactly the readings and
/// trailing bytes that were packed.
pub proof fn lemma_status55_round_trip(c: Command55IndoorUnitResponse)
    requires
        c.wf(),
    ensures
        ({
            let d = c.spec_pack();
            d.len() == 8 && d[0] >> 4 == c.humidity && d[0] & 0x0f == c.co2 && d.skip(1)
                =~= c.unknown@
        }),
{
    lemma_split_hi4_lo4(c.humidity, c.co2);
}

/// A packed change-ERV-settings command reads back, field by field, as
/// exactly the command that was packed.
pub proof fn lemma_a2_round_trip(c: CommandA2)
    requires
        c.wf(),
    ensures
        ({
            let d = c.spec_pack();
            d.len() == 8 && d[2] >> 5 == c.fan_speed && (d[3] & 0x40 != 0) == c.clean_up && (d[3]
                >> 3) & 0x03 == c.other_mode && PowerState::spec_from_value((d[4] >> 4) & 0x03)
                == Some(c.power)
        }),
{
    lemma_shift5(c.fan_speed);
    lemma_flag_and_mid2(c.clean_up, c.other_mode);
    lemma_shift4_low2(c.power.spec_value());
}

/// A packed temperature report reads back, field by field, as exactly the
/// command that was packed.
pub proof fn lemma_c64_round_trip(c: Command64Request)
    requires
        c.wf(),
    ensures
        ({
            let d = c.spec_pack();
            d.len() == 8 && d[0] == c.unknown_b0 && d[1] >> 1 == c.unknown_b1_8_14
                && TemperatureProbeSource::spec_from_bit(d[1]) == c.active_temp_sensor
                && d[2] == c.wrc_temperature.high && d[3] == c.wrc_temperature.low
                && d[4] == c.iu_temperature.high && d[5] == c.iu_temperature.low
                && d[6] == c.unknown2 && d[7] == c.unknown3
        }),
{
    lemma_hi7_lo1(c.unknown_b1_8_14, c.active_temp_sensor is WiredRemoteSensor);
}

/// Command `0xc4` -- main to sub WRC handover (request).
///
/// Sent from the main WRC to detect the sub WRC and to hand it a turn
/// communicating with the units; also broadcast during enumeration.
#[derive(Clone, Copy, Debug, PartialEq, Eq, Structural)]
pub struct CommandC4Request {
    /// Zero during enumeration, one during normal operation.
    pub unknown_byte0: u8,
    /// Number of indoor units found during bus enumeration.
    pub number_of_indoor_units: u8,
    /// Seems to be the highest indoor unit address detected.
    pub unknown_iu_address: u8,
    /// Seems to be always `0x44` when sent from the main WRC.
    pub unknown_byte7: u8,
}

impl CommandC4Request {
    pub const ID: u8 = 0xc4;

    pub open spec fn spec_pack(self) -> Seq<u8> {
        seq![
            self.unknown_byte0,
            self.number_of_indoor_units,
            0u8,
            0u8,
            self.unknown_iu_address,
            0u8,
            0u8,
            self.unknown_byte7,
        ]
    }

    pub fn pack(&self) -> (r: [u8; 8])
        ensures
            r@ == self.spec_pack(),
    {
        let r: [u8; 8] = [
            self.unknown_byte0,
            self.number_of_indoor_units,
            0,
            0,
            self.unknown_iu_address,
            0,
            0,
            self.unknown_byte7,
        ];
        proof {
            assert(r@ =~= self.spec_pack());
        }
        r
    }

    pub fn unpack(data: &[u8; 8]) -> (r: Result<Self, CommandError>)
        ensures
            r matches Ok(c) ==> c.unknown_byte0 == data@[0] && c.number_of_indoor_units == data@[1]
                && c.unknown_iu_address == data@[4] && c.unknown_byte7 == data@[7],
            r is Ok,
    {
        Ok(
            Self {
                unknown_byte0: data[0],
                number_of_indoor_units: data[1],
                unknown_iu_address: data[4],
                unknown_byte7: data[7],
            },
        )
    }
}

/// Command `0xc5` -- main to sub WRC handover (request).
#[derive(Clone, Copy, Debug, PartialEq, Eq)]
pub struct CommandC5Request {
    /// Seems to be always `0x22`.
    pub unknown_byte0: u8,
    /// Switches from `0x00` to `0x80` once enumeration is completed.
    pub unknown_byte1: u8,
    pub unknown: [u8; 6],
}

impl CommandC5Request {
    pub const ID: u8 = 0xc5;

    /// Every observed frame opens with `0x22`.
    pub open spec fn wf(self) -> bool {
        self.unknown_byte0 == 0x22
    }

    pub open spec fn spec_pack(self) -> Seq<u8> {
        seq![self.unknown_byte0, self.unknown_byte1] + self.unknown@
    }

    pub fn pack(&self) -> (r: [u8; 8])
        requires
            self.wf(),
        ensures
            r@ == self.spec_pack(),
    {
        let r: [u8; 8] = [
            self.unknown_byte0,
            self.unknown_byte1,
            self.unknown[0],
            self.unknown[1],
            self.unknown[2],
            self.unknown[3],
            self.unknown[4],
            self.unknown[5],
        ];
        proof {
            assert(r@ =~= self.spec_pack());
        }
        r
    }

    pub fn unpack(data: &[u8; 8]) -> (r: Result<Self, CommandError>)
        ensures
            r matches Ok(c) ==> c.unknown_byte0 == data@[0] && c.unknown_byte1 == data@[1]
                && c.unknown@ =~= data@.skip(2),
            r is Ok <==> data@[0] == 0x22,
            r matches Err(e) ==> e == CommandError::InvariantViolation,
    {
        if data[0] != 0x22 {
            return Err(CommandError::InvariantViolation);
        }
        let rest: [u8; 6] = [data[2], data[3], data[4], data[5], data[6], data[7]];
        proof {
            assert(rest@ =~= data@.skip(2));
        }
        Ok(Self { unknown_byte0: data[0], unknown_byte1: data[1], unknown: rest })
    }
}

/// Command `0xc5` -- sub to main WRC handover (acknowledgement).
#[derive(Clone, Copy, Debug, PartialEq, Eq)]
pub struct CommandC5Response {
    /// Seems to be always `0x22`.
    pub unknown_byte0: u8,
    pub unknown: [u8; 7],
}

impl CommandC5Response {
    pub const ID: u8 = 0xc5;

    pub open spec fn spec_pack(self) -> Seq<u8> {
        seq![self.unknown_byte0] + self.unknown@
    }

    pub fn pack(&self) -> (r: [u8; 8])
        ensures
            r@ == self.spec_pack(),
    {
        let r: [u8; 8] = [
            self.unknown_byte0,
            self.unknown[0],
            self.unknown[1],
            self.unknown[2],
            self.unknown[3],
            self.unknown[4],
            self.unknown[5],
            self.unknown[6],
        ];
        proof {
            assert(r@ =~= self.spec_pack());
        }
        r
    }

    pub fn unpack(data: &[u8; 8]) -> (r: Result<Self, CommandError>)
        ensures
            r matches Ok(c) ==> c.unknown_byte0 == data@[0] && c.unknown@ =~= data@.skip(1),
            r is Ok,
    {
        let rest: [u8; 7] = [data[1], data[2], data[3], data[4], data[5], data[6], data[7]];
        proof {
            assert(rest@ =~= data@.skip(1));
        }
        Ok(Self { unknown_byte0: data[0], unknown: rest })
    }
}

impl Default for CommandC5Response {
    fn default() -> (r: Self)
        ensures
            r.unknown_byte0 == 0x22,
            all_zero(r.unknown@),
    {
        CommandC5Response { unknown_byte0: 0x22, unknown: [0, 0, 0, 0, 0, 0, 0] }
    }
}

/// Command `0xc6` -- bus status broadcast.
///
/// Seems similar if not identical to `0xc4`, except broadcast only.
#[derive(Clone, Copy, Debug, PartialEq, Eq)]
pub struct CommandC6 {
    /// Seems to be always `0x22`.
    pub unknown_byte0: u8,
    pub number_of_indoor_units: u8,
    pub unknown: [u8; 6],
}

impl CommandC6 {
    pub const ID: u8 = 0xc6;

    /// Every observed frame opens with `0x22`.
    pub open spec fn wf(self) -> bool {
        self.unknown_byte0 == 0x22
    }

    pub open spec fn spec_pack(self) -> Seq<u8> {
        seq![self.unknown_byte0, self.number_of_indoor_units] + self.unknown@
    }

    pub fn pack(&self) -> (r: [u8; 8])
        requires
            self.wf(),
        ensures
            r@ == self.spec_pack(),
    {
        let r: [u8; 8] = [
            self.unknown_byte0,
            self.number_of_indoor_units,
            self.unknown[0],
            self.unknown[1],
            self.unknown[2],
            self.unknown[3],
            self.unknown[4],
            self.unknown[5],
        ];
        proof {
            assert(r@ =~= self.spec_pack());
        }
        r
    }

    pub fn unpack(data: &[u8; 8]) -> (r: Result<Self, CommandError>)
        ensures
            r matches Ok(c) ==> c.unknown_byte0 == data@[0] && c.number_of_indoor_units == data@[1]
                && c.unknown@ =~= data@.skip(2),
            r is Ok <==> data@[0] == 0x22,
            r matches Err(e) ==> e == CommandError::InvariantViolation,
    {
        if data[0] != 0x22 {
            return Err(CommandError::InvariantViolation);
        }
        let rest: [u8; 6] = [data[2], data[3], data[4], data[5], data[6], data[7]];
        proof {
            assert(rest@ =~= data@.skip(2));
        }
        Ok(Self { unknown_byte0: data[0], number_of_indoor_units: data[1], unknown: rest })
    }
}

} // verus!
