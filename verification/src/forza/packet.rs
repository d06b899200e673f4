//! Parser for the Forza "Data Out" UDP telemetry packet.
//!
//! Forza Horizon 5/6 and Forza Motorsport expose telemetry through the same
//! in-game "Data Out" feature. Three packet formats exist: Sled (232
//! bytes), Dash / Car Dash (Sled + more, 311 bytes), and Race. This parser
//! reads the Sled block unconditionally and additionally reads the Dash
//! block when the packet is long enough to contain it. All fields are
//! little-endian.
//!
//! Titles occasionally append fields to the end of the Dash block; the
//! trailing [`TireWearExt`] read here is a best-effort placeholder for the
//! tire-wear fields Forza Horizon 5 is reported to add, and its offsets are
//! not verified against a live capture.
//!
//! Single-precision float fields are kept as their IEEE-754 bit patterns
//! (`u32`), exactly as they arrive on the wire; `f32::from_bits` turns one
//! into its value.
use vstd::prelude::*;

verus! {

/// Length of the Sled format, the minimum Data Out packet.
pub const SLED_LEN: usize = 232;

/// Length of the Dash / Car Dash format (Sled plus Dash-specific fields).
pub const DASH_LEN: usize = 311;

/// Length of a Dash packet carrying the four speculative trailing tire-wear
/// fields.
pub const DASH_TIRE_WEAR_LEN: usize = 327;

/// The little-endian 16-bit value at `offset`.
pub open spec fn le_u16(buf: Seq<u8>, offset: int) -> u16 {
    (buf[offset] as int + 256 * buf[offset + 1] as int) as u16
}

/// The little-endian 32-bit value at `offset`.
pub open spec fn le_u32(buf: Seq<u8>, offset: int) -> u32 {
    (buf[offset] as int + 256 * buf[offset + 1] as int + 65536 * buf[offset + 2] as int
        + 16777216 * buf[offset + 3] as int) as u32
}

/// The little-endian two's-complement 32-bit value at `offset`.
pub open spec fn le_i32(buf: Seq<u8>, offset: int) -> i32 {
    le_u32(buf, offset) as i32
}

/// Reads the little-endian `u32` at `offset`.
pub fn u32_at(buf: &[u8], offset: usize) -> (value: u32)
    requires
        offset + 4 <= buf.len(),
    ensures
        value == le_u32(buf@, offset as int),
{
    buf[offset] as u32 + 256 * (buf[offset + 1] as u32) + 65536 * (buf[offset + 2] as u32)
        + 16777216 * (buf[offset + 3] as u32)
}

/// Reads the little-endian `i32` at `offset`.
pub fn i32_at(buf: &[u8], offset: usize) -> (value: i32)
    requires
        offset + 4 <= buf.len(),
    ensures
        value == le_i32(buf@, offset as int),
{
    u32_at(buf, offset) as i32
}

/// Reads the little-endian `u16` at `offset`.
pub fn u16_at(buf: &[u8], offset: usize) -> (value: u16)
    requires
        offset + 2 <= buf.len(),
    ensures
        value == le_u16(buf@, offset as int),
{
    buf[offset] as u16 + 256 * (buf[offset + 1] as u16)
}

/// Fields present in every Data Out packet regardless of format.
#[derive(Debug, Clone, Copy)]
pub struct SledData {
    pub is_race_on: bool,
    pub timestamp_ms: u32,
    /// `f32` bit pattern.
    pub engine_max_rpm: u32,
    /// `f32` bit pattern.
    pub engine_idle_rpm: u32,
    /// `f32` bit pattern.
    pub current_engine_rpm: u32,
    /// `f32` bit patterns of velocity X, Y, Z.
    pub velocity: [u32; 3],
    pub car_ordinal: i32,
    pub car_class: i32,
    pub car_performance_index: i32,
    pub drivetrain_type: i32,
    pub num_cylinders: i32,
}

/// Present only when the game is configured to send the Dash (or Car Dash)
/// format, i.e. the packet is at least [`DASH_LEN`] bytes.
#[derive(Debug, Clone, Copy)]
pub struct DashData {
    /// `f32` bit pattern, metres per second.
    pub speed_mps: u32,
    /// `f32` bit pattern.
    pub power_watts: u32,
    /// `f32` bit pattern.
    pub torque_nm: u32,
    /// `f32` bit patterns, front-left, front-right, rear-left, rear-right.
    pub tire_temp: [u32; 4],
    /// `f32` bit pattern.
    pub boost: u32,
    /// `f32` bit pattern, 0.0 - 1.0.
    pub fuel: u32,
    /// `f32` bit pattern.
    pub distance_traveled_m: u32,
    /// `f32` bit pattern.
    pub best_lap_s: u32,
    /// `f32` bit pattern.
    pub last_lap_s: u32,
    /// `f32` bit pattern.
    pub current_lap_s: u32,
    /// `f32` bit pattern.
    pub current_race_time_s: u32,
    pub lap_number: u16,
    pub race_position: u8,
    pub accel: u8,
    pub brake: u8,
    pub clutch: u8,
    pub hand_brake: u8,
    pub gear: u8,
    pub steer: i8,
    pub normalized_driving_line: i8,
    pub normalized_ai_brake_difference: i8,
}

/// Speculative trailing extension -- see the module docs. All four fields
/// are `f32` bit patterns.
#[derive(Debug, Clone, Copy)]
pub struct TireWearExt {
    pub front_left: u32,
    pub front_right: u32,
    pub rear_left: u32,
    pub rear_right: u32,
}

#[derive(Debug, Clone, Copy)]
pub struct ForzaPacket {
    pub sled: SledData,
    pub dash: Option<DashData>,
    pub tire_wear: Option<TireWearExt>,
}

/// The Sled block of `buf`, by the documented byte layout.
pub open spec fn sled_layout(sled: SledData, buf: Seq<u8>) -> bool {
    &&& sled.is_race_on == (le_i32(buf, 0) != 0)
    &&& sled.timestamp_ms == le_u32(buf, 4)
    &&& sled.engine_max_rpm == le_u32(buf, 8)
    &&& sled.engine_idle_rpm == le_u32(buf, 12)
    &&& sled.current_engine_rpm == le_u32(buf, 16)
    &&& sled.velocity@ == seq![le_u32(buf, 32), le_u32(buf, 36), le_u32(buf, 40)]
    &&& sled.car_ordinal == le_i32(buf, 212)
    &&& sled.car_class == le_i32(buf, 216)
    &&& sled.car_performance_index == le_i32(buf, 220)
    &&& sled.drivetrain_type == le_i32(buf, 224)
    &&& sled.num_cylinders == le_i32(buf, 228)
}

/// The Dash block of `buf`, by the documented byte layout.
pub open spec fn dash_layout(dash: DashData, buf: Seq<u8>) -> bool {
    &&& dash.speed_mps == le_u32(buf, 244)
    &&& dash.power_watts == le_u32(buf, 248)
    &&& dash.torque_nm == le_u32(buf, 252)
    &&& dash.tire_temp@ == seq![
        le_u32(buf, 256),
        le_u32(buf, 260),
        le_u32(buf, 264),
        le_u32(buf, 268),
    ]
    &&& dash.boost == le_u32(buf, 272)
    &&& dash.fuel == le_u32(buf, 276)
    &&& dash.distance_traveled_m == le_u32(buf, 280)
    &&& dash.best_lap_s == le_u32(buf, 284)
    &&& dash.last_lap_s == le_u32(buf, 288)
    &&& dash.current_lap_s == le_u32(buf, 292)
    &&& dash.current_race_time_s == le_u32(buf, 296)
    &&& dash.lap_number == le_u16(buf, 300)
    &&& dash.race_position == buf[302]
    &&& dash.accel == buf[303]
    &&& dash.brake == buf[304]
    &&& dash.clutch == buf[305]
    &&& dash.hand_brake == buf[306]
    &&& dash.gear == buf[307]
    &&& dash.steer == buf[308] as i8
    &&& dash.normalized_driving_line == buf[309] as i8
    &&& dash.normalized_ai_brake_difference == buf[310] as i8
}

/// The speculative tire-wear block right after the Dash block.
pub open spec fn tire_wear_layout(tire_wear: TireWearExt, buf: Seq<u8>) -> bool {
    &&& tire_wear.front_left == le_u32(buf, DASH_LEN as int)
    &&& tire_wear.front_right == le_u32(buf, DASH_LEN + 4)
    &&& tire_wear.rear_left == le_u32(buf, DASH_LEN + 8)
    &&& tire_wear.rear_right == le_u32(buf, DASH_LEN + 12)
}

/// What [`parse`] makes of `buf`: nothing for a packet shorter than the
/// Sled format, otherwise the Sled block, the Dash block exactly when the
/// packet is long enough for it, and the tire-wear block likewise.
pub open spec fn parses_as(buf: Seq<u8>, parsed: Option<ForzaPacket>) -> bool {
    match parsed {
        None => buf.len() < SLED_LEN,
        Some(packet) => {
            &&& buf.len() >= SLED_LEN
            &&& sled_layout(packet.sled, buf)
            &&& (packet.dash is Some <==> buf.len() >= DASH_LEN)
            &&& (packet.dash matches Some(dash) ==> dash_layout(dash, buf))
            &&& (packet.tire_wear is Some <==> buf.len() >= DASH_TIRE_WEAR_LEN)
            &&& (packet.tire_wear matches Some(tire_wear) ==> tire_wear_layout(tire_wear, buf))
        },
    }
}

fn parse_sled(buf: &[u8]) -> (sled: SledData)
    requires
        buf.len() >= SLED_LEN,
    ensures
        sled_layout(sled, buf@),
{
    let sled = SledData {
        is_race_on: i32_at(buf, 0) != 0,
        timestamp_ms: u32_at(buf, 4),
        engine_max_rpm: u32_at(buf, 8),
        engine_idle_rpm: u32_at(buf, 12),
        current_engine_rpm: u32_at(buf, 16),
        velocity: [u32_at(buf, 32), u32_at(buf, 36), u32_at(buf, 40)],
        car_ordinal: i32_at(buf, 212),
        car_class: i32_at(buf, 216),
        car_performance_index: i32_at(buf, 220),
        drivetrain_type: i32_at(buf, 224),
        num_cylinders: i32_at(buf, 228),
    };
    assert(sled.velocity@ =~= seq![le_u32(buf@, 32), le_u32(buf@, 36), le_u32(buf@, 40)]);
    sled
}

fn parse_dash(buf: &[u8]) -> (dash: DashData)
    requires
        buf.len() >= DASH_LEN,
    ensures
        dash_layout(dash, buf@),
{
    let dash = DashData {
        speed_mps: u32_at(buf, 244),
        power_watts: u32_at(buf, 248),
        torque_nm: u32_at(buf, 252),
        tire_temp: [u32_at(buf, 256), u32_at(buf, 260), u32_at(buf, 264), u32_at(buf, 268)],
        boost: u32_at(buf, 272),
        fuel: u32_at(buf, 276),
        distance_traveled_m: u32_at(buf, 280),
        best_lap_s: u32_at(buf, 284),
        last_lap_s: u32_at(buf, 288),
        current_lap_s: u32_at(buf, 292),
        current_race_time_s: u32_at(buf, 296),
        lap_number: u16_at(buf, 300),
        race_position: buf[302],
        accel: buf[303],
        brake: buf[304],
        clutch: buf[305],
        hand_brake: buf[306],
        gear: buf[307],
        steer: buf[308] as i8,
        normalized_driving_line: buf[309] as i8,
        normalized_ai_brake_difference: buf[310] as i8,
    };
    assert(dash.tire_temp@ =~= seq![
        le_u32(buf@, 256),
        le_u32(buf@, 260),
        le_u32(buf@, 264),
        le_u32(buf@, 268),
    ]);
    dash
}

/// Parse a raw UDP payload from Forza's Data Out feature.
///
/// Returns `None` if the buffer is shorter than the minimum Sled packet
/// size (i.e. clearly not a Data Out packet).
pub fn parse(buf: &[u8]) -> (parsed: Option<ForzaPacket>)
    ensures
        parses_as(buf@, parsed),
{
    if buf.len() < SLED_LEN {
        return None;
    }
    let sled = parse_sled(buf);
    let dash = if buf.len() >= DASH_LEN {
        Some(parse_dash(buf))
    } else {
        None
    };
    let tire_wear = if buf.len() >= DASH_TIRE_WEAR_LEN {
        Some(
            TireWearExt {
                front_left: u32_at(buf, DASH_LEN),
                front_right: u32_at(buf, DASH_LEN + 4),
                rear_left: u32_at(buf, DASH_LEN + 8),
                rear_right: u32_at(buf, DASH_LEN + 12),
            },
        )
    } else {
        None
    };
    Some(ForzaPacket { sled, dash, tire_wear })
}


/// The Dash block as the Data Out documentation lays it out, byte by byte:
/// every multi-byte field is little-endian, and each field sits at its own
/// offset -- speed at 244, power at 248, torque at 252, the four tire
/// temperatures front-left, front-right, rear-left, rear-right at 256, 260,
/// 264, 268, boost 272, fuel 276, distance 280, best/last/current lap 284,
/// 288, 292, race time 296, lap number 300 (two bytes), then one byte each
/// for race position 302, accelerator 303, brake 304, clutch 305, handbrake
/// 306, gear 307, and the signed steer 308, driving line 309 and AI brake
/// difference 310.
pub proof fn lemma_dash_fields_at_documented_offsets(buf: Seq<u8>, packet: ForzaPacket)
    requires
        parses_as(buf, Some(packet)),
        buf.len() >= 311,
    ensures
        packet.dash is Some,
        ({
            let d = packet.dash.unwrap();
            &&& d.speed_mps as int == (buf[244] + 256 * buf[245] + 65536 * buf[246] + 16777216 * buf[247])
            &&& d.power_watts as int == (buf[248] + 256 * buf[249] + 65536 * buf[250] + 16777216 * buf[251])
            &&& d.torque_nm as int == (buf[252] + 256 * buf[253] + 65536 * buf[254] + 16777216 * buf[255])
            &&& d.tire_temp@.len() == 4
            &&& d.tire_temp@[0] as int == (buf[256] + 256 * buf[257] + 65536 * buf[258] + 16777216 * buf[259])
            &&& d.tire_temp@[1] as int == (buf[260] + 256 * buf[261] + 65536 * buf[262] + 16777216 * buf[263])
            &&& d.tire_temp@[2] as int == (buf[264] + 256 * buf[265] + 65536 * buf[266] + 16777216 * buf[267])
            &&& d.tire_temp@[3] as int == (buf[268] + 256 * buf[269] + 65536 * buf[270] + 16777216 * buf[271])
            &&& d.boost as int == (buf[272] + 256 * buf[273] + 65536 * buf[274] + 16777216 * buf[275])
            &&& d.fuel as int == (buf[276] + 256 * buf[277] + 65536 * buf[278] + 16777216 * buf[279])
            &&& d.distance_traveled_m as int == (buf[280] + 256 * buf[281] + 65536 * buf[282] + 16777216 * buf[283])
            &&& d.best_lap_s as int == (buf[284] + 256 * buf[285] + 65536 * buf[286] + 16777216 * buf[287])
            &&& d.last_lap_s as int == (buf[288] + 256 * buf[289] + 65536 * buf[290] + 16777216 * buf[291])
            &&& d.current_lap_s as int == (buf[292] + 256 * buf[293] + 65536 * buf[294] + 16777216 * buf[295])
            &&& d.current_race_time_s as int == (buf[296] + 256 * buf[297] + 65536 * buf[298] + 16777216 * buf[299])
            &&& d.lap_number as int == buf[300] + 256 * buf[301]
            &&& d.race_position == buf[302]
            &&& d.accel == buf[303]
            &&& d.brake == buf[304]
            &&& d.clutch == buf[305]
            &&& d.hand_brake == buf[306]
            &&& d.gear == buf[307]
            &&& d.steer as int == (if buf[308] < 128 { buf[308] as int } else { buf[308] - 256 })
            &&& d.normalized_driving_line as int == (if buf[309] < 128 { buf[309] as int } else { buf[309] - 256 })
            &&& d.normalized_ai_brake_difference as int == (if buf[310] < 128 { buf[310] as int } else { buf[310] - 256 })
        }),
{
    let b308 = buf[308];
    assert(b308 as i8 as int == (if b308 < 128 { b308 as int } else { b308 - 256 })) by (bit_vector);
    let b309 = buf[309];
    assert(b309 as i8 as int == (if b309 < 128 { b309 as int } else { b309 - 256 })) by (bit_vector);
    let b310 = buf[310];
    assert(b310 as i8 as int == (if b310 < 128 { b310 as int } else { b310 - 256 })) by (bit_vector);
}

/// The Sled block as the documentation lays it out, byte by byte: the
/// race-on word at 0 (any non-zero value means a race is running), the
/// timestamp at 4, maximum, idle and current engine RPM at 8, 12 and 16,
/// velocity X, Y, Z at 32, 36 and 40, then car ordinal, class, performance
/// index, drivetrain type and cylinder count at 212, 216, 220, 224 and 228
/// -- all little-endian.
pub proof fn lemma_sled_fields_at_documented_offsets(buf: Seq<u8>, packet: ForzaPacket)
    requires
        parses_as(buf, Some(packet)),
    ensures
        buf.len() >= 232,
        packet.sled.is_race_on == ((buf[0] + 256 * buf[1] + 65536 * buf[2] + 16777216 * buf[3]) != 0),
        packet.sled.timestamp_ms as int == (buf[4] + 256 * buf[5] + 65536 * buf[6] + 16777216 * buf[7]),
        packet.sled.engine_max_rpm as int == (buf[8] + 256 * buf[9] + 65536 * buf[10] + 16777216 * buf[11]),
        packet.sled.engine_idle_rpm as int == (buf[12] + 256 * buf[13] + 65536 * buf[14] + 16777216 * buf[15]),
        packet.sled.current_engine_rpm as int == (buf[16] + 256 * buf[17] + 65536 * buf[18] + 16777216 * buf[19]),
        packet.sled.velocity@.len() == 3,
        packet.sled.velocity@[0] as int == (buf[32] + 256 * buf[33] + 65536 * buf[34] + 16777216 * buf[35]),
        packet.sled.velocity@[1] as int == (buf[36] + 256 * buf[37] + 65536 * buf[38] + 16777216 * buf[39]),
        packet.sled.velocity@[2] as int == (buf[40] + 256 * buf[41] + 65536 * buf[42] + 16777216 * buf[43]),
        packet.sled.car_ordinal as int == ((buf[212] + 256 * buf[213] + 65536 * buf[214] + 16777216 * buf[215]) - (if buf[215] >= 128 { 0x1_0000_0000int } else { 0int })),
        packet.sled.car_class as int == ((buf[216] + 256 * buf[217] + 65536 * buf[218] + 16777216 * buf[219]) - (if buf[219] >= 128 { 0x1_0000_0000int } else { 0int })),
        packet.sled.car_performance_index as int == ((buf[220] + 256 * buf[221] + 65536 * buf[222] + 16777216 * buf[223]) - (if buf[223] >= 128 { 0x1_0000_0000int } else { 0int })),
        packet.sled.drivetrain_type as int == ((buf[224] + 256 * buf[225] + 65536 * buf[226] + 16777216 * buf[227]) - (if buf[227] >= 128 { 0x1_0000_0000int } else { 0int })),
        packet.sled.num_cylinders as int == ((buf[228] + 256 * buf[229] + 65536 * buf[230] + 16777216 * buf[231]) - (if buf[231] >= 128 { 0x1_0000_0000int } else { 0int })),
{
    lemma_le_i32_value(buf, 0);
    lemma_le_i32_value(buf, 212);
    lemma_le_i32_value(buf, 216);
    lemma_le_i32_value(buf, 220);
    lemma_le_i32_value(buf, 224);
    lemma_le_i32_value(buf, 228);
}

/// The speculative tire-wear block: four little-endian words right after
/// the 311-byte Dash block, front-left, front-right, rear-left, rear-right
/// at 311, 315, 319 and 323.
pub proof fn lemma_tire_wear_at_documented_offsets(buf: Seq<u8>, packet: ForzaPacket)
    requires
        parses_as(buf, Some(packet)),
        buf.len() >= 327,
    ensures
        packet.tire_wear is Some,
        packet.tire_wear.unwrap().front_left as int == (buf[311] + 256 * buf[312] + 65536 * buf[313] + 16777216 * buf[314]),
        packet.tire_wear.unwrap().front_right as int == (buf[315] + 256 * buf[316] + 65536 * buf[317] + 16777216 * buf[318]),
        packet.tire_wear.unwrap().rear_left as int == (buf[319] + 256 * buf[320] + 65536 * buf[321] + 16777216 * buf[322]),
        packet.tire_wear.unwrap().rear_right as int == (buf[323] + 256 * buf[324] + 65536 * buf[325] + 16777216 * buf[326]),
{
}

/// A little-endian word read as two's complement: the unsigned value, less
/// 2^32 when the top bit (bit 7 of the last byte) is set.
pub proof fn lemma_le_i32_value(buf: Seq<u8>, offset: int)
    requires
        0 <= offset,
        offset + 4 <= buf.len(),
    ensures
        le_i32(buf, offset) as int == le_u32(buf, offset) as int - (if buf[offset + 3] >= 128 {
            0x1_0000_0000int
        } else {
            0int
        }),
        le_u32(buf, offset) as int == buf[offset] + 256 * buf[offset + 1] + 65536 * buf[offset + 2]
            + 16777216 * buf[offset + 3],
{
    let u = le_u32(buf, offset);
    let b3 = buf[offset + 3];
    assert(u as int == buf[offset] + 256 * buf[offset + 1] + 65536 * buf[offset + 2] + 16777216 * b3);
    assert(u >= 0x8000_0000u32 <==> b3 >= 128);
    assert((u as i32) as int == u as int - (if u >= 0x8000_0000u32 { 0x1_0000_0000int } else { 0int })) by (bit_vector);
}

} // verus!
