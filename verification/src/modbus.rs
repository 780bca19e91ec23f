//! The Modbus/TCP companion's pure logic: the fixed sensor bank, the
//! decoding of a request frame (MBAP header, function code, starting
//! address, quantity), and the byte-exact response. A socket shell moves
//! the frames.

use vstd::prelude::*;

verus! {

/// The slave this simulator answers as.
pub const SLAVE_ID: u8 = 1;

/// How many registers the sensor bank holds.
pub const SENSOR_COUNT: usize = 6;

/// The largest quantity of registers one read may ask for.
pub const MAX_READ_COUNT: u16 = 125;

/// The fixed bank of six 16-bit sensor registers.
pub struct Sensors {
    values: [u16; 6],
}

impl View for Sensors {
    type V = Seq<u16>;

    closed spec fn view(&self) -> Seq<u16> {
        self.values@
    }
}

impl Sensors {
    /// The bank at rest, before any tick has shaped it.
    pub fn new() -> (r: Self)
        ensures
            r@ =~= seq![200u16, 500u16, 1013u16, 120u16, 1000u16, 1u16],
    {
        Sensors { values: [200, 500, 1013, 120, 1000, 1] }
    }

    /// Overwrite the whole bank, as the periodic shaping tick does.
    pub fn set_values(&mut self, values: [u16; 6])
        ensures
            final(self)@ == values@,
    {
        self.values = values;
    }

    /// The registers from `addr` on, `count` of them; whatever lies beyond
    /// the bank reads as zero.
    pub fn read(&self, addr: u16, count: u16) -> (r: Vec<u16>)
        ensures
            r@.len() == count,
            forall|j: int|
                0 <= j < count ==> r@[j] == (if addr + j < 6 {
                    self@[addr + j]
                } else {
                    0u16
                }),
    {
        let mut out: Vec<u16> = Vec::new();
        let mut i: u16 = 0;
        while i < count
            invariant
                i <= count,
                out@.len() == i,
                self@.len() == 6,
                forall|j: int|
                    0 <= j < i ==> out@[j] == (if addr + j < 6 {
                        self@[addr + j]
                    } else {
                        0u16
                    }),
            decreases count - i,
        {
            let a: u32 = addr as u32 + i as u32;
            if a < 6 {
                out.push(self.values[a as usize]);
            } else {
                out.push(0);
            }
            i = i + 1;
        }
        out
    }
}

/// One decoded read request: the echoed transaction bytes, the function
/// code, and the register window asked for.
#[derive(Clone, Copy, PartialEq, Eq, Structural, Debug)]
pub struct ModbusRequest {
    pub transaction_hi: u8,
    pub transaction_lo: u8,
    pub function: u8,
    pub start: u16,
    pub count: u16,
}

/// The 16-bit big-endian word two bytes spell.
pub open spec fn be_word(hi: u8, lo: u8) -> int {
    hi * 256 + lo
}

/// Decode the first `n` received bytes of a frame buffer. Too-short
/// frames, frames for another slave, and reads beyond `MAX_READ_COUNT`
/// registers are ignored.
pub fn decode_request(frame: &Vec<u8>, n: usize) -> (r: Option<ModbusRequest>)
    requires
        frame@.len() >= 12,
    ensures
        r is Some <==> n >= 7 && (frame@[6] == SLAVE_ID || frame@[6] == 0xff) && be_word(
            frame@[10],
            frame@[11],
        ) <= MAX_READ_COUNT,
        r matches Some(q) ==> q.transaction_hi == frame@[0] && q.transaction_lo == frame@[1]
            && q.function == frame@[7] && q.start == be_word(frame@[8], frame@[9]) && q.count
            == be_word(frame@[10], frame@[11]),
{
    if n < 7 {
        return None;
    }
    let slave = frame[6];
    if slave != SLAVE_ID && slave != 0xff {
        return None;
    }
    let start: u16 = frame[8] as u16 * 256 + frame[9] as u16;
    let count: u16 = frame[10] as u16 * 256 + frame[11] as u16;
    if count > MAX_READ_COUNT {
        return None;
    }
    Some(
        ModbusRequest {
            transaction_hi: frame[0],
            transaction_lo: frame[1],
            function: frame[7],
            start,
            count,
        },
    )
}

/// The byte-exact answer to a read: echoed transaction id, protocol zero,
/// length, slave id, function code, byte count, then the registers as
/// 16-bit big-endian words.
pub fn encode_response(req: &ModbusRequest, values: &Vec<u16>) -> (r: Vec<u8>)
    requires
        values@.len() <= MAX_READ_COUNT,
    ensures
        r@.len() == 9 + 2 * values@.len(),
        r@[0] == req.transaction_hi,
        r@[1] == req.transaction_lo,
        r@[2] == 0u8 && r@[3] == 0u8 && r@[4] == 0u8,
        r@[5] == 3 + 2 * values@.len(),
        r@[6] == SLAVE_ID,
        r@[7] == req.function,
        r@[8] == 2 * values@.len(),
        forall|j: int|
            0 <= j < values@.len() ==> r@[9 + 2 * j] == values@[j] / 256 && r@[9 + 2 * j + 1]
                == values@[j] % 256,
{
    let byte_count: u8 = (values.len() as u8) * 2;
    let mut r: Vec<u8> = Vec::new();
    r.push(req.transaction_hi);
    r.push(req.transaction_lo);
    r.push(0);
    r.push(0);
    r.push(0);
    r.push(3 + byte_count);
    r.push(SLAVE_ID);
    r.push(req.function);
    r.push(byte_count);
    let mut i: usize = 0;
    while i < values.len()
        invariant
            i <= values@.len(),
            values@.len() <= 125,
            r@.len() == 9 + 2 * i,
            r@[0] == req.transaction_hi,
            r@[1] == req.transaction_lo,
            r@[2] == 0u8 && r@[3] == 0u8 && r@[4] == 0u8,
            r@[5] == 3 + 2 * values@.len(),
            r@[6] == SLAVE_ID,
            r@[7] == req.function,
            r@[8] == 2 * values@.len(),
            forall|j: int|
                0 <= j < i ==> r@[9 + 2 * j] == values@[j] / 256 && r@[9 + 2 * j + 1] == values@[j]
                    % 256,
        decreases values@.len() - i,
    {
        let v = values[i];
        r.push((v / 256) as u8);
        r.push((v % 256) as u8);
        i = i + 1;
    }
    r
}

} // verus!
