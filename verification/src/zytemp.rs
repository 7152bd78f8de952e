//! Frame decode pipeline for a Dostmann-style CO2/temperature sensor.
//!
//! The device delivers 8-byte frames scrambled by a fixed byte permutation,
//! an XOR key, a cross-byte 3-bit rotation and a constant subtraction.
//! This module reverses that obfuscation, checks the frame's checksum and
//! decodes the result into a typed [`Reading`].

use vstd::prelude::*;

verus! {

/// A measurement decoded from one valid frame.
#[derive(Clone, Copy, Debug, PartialEq, Eq, Structural)]
pub enum Reading {
    /// A temperature, in the device's fixed-point unit of 1/16 kelvin.
    /// Degrees celsius are `raw / 16.0 - 273.15`, a conversion left to the
    /// unverified caller because it needs floating point.
    Temperature(u16),
    /// A co2 concentration in parts-per-million (PPM).
    CO2(u16),
}

/// The fixed 8-byte key: sent to the device in the handshake and used to
/// undo the XOR stage of the obfuscation.
pub open spec fn key_seq() -> Seq<u8> {
    seq![0xc4u8, 0xc6u8, 0xc0u8, 0x92u8, 0x40u8, 0x23u8, 0xdcu8, 0x96u8]
}

/// The fixed cipher-state constant whose nibble-swapped bytes are subtracted
/// in the last stage of deobfuscation.
pub open spec fn cstate_seq() -> Seq<u8> {
    seq![0x48u8, 0x74u8, 0x65u8, 0x6du8, 0x70u8, 0x39u8, 0x39u8, 0x65u8]
}

/// The fixed byte transposition: raw byte `i` lands at position
/// `shuffle_at(i)`. The table is its own inverse, so descrambled position
/// `j` equally takes the raw byte at `shuffle_at(j)`.
pub open spec fn shuffle_at(i: int) -> int {
    seq![2int, 4int, 0int, 7int, 1int, 6int, 5int, 3int][i]
}

/// Stage 1: undo the byte transposition.
pub open spec fn permuted(raw: Seq<u8>) -> Seq<u8> {
    Seq::new(8, |i: int| raw[shuffle_at(i)])
}

/// Stage 2: XOR each byte with the key.
pub open spec fn xored(raw: Seq<u8>) -> Seq<u8> {
    Seq::new(8, |i: int| permuted(raw)[i] ^ key_seq()[i])
}

/// Stage 3: rotate the whole 8-byte cycle right by 3 bits. The low 3 bits
/// of each output byte come from the high 3 bits of the previous byte in
/// the cycle, the high 5 bits from the low 5 bits of the byte itself.
pub open spec fn rotated(raw: Seq<u8>) -> Seq<u8> {
    Seq::new(8, |i: int| (xored(raw)[i] >> 3) | (xored(raw)[(i + 7) % 8] << 5))
}

/// Swap the two nibbles of a byte.
pub open spec fn nibble_swapped(b: u8) -> u8 {
    (b >> 4) | (b << 4)
}

/// Subtraction modulo 256, computed without underflow.
pub open spec fn wrap_sub(a: u8, b: u8) -> u8 {
    (((0x100 + a - b) % 0x100) as u8)
}

/// Stage 4: subtract the nibble-swapped cipher-state constant, modulo 256.
/// The composition of all four stages: what [`decrypt`] returns.
pub open spec fn deobfuscated(raw: Seq<u8>) -> Seq<u8> {
    Seq::new(8, |i: int| wrap_sub(rotated(raw)[i], nibble_swapped(cstate_seq()[i])))
}

/// Decrypt a reading to get the raw data.
///
/// Total and deterministic: defined for every 8-byte input, and the result
/// is a function of the input alone.
pub fn decrypt(data: [u8; 8]) -> (out: [u8; 8])
    ensures
        out@ == deobfuscated(data@),
{
    // Undo the transposition (the table is its own inverse, so each output
    // position gathers from the position the table names).
    let p0 = data[2];
    let p1 = data[4];
    let p2 = data[0];
    let p3 = data[7];
    let p4 = data[1];
    let p5 = data[6];
    let p6 = data[5];
    let p7 = data[3];

    // XOR with the key.
    let x0 = p0 ^ 0xc4;
    let x1 = p1 ^ 0xc6;
    let x2 = p2 ^ 0xc0;
    let x3 = p3 ^ 0x92;
    let x4 = p4 ^ 0x40;
    let x5 = p5 ^ 0x23;
    let x6 = p6 ^ 0xdc;
    let x7 = p7 ^ 0x96;

    // Cross-byte 3-bit right rotation.
    let r0 = (x0 >> 3) | (x7 << 5);
    let r1 = (x1 >> 3) | (x0 << 5);
    let r2 = (x2 >> 3) | (x1 << 5);
    let r3 = (x3 >> 3) | (x2 << 5);
    let r4 = (x4 >> 3) | (x3 << 5);
    let r5 = (x5 >> 3) | (x4 << 5);
    let r6 = (x6 >> 3) | (x5 << 5);
    let r7 = (x7 >> 3) | (x6 << 5);

    // Nibble-swap the cipher-state constant; input-independent.
    let a0 = (0x48u8 >> 4) | (0x48u8 << 4);
    let a1 = (0x74u8 >> 4) | (0x74u8 << 4);
    let a2 = (0x65u8 >> 4) | (0x65u8 << 4);
    let a3 = (0x6du8 >> 4) | (0x6du8 << 4);
    let a4 = (0x70u8 >> 4) | (0x70u8 << 4);
    let a5 = (0x39u8 >> 4) | (0x39u8 << 4);
    let a6 = (0x39u8 >> 4) | (0x39u8 << 4);
    let a7 = (0x65u8 >> 4) | (0x65u8 << 4);

    // Subtract modulo 256, widened to avoid underflow.
    let o0 = ((0x100u16 + r0 as u16 - a0 as u16) % 0x100) as u8;
    let o1 = ((0x100u16 + r1 as u16 - a1 as u16) % 0x100) as u8;
    let o2 = ((0x100u16 + r2 as u16 - a2 as u16) % 0x100) as u8;
    let o3 = ((0x100u16 + r3 as u16 - a3 as u16) % 0x100) as u8;
    let o4 = ((0x100u16 + r4 as u16 - a4 as u16) % 0x100) as u8;
    let o5 = ((0x100u16 + r5 as u16 - a5 as u16) % 0x100) as u8;
    let o6 = ((0x100u16 + r6 as u16 - a6 as u16) % 0x100) as u8;
    let o7 = ((0x100u16 + r7 as u16 - a7 as u16) % 0x100) as u8;

    let out = [o0, o1, o2, o3, o4, o5, o6, o7];
    proof {
        assert(out@ =~= deobfuscated(data@));
    }
    out
}

/// The one-byte checksum: the sum of the first three bytes, modulo 256.
pub open spec fn checksum(f: Seq<u8>) -> u8 {
    (((f[0] + f[1] + f[2]) % 0x100) as u8)
}

/// A descrambled frame is intact when its terminator byte is 0x0d and its
/// checksum byte matches the sum of the first three bytes.
pub open spec fn frame_valid(f: Seq<u8>) -> bool {
    f[4] == 0x0d && f[3] == checksum(f)
}

/// Validate the checksum of a packet.
///
/// # Errors
///
/// This will return an error if the package was corrupted.
pub fn validate_checksum(decrypted: &[u8; 8]) -> (r: Result<(), &'static str>)
    ensures
        r is Ok <==> frame_valid(decrypted@),
        r matches Err(m) ==> m@ == "Checksum validation failed"@,
{
    let sum: u16 = decrypted[0] as u16 + decrypted[1] as u16 + decrypted[2] as u16;
    let sum8: u8 = (sum % 0x100) as u8;
    if decrypted[4] != 0x0d || sum8 != decrypted[3] {
        Err("Checksum validation failed")
    } else {
        Ok(())
    }
}

/// The big-endian 16-bit payload carried in bytes 1 and 2 of a frame.
pub open spec fn payload(f: Seq<u8>) -> u16 {
    ((f[1] as u16) << 8) | (f[2] as u16)
}

/// What [`decode`] yields for a descrambled frame: a reading for the two
/// recognized opcodes, nothing for any other.
pub open spec fn decoded(f: Seq<u8>) -> Option<Reading> {
    if f[0] == 0x50 {
        Some(Reading::CO2(payload(f)))
    } else if f[0] == 0x42 {
        Some(Reading::Temperature(payload(f)))
    } else {
        None
    }
}

/// Decode a descrambled frame into a reading: opcode 0x50 carries a co2
/// concentration, opcode 0x42 a temperature. Opcodes that cannot be made
/// sense of yield `None`; that is not an error, just nothing to report.
pub fn decode(decrypted: [u8; 8]) -> (r: Option<Reading>)
    ensures
        r == decoded(decrypted@),
{
    let op = decrypted[0];
    let val: u16 = (decrypted[1] as u16) << 8 | decrypted[2] as u16;
    if op == 0x50 {
        Some(Reading::CO2(val))
    } else if op == 0x42 {
        Some(Reading::Temperature(val))
    } else {
        None
    }
}

/// What one raw frame contributes to the reading stream: its decoded
/// reading when it descrambles to an intact, recognized frame, and nothing
/// otherwise.
pub open spec fn frame_reading(raw: Seq<u8>) -> Option<Reading> {
    if frame_valid(deobfuscated(raw)) {
        decoded(deobfuscated(raw))
    } else {
        None
    }
}

/// One step of the reading stream: descramble a raw frame, check its
/// integrity, and decode it. Corrupted or unrecognized frames yield `None`
/// and are simply skipped by pulling the next frame; a reading is never
/// produced from a frame that fails validation.
pub fn process_frame(data: [u8; 8]) -> (r: Option<Reading>)
    ensures
        r == frame_reading(data@),
        r is Some ==> frame_valid(deobfuscated(data@)),
{
    let decrypted = decrypt(data);
    if validate_checksum(&decrypted).is_err() {
        return None;
    }
    decode(decrypted)
}

/// Deobfuscation is total and deterministic: it is defined for every
/// 8-byte input, always yields a full 8-byte frame, and any two inputs
/// with the same bytes descramble to the same bytes — so repeated calls of
/// [`decrypt`], whose result is exactly `deobfuscated` of its input, agree.
pub proof fn lemma_deobfuscation_deterministic(a: Seq<u8>, b: Seq<u8>)
    requires
        a == b,
    ensures
        deobfuscated(a) == deobfuscated(b),
        deobfuscated(a).len() == 8,
{
}

/// The handshake bytes that switch the device into streaming mode: a zero
/// report id followed by the 8-byte key.
pub open spec fn feature_report_seq() -> Seq<u8> {
    seq![0x00u8].add(key_seq())
}

/// Build the feature report that the handshake writes to the device before
/// the first read.
pub fn feature_report() -> (v: Vec<u8>)
    ensures
        v@ == feature_report_seq(),
{
    let mut v: Vec<u8> = Vec::new();
    v.push(0x00);
    v.push(0xc4);
    v.push(0xc6);
    v.push(0xc0);
    v.push(0x92);
    v.push(0x40);
    v.push(0x23);
    v.push(0xdc);
    v.push(0x96);
    proof {
        assert(v@ =~= feature_report_seq());
    }
    v
}

} // verus!

