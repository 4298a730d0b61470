//! Byte-level pieces of the NPClient-compatible interop layer: the frame
//! checksum, the payload scrambling applied when the game registered a key
//! table, and the signature block handed to games.
use vstd::prelude::*;

verus! {

/// The little-endian signed 16-bit value stored at `off` and `off + 1`.
pub open spec fn le_i16_at(b: Seq<u8>, off: int) -> i32 {
    let v = b[off] as int + 256 * b[off + 1] as int;
    if v < 32768 {
        v as i32
    } else {
        (v - 65536) as i32
    }
}

/// The byte at `off`, read as a signed 8-bit value.
pub open spec fn signed_byte_at(b: Seq<u8>, off: int) -> i32 {
    if b[off] < 128 {
        b[off] as i32
    } else {
        (b[off] - 256) as i32
    }
}

/// One full round of the checksum over four input bytes.
pub open spec fn cksum_round(c: i32, a0: i32, a2: i32) -> i32 {
    let c1 = c.wrapping_add(a0);
    let a2b = (a2 ^ c1.wrapping_shl(5)).wrapping_shl(11);
    let c2 = c1 ^ a2b;
    c2.wrapping_add(c2 >> 11u32)
}

/// The checksum state after the first `k` full rounds.
pub open spec fn cksum_rounds(b: Seq<u8>, k: nat) -> i32
    decreases k,
{
    if k == 0 {
        b.len() as i32
    } else {
        let off = 4 * (k - 1);
        cksum_round(cksum_rounds(b, (k - 1) as nat), le_i16_at(b, off), le_i16_at(b, off + 2))
    }
}

/// Folds the one to three trailing bytes (those after the last full round) into `c`.
pub open spec fn cksum_tail(b: Seq<u8>, c: i32) -> i32 {
    let rem = b.len() % 4;
    let off = b.len() - rem;
    if rem == 3 {
        let c1 = c.wrapping_add(le_i16_at(b, off));
        let a2 = signed_byte_at(b, off + 2).wrapping_shl(2) ^ c1;
        let c2 = c1 ^ a2.wrapping_shl(16);
        c2.wrapping_add(c2 >> 11u32)
    } else if rem == 2 {
        let c1 = c.wrapping_add(le_i16_at(b, off));
        let c2 = c1 ^ c1.wrapping_shl(11);
        c2.wrapping_add(c2 >> 17u32)
    } else if rem == 1 {
        let c1 = c.wrapping_add(signed_byte_at(b, off));
        let c2 = c1 ^ c1.wrapping_shl(10);
        c2.wrapping_add(c2 >> 1u32)
    } else {
        c
    }
}

/// The final avalanche applied to the accumulated state.
pub open spec fn cksum_finish(c: i32) -> i32 {
    let c1 = c ^ c.wrapping_shl(3);
    let c2 = c1.wrapping_add(c1 >> 5u32);
    let c3 = c2 ^ c2.wrapping_shl(4);
    let c4 = c3.wrapping_add(c3 >> 17u32);
    let c5 = c4 ^ c4.wrapping_shl(25);
    c5.wrapping_add(c5 >> 6u32)
}

/// The TrackIR-compatible checksum of a byte block: zero for an empty block.
pub open spec fn trackir_checksum(b: Seq<u8>) -> u32 {
    if b.len() == 0 {
        0
    } else {
        cksum_finish(cksum_tail(b, cksum_rounds(b, b.len() / 4))) as u32
    }
}

/// Reads the little-endian signed 16-bit value at `offset`.
pub fn read_i16_le(bytes: &[u8], offset: usize) -> (value: i32)
    requires
        offset + 1 < bytes@.len(),
    ensures
        value == le_i16_at(bytes@, offset as int),
{
    let v: i32 = bytes[offset] as i32 + 256 * (bytes[offset + 1] as i32);
    if v < 32768 {
        v
    } else {
        v - 65536
    }
}

/// Reads the byte at `offset` as a signed 8-bit value.
pub fn read_i8_signed(bytes: &[u8], offset: usize) -> (value: i32)
    requires
        offset < bytes@.len(),
    ensures
        value == signed_byte_at(bytes@, offset as int),
{
    let b = bytes[offset];
    if b < 128 {
        b as i32
    } else {
        b as i32 - 256
    }
}

/// The TrackIR-compatible checksum of `bytes` (see `trackir_checksum`).
pub fn trackir_cksum(bytes: &[u8]) -> (sum: u32)
    ensures
        sum == trackir_checksum(bytes@),
{
    if bytes.len() == 0 {
        return 0;
    }
    let len = bytes.len();
    let rounds = len / 4;
    let rem = len % 4;
    let mut done: usize = 0;
    let mut offset: usize = 0;
    let mut c: i32 = len as i32;
    while done < rounds
        invariant
            len == bytes@.len(),
            rounds == len / 4,
            done <= rounds,
            offset == 4 * done,
            c == cksum_rounds(bytes@, done as nat),
        decreases rounds - done,
    {
        let a0 = read_i16_le(bytes, offset);
        let a2 = read_i16_le(bytes, offset + 2);
        c = c.wrapping_add(a0);
        let a2b = (a2 ^ c.wrapping_shl(5)).wrapping_shl(11);
        c = c ^ a2b;
        c = c.wrapping_add(c >> 11u32);
        offset = offset + 4;
        done = done + 1;
    }
    if rem == 3 {
        let a0 = read_i16_le(bytes, offset);
        let a2 = read_i8_signed(bytes, offset + 2);
        c = c.wrapping_add(a0);
        let a2b = a2.wrapping_shl(2) ^ c;
        c = c ^ a2b.wrapping_shl(16);
        c = c.wrapping_add(c >> 11u32);
    } else if rem == 2 {
        let a2 = read_i16_le(bytes, offset);
        c = c.wrapping_add(a2);
        c = c ^ c.wrapping_shl(11);
        c = c.wrapping_add(c >> 17u32);
    } else if rem == 1 {
        let a2 = read_i8_signed(bytes, offset);
        c = c.wrapping_add(a2);
        c = c ^ c.wrapping_shl(10);
        c = c.wrapping_add(c >> 1u32);
    }
    c = c ^ c.wrapping_shl(3);
    c = c.wrapping_add(c >> 5u32);
    c = c ^ c.wrapping_shl(4);
    c = c.wrapping_add(c >> 17u32);
    c = c ^ c.wrapping_shl(25);
    c = c.wrapping_add(c >> 6u32);
    c as u32
}

/// First mask for the DLL half of the signature block.
pub const PART1_1_PREFIX: [u8; 107] = [
    0x1d, 0x79, 0xce, 0x35, 0x1d, 0x95, 0x79, 0xdf, 0x4c, 0x8d, 0x55, 0xeb,
    0x20, 0x17, 0x9f, 0x26, 0x3e, 0xf0, 0x88, 0x8e, 0x7a, 0x08, 0x11, 0x52,
    0xfc, 0xd8, 0x3f, 0xb9, 0xd2, 0x5c, 0x61, 0x03, 0x56, 0xfd, 0xbc, 0xb4,
    0x0a, 0xf1, 0x13, 0x5d, 0x90, 0x0a, 0x0e, 0xee, 0x09, 0x19, 0x45, 0x5a,
    0xeb, 0xe3, 0xf0, 0x58, 0x5f, 0xac, 0x23, 0x84, 0x1f, 0xc5, 0xe3, 0xa6,
    0x18, 0x5d, 0xb8, 0x47, 0xdc, 0xe6, 0xf2, 0x0b, 0x03, 0x55, 0x61, 0xab,
    0xe3, 0x57, 0xe3, 0x67, 0xcc, 0x16, 0x38, 0x3c, 0x11, 0x25, 0x88, 0x8a,
    0x24, 0x7f, 0xf7, 0xeb, 0xf2, 0x5d, 0x82, 0x89, 0x05, 0x53, 0x32, 0x6b,
    0x28, 0x54, 0x13, 0xf6, 0xe7, 0x21, 0x1a, 0xc6, 0xe3, 0xe1, 0xff,
];

/// Second mask for the DLL half of the signature block.
pub const PART1_2_PREFIX: [u8; 107] = [
    0x6d, 0x0b, 0xab, 0x56, 0x74, 0xe6, 0x1c, 0xff, 0x24, 0xe8, 0x34, 0x8f,
    0x00, 0x63, 0xed, 0x47, 0x5d, 0x9b, 0xe1, 0xe0, 0x1d, 0x02, 0x31, 0x22,
    0x89, 0xac, 0x1f, 0xc0, 0xbd, 0x29, 0x13, 0x23, 0x3e, 0x98, 0xdd, 0xd0,
    0x2a, 0x98, 0x7d, 0x29, 0xff, 0x2a, 0x7a, 0x86, 0x6c, 0x39, 0x22, 0x3b,
    0x86, 0x86, 0xfa, 0x78, 0x31, 0xc3, 0x54, 0xa4, 0x78, 0xaa, 0xc3, 0xca,
    0x77, 0x32, 0xd3, 0x67, 0xbd, 0x94, 0x9d, 0x7e, 0x6d, 0x31, 0x6b, 0xa1,
    0xc3, 0x14, 0x8c, 0x17, 0xb5, 0x64, 0x51, 0x5b, 0x79, 0x51, 0xa8, 0xcf,
    0x5d, 0x1a, 0xb4, 0x84, 0x9c, 0x29, 0xf0, 0xe6, 0x69, 0x73, 0x66, 0x0e,
    0x4b, 0x3c, 0x7d, 0x99, 0x8b, 0x4e, 0x7d, 0xaf, 0x86, 0x92, 0xff,
];

/// First mask for the application half of the signature block.
pub const PART2_1_PREFIX: [u8; 99] = [
    0x8b, 0x84, 0xfc, 0x8c, 0x71, 0xb5, 0xd9, 0xaa, 0xda, 0x32, 0xc7, 0xe9,
    0x0c, 0x20, 0x40, 0xd4, 0x4b, 0x02, 0x89, 0xca, 0xde, 0x61, 0x9d, 0xfb,
    0xb3, 0x8c, 0x97, 0x8a, 0x13, 0x6a, 0x0f, 0xf8, 0xf8, 0x0d, 0x65, 0x1b,
    0xe3, 0x05, 0x1e, 0xb6, 0xf6, 0xd9, 0x13, 0xad, 0xeb, 0x38, 0xdd, 0x86,
    0xfc, 0x59, 0x2e, 0xf6, 0x2e, 0xf4, 0xb0, 0xb0, 0xfd, 0xb0, 0x70, 0x23,
    0xfb, 0xc9, 0x1a, 0x50, 0x89, 0x92, 0xf0, 0x01, 0x09, 0xa1, 0xfd, 0x5b,
    0x19, 0x29, 0x73, 0x59, 0x2b, 0x81, 0x83, 0x9e, 0x11, 0xf3, 0xa2, 0x1f,
    0xc8, 0x24, 0x53, 0x60, 0x0a, 0x42, 0x78, 0x7a, 0x39, 0xea, 0xc1, 0x59,
    0xad, 0xc5, 0x00,
];

/// Second mask for the application half of the signature block.
pub const PART2_2_PREFIX: [u8; 99] = [
    0xe3, 0xe5, 0x8e, 0xe8, 0x06, 0xd4, 0xab, 0xcf, 0xfa, 0x51, 0xa6, 0x84,
    0x69, 0x52, 0x21, 0xde, 0x6b, 0x71, 0xe6, 0xac, 0xaa, 0x16, 0xfc, 0x89,
    0xd6, 0xac, 0xe7, 0xf8, 0x7c, 0x09, 0x6a, 0x8b, 0x8b, 0x64, 0x0b, 0x7c,
    0xc3, 0x61, 0x7f, 0xc2, 0x97, 0xd3, 0x33, 0xd9, 0x99, 0x59, 0xbe, 0xed,
    0xdc, 0x2c, 0x5d, 0x93, 0x5c, 0xd4, 0xdd, 0xdf, 0x8b, 0xd5, 0x1d, 0x46,
    0x95, 0xbd, 0x10, 0x5a, 0xa9, 0xd1, 0x9f, 0x71, 0x70, 0xd3, 0x94, 0x3c,
    0x71, 0x5d, 0x53, 0x1c, 0x52, 0xe4, 0xc0, 0xf1, 0x7f, 0x87, 0xd0, 0x70,
    0xa4, 0x04, 0x07, 0x05, 0x69, 0x2a, 0x16, 0x15, 0x55, 0x85, 0xa6, 0x30,
    0xc8, 0xb6, 0x00,
];

/// The scrambling key in effect before step `j` of `enhance_in_place`
/// (steps walk the block from its last byte to its first).
pub open spec fn enhance_key(old: Seq<u8>, j: nat) -> u8
    decreases j,
{
    if j == 0 {
        0x88u8
    } else {
        let p = old.len() - j;
        ((enhance_key(old, (j - 1) as nat) as int + p % 256 + old[p] as int) % 256) as u8
    }
}

/// The scrambled value of byte `p` of a block whose original content is `old`.
pub open spec fn enhanced_byte(old: Seq<u8>, table: Seq<u8>, p: int) -> u8 {
    let j = old.len() - 1 - p;
    old[p] ^ table[j % 8] ^ enhance_key(old, j as nat)
}

/// Scrambles `data` in place with the game's 8-byte key table, walking from
/// the last byte to the first.
#[verifier::spinoff_prover]
#[verifier::rlimit(40)]
pub fn enhance_in_place(data: &mut [u8], table: &[u8; 8])
    ensures
        final(data)@.len() == old(data)@.len(),
        forall|p: int|
            0 <= p < old(data)@.len() ==> #[trigger] final(data)@[p] == enhanced_byte(
                old(data)@,
                table@,
                p,
            ),
{
    let ghost old_data = data@;
    let n = data.len();
    if n == 0 {
        return;
    }
    let mut table_ptr: usize = 0;
    let mut var: u8 = 0x88;
    let mut size: usize = n;
    while size != 0
        invariant
            n == old_data.len(),
            data@.len() == n,
            size <= n,
            table_ptr == (n - size) % 8,
            var == enhance_key(old_data, (n - size) as nat),
            forall|p: int| 0 <= p < size ==> #[trigger] data@[p] == old_data[p],
            forall|p: int|
                size <= p < n ==> #[trigger] data@[p] == enhanced_byte(old_data, table@, p),
        decreases size,
    {
        size = size - 1;
        let tmp = data[size];
        data[size] = tmp ^ table[table_ptr] ^ var;
        proof {
            assert(enhance_key(old_data, (n - size) as nat) == ((var as int + size % 256
                + tmp as int) % 256) as u8);
        }
        var = var.wrapping_add((size as u8).wrapping_add(tmp));
        proof {
            assert((size as u8) as int == size % 256) by (bit_vector);
        }
        table_ptr = table_ptr + 1;
        if table_ptr >= 8 {
            table_ptr = table_ptr - 8;
        }
    }
}

/// The byte at `i`, or zero past the end of `s`.
pub open spec fn byte_or_zero(s: Seq<u8>, i: int) -> u8 {
    if 0 <= i < s.len() {
        s[i]
    } else {
        0
    }
}

/// Fills `out` with the byte-wise exclusive or of `lhs` and `rhs`, each read
/// as zero past its end.
pub fn apply_signature_xor(out: &mut [u8; 200], lhs: &[u8], rhs: &[u8])
    ensures
        forall|i: int|
            0 <= i < 200 ==> #[trigger] final(out)@[i] == byte_or_zero(lhs@, i) ^ byte_or_zero(
                rhs@,
                i,
            ),
{
    let mut i: usize = 0;
    while i < 200
        invariant
            i <= 200,
            out@.len() == 200,
            forall|k: int|
                0 <= k < i ==> #[trigger] out@[k] == byte_or_zero(lhs@, k) ^ byte_or_zero(
                    rhs@,
                    k,
                ),
        decreases 200 - i,
    {
        let a = if i < lhs.len() {
            lhs[i]
        } else {
            0
        };
        let b = if i < rhs.len() {
            rhs[i]
        } else {
            0
        };
        out[i] = a ^ b;
        i = i + 1;
    }
}

/// The signature block that games read to check the client library: two
/// 200-byte halves.
pub struct TirSignature {
    pub dll_signature: [u8; 200],
    pub app_signature: [u8; 200],
}

impl TirSignature {
    /// The signature block this layer reports: each half is the exclusive or
    /// of its two masks, zero-padded to 200 bytes.
    pub fn compatible() -> (sig: TirSignature)
        ensures
            forall|i: int|
                0 <= i < 200 ==> #[trigger] sig.dll_signature@[i] == byte_or_zero(
                    PART1_2_PREFIX@,
                    i,
                ) ^ byte_or_zero(PART1_1_PREFIX@, i),
            forall|i: int|
                0 <= i < 200 ==> #[trigger] sig.app_signature@[i] == byte_or_zero(
                    PART2_1_PREFIX@,
                    i,
                ) ^ byte_or_zero(PART2_2_PREFIX@, i),
    {
        let mut sig = TirSignature { dll_signature: [0u8; 200], app_signature: [0u8; 200] };
        apply_signature_xor(&mut sig.dll_signature, &PART1_2_PREFIX, &PART1_1_PREFIX);
        apply_signature_xor(&mut sig.app_signature, &PART2_1_PREFIX, &PART2_2_PREFIX);
        sig
    }
}


/// Byte `k` (0 = least significant) of `v`.
pub open spec fn u32_le_byte(v: u32, k: int) -> u8 {
    if k == 0 {
        (v % 256) as u8
    } else if k == 1 {
        ((v / 256) % 256) as u8
    } else if k == 2 {
        ((v / 65536) % 256) as u8
    } else {
        ((v / 16777216) % 256) as u8
    }
}

/// A frame block with its checksum field (bytes 4..8) cleared.
pub open spec fn with_cleared_checksum(b: Seq<u8>) -> Seq<u8> {
    b.update(4, 0).update(5, 0).update(6, 0).update(7, 0)
}

/// A frame block carrying, in bytes 4..8 (little-endian), the checksum of the
/// block taken while that field was zero.
pub open spec fn with_checksum(b: Seq<u8>) -> Seq<u8> {
    let z = with_cleared_checksum(b);
    let ck = trackir_checksum(z);
    z.update(4, u32_le_byte(ck, 0)).update(5, u32_le_byte(ck, 1)).update(6, u32_le_byte(ck, 2)).update(
        7,
        u32_le_byte(ck, 3),
    )
}

/// A sealed block checks out: clearing its checksum field and taking the
/// checksum again gives back the stored bytes, so sealing twice changes
/// nothing.
pub proof fn law_sealed_block_checks_out(b: Seq<u8>)
    requires
        b.len() >= 8,
    ensures
        with_cleared_checksum(with_checksum(b)) == with_cleared_checksum(b),
        with_checksum(with_checksum(b)) == with_checksum(b),
{
    assert(with_cleared_checksum(with_checksum(b)) =~= with_cleared_checksum(b));
    assert(with_checksum(with_checksum(b)) =~= with_checksum(b));
}

/// What the layer remembers between `NP_GetData` calls: the frame counter and
/// the key table that the game registered, if any.
pub struct NpClientState {
    pub frame_counter: i16,
    pub encryption_table: [u8; 8],
    pub encryption_enabled: bool,
    pub encryption_checked: bool,
}

/// Whether any entry of a key table is non-zero.
pub open spec fn table_has_key(table: Seq<u8>) -> bool {
    exists|i: int| 0 <= i < table.len() && table[i] != 0
}

impl NpClientState {
    /// The state right after the library is loaded.
    pub fn new() -> (st: NpClientState)
        ensures
            st.frame_counter == 0,
            !st.encryption_enabled,
            !st.encryption_checked,
            st.encryption_table@ == seq![0u8, 0u8, 0u8, 0u8, 0u8, 0u8, 0u8, 0u8],
    {
        let st = NpClientState {
            frame_counter: 0,
            encryption_table: [0u8; 8],
            encryption_enabled: false,
            encryption_checked: false,
        };
        assert(st.encryption_table@ =~= seq![0u8, 0u8, 0u8, 0u8, 0u8, 0u8, 0u8, 0u8]);
        st
    }

    /// Forgets the key table so that it is read again from shared memory
    /// (a new program profile was registered, or shared memory was closed).
    pub fn reset_encryption(&mut self)
        ensures
            final(self).frame_counter == old(self).frame_counter,
            !final(self).encryption_enabled,
            !final(self).encryption_checked,
            final(self).encryption_table@ == seq![0u8, 0u8, 0u8, 0u8, 0u8, 0u8, 0u8, 0u8],
    {
        self.encryption_enabled = false;
        self.encryption_checked = false;
        self.encryption_table = [0u8; 8];
        assert(self.encryption_table@ =~= seq![0u8, 0u8, 0u8, 0u8, 0u8, 0u8, 0u8, 0u8]);
    }

    /// Looks at the game ids and key table in shared memory. The table is
    /// adopted once, the first time both game ids agree; scrambling is on when
    /// the table holds a non-zero byte.
    pub fn observe_heap(&mut self, game_id: i32, game_id2: i32, table: [u8; 8])
        ensures
            final(self).frame_counter == old(self).frame_counter,
            if game_id == game_id2 && !old(self).encryption_checked {
                &&& final(self).encryption_checked
                &&& final(self).encryption_enabled == table_has_key(table@)
                &&& final(self).encryption_table@ == table@
            } else {
                &&& final(self).encryption_checked == old(self).encryption_checked
                &&& final(self).encryption_enabled == old(self).encryption_enabled
                &&& final(self).encryption_table@ == old(self).encryption_table@
            },
    {
        if game_id == game_id2 && !self.encryption_checked {
            self.encryption_checked = true;
            let mut any = false;
            let mut i: usize = 0;
            while i < 8
                invariant
                    i <= 8,
                    table@.len() == 8,
                    any == exists|k: int| 0 <= k < i && table@[k] != 0,
                decreases 8 - i,
            {
                if table[i] != 0 {
                    any = true;
                }
                i = i + 1;
            }
            self.encryption_enabled = any;
            self.encryption_table = table;
        }
    }

    /// Advances the frame counter (wrapping) and returns the new value.
    pub fn next_frame(&mut self) -> (frame: i16)
        ensures
            frame == old(self).frame_counter.wrapping_add(1),
            final(self).frame_counter == frame,
            final(self).encryption_enabled == old(self).encryption_enabled,
            final(self).encryption_checked == old(self).encryption_checked,
            final(self).encryption_table == old(self).encryption_table,
    {
        self.frame_counter = self.frame_counter.wrapping_add(1);
        self.frame_counter
    }

    /// Finishes a frame block: stores its checksum in bytes 4..8, then
    /// scrambles the whole block when a key table is in effect.
    pub fn seal_frame(&self, frame: &mut [u8])
        requires
            old(frame)@.len() >= 8,
        ensures
            final(frame)@.len() == old(frame)@.len(),
            !self.encryption_enabled ==> final(frame)@ == with_checksum(old(frame)@),
            self.encryption_enabled ==> forall|p: int|
                0 <= p < old(frame)@.len() ==> #[trigger] final(frame)@[p] == enhanced_byte(
                    with_checksum(old(frame)@),
                    self.encryption_table@,
                    p,
                ),
    {
        frame[4] = 0;
        frame[5] = 0;
        frame[6] = 0;
        frame[7] = 0;
        let ck = trackir_cksum(frame);
        frame[4] = (ck % 256) as u8;
        frame[5] = ((ck / 256) % 256) as u8;
        frame[6] = ((ck / 65536) % 256) as u8;
        frame[7] = ((ck / 16777216) % 256) as u8;
        assert(frame@ =~= with_checksum(old(frame)@));
        if self.encryption_enabled {
            let table = self.encryption_table;
            enhance_in_place(frame, &table);
        }
    }
}

/// The status word of a frame while tracking data flows.
pub const TRACKIR_STATUS_OK: i16 = 0;

/// The status returned when the caller passed no frame to fill.
pub const TRACKIR_STATUS_DISABLED: i16 = 1;

/// The client library version reported to games.
pub const NP_CLIENT_VERSION: u16 = 0x0500;

/// Whether the `call_index`-th data request (counted from 1) is written to
/// the trace: the first five, then every three hundredth.
pub fn should_trace_data_call(call_index: u32) -> (b: bool)
    ensures
        b == (call_index <= 5 || call_index % 300 == 0),
{
    call_index <= 5 || call_index % 300 == 0
}

} // verus!
