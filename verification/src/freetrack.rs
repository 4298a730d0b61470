//! The FreeTrack side of the truck-simulator backend: game identifiers,
//! the encryption tables the FreeTrack handshake publishes, recognition of
//! the running game from process names, and the handshake bookkeeping done
//! on every pose written to the shared heap.
use vstd::prelude::*;
use crate::errors::AppError;
use crate::text::{
    ascii_lower, chars_of, decimal, decimal_string, ends_with_chars, has_suffix, lower_chars, trim,
    trim_chars,
};

verus! {

/// The FreeTrack game id of Euro Truck Simulator 2.
pub const ETS2_GAME_ID: i32 = 13602;

/// The FreeTrack game id of American Truck Simulator.
pub const ATS_GAME_ID: i32 = 13603;

/// Camera width published in every FreeTrack frame.
pub const FREETRACK_CAM_WIDTH: i32 = 100;

/// Camera height published in every FreeTrack frame.
pub const FREETRACK_CAM_HEIGHT: i32 = 250;

/// How long a writer waits for the shared heap's mutex, in milliseconds.
pub const WAIT_LOCK_TIMEOUT_MS: u32 = 16;

/// The mutex was acquired.
pub const WAIT_OBJECT_0: u32 = 0;

/// The mutex was acquired after its previous owner exited without
/// releasing it.
pub const WAIT_ABANDONED: u32 = 0x80;

/// The wait timed out.
pub const WAIT_TIMEOUT: u32 = 0x102;

/// The truck simulators that have a response preset.
#[derive(Debug, Clone, Copy, PartialEq, Eq, Structural)]
pub enum TruckSimPreset {
    Ets2,
    Ats,
}

/// The value of a hexadecimal digit given as an ASCII byte.
pub open spec fn spec_hex_nibble(byte: u8) -> Option<u8> {
    if 48 <= byte <= 57 {
        Some((byte - 48) as u8)
    } else if 97 <= byte <= 102 {
        Some((byte - 97 + 10) as u8)
    } else if 65 <= byte <= 70 {
        Some((byte - 65 + 10) as u8)
    } else {
        None
    }
}

/// The value of the hexadecimal digit `byte`, if it is one.
pub fn parse_hex_nibble(byte: u8) -> (r: Option<u8>)
    ensures
        r == spec_hex_nibble(byte),
{
    if 48 <= byte && byte <= 57 {
        Some(byte - 48)
    } else if 97 <= byte && byte <= 102 {
        Some(byte - 97 + 10)
    } else if 65 <= byte && byte <= 70 {
        Some(byte - 65 + 10)
    } else {
        None
    }
}

/// The value of a hexadecimal digit given as a character.
pub open spec fn char_nibble(c: char) -> Option<u8> {
    if (c as u32) < 128 {
        spec_hex_nibble((c as u32) as u8)
    } else {
        None
    }
}

fn nibble_of_char(c: char) -> (r: Option<u8>)
    ensures
        r == char_nibble(c),
{
    let code = c as u32;
    if code < 128 {
        parse_hex_nibble(code as u8)
    } else {
        None
    }
}

/// Every character of `s` is a hexadecimal digit.
pub open spec fn all_hex(s: Seq<char>) -> bool {
    forall|i: int| 0 <= i < s.len() ==> #[trigger] char_nibble(s[i]) is Some
}

/// The byte spelled by the two hexadecimal digits at `2 * k` and
/// `2 * k + 1`.
pub open spec fn hex_byte(s: Seq<char>, k: int) -> u8 {
    (char_nibble(s[2 * k]).unwrap() * 16 + char_nibble(s[2 * k + 1]).unwrap()) as u8
}

/// The key table spelled by a FaceTrackNoIR game id string: 22 hex digits
/// naming 11 bytes, of which bytes 5, 4, 3, 2, 9, 8, 7, 6 form the table.
pub open spec fn spec_ftn_table(s: Seq<char>) -> Option<Seq<u8>> {
    if s.len() == 22 && all_hex(s) {
        Some(
            seq![
                hex_byte(s, 5),
                hex_byte(s, 4),
                hex_byte(s, 3),
                hex_byte(s, 2),
                hex_byte(s, 9),
                hex_byte(s, 8),
                hex_byte(s, 7),
                hex_byte(s, 6),
            ],
        )
    } else {
        None
    }
}

/// The FreeTrack key table encoded in a FaceTrackNoIR game id, in the byte
/// order opentrack uses; `None` unless the id is exactly 22 hex digits.
pub fn parse_freetrack_table_from_ftn_id(ftn_id: &str) -> (r: Option<[u8; 8]>)
    ensures
        r is Some <==> spec_ftn_table(ftn_id@) is Some,
        r matches Some(t) ==> t@ == spec_ftn_table(ftn_id@).unwrap(),
{
    let id = chars_of(ftn_id);
    if id.len() != 22 {
        return None;
    }
    let mut raw: Vec<u8> = Vec::new();
    let mut index: usize = 0;
    while index < 11
        invariant
            id@ == ftn_id@,
            id@.len() == 22,
            index <= 11,
            raw@.len() == index,
            forall|k: int| 0 <= k < 2 * index ==> #[trigger] char_nibble(id@[k]) is Some,
            forall|k: int| 0 <= k < index ==> raw@[k] == hex_byte(id@, k),
        decreases 11 - index,
    {
        let high = match nibble_of_char(id[2 * index]) {
            Some(v) => v,
            None => {
                assert(!all_hex(id@));
                return None;
            },
        };
        let low = match nibble_of_char(id[2 * index + 1]) {
            Some(v) => v,
            None => {
                assert(!all_hex(id@));
                return None;
            },
        };
        let byte = (high << 4) | low;
        assert(high < 16 && low < 16 ==> (high << 4) | low == high * 16 + low) by (bit_vector);
        raw.push(byte);
        index = index + 1;
    }
    assert(all_hex(id@));
    let table = [raw[5], raw[4], raw[3], raw[2], raw[9], raw[8], raw[7], raw[6]];
    assert(table@ =~= spec_ftn_table(ftn_id@).unwrap());
    Some(table)
}

/// The key table published for a game id. The truck simulators run with
/// encryption disabled, so every game gets the all-zero table.
pub fn freetrack_table_for_game_id(game_id: i32) -> (table: [u8; 8])
    ensures
        table@ == seq![0u8, 0u8, 0u8, 0u8, 0u8, 0u8, 0u8, 0u8],
{
    let table: [u8; 8] = [0, 0, 0, 0, 0, 0, 0, 0];
    assert(table@ =~= seq![0u8, 0u8, 0u8, 0u8, 0u8, 0u8, 0u8, 0u8]);
    table
}

/// A process name, trimmed and lower-cased, as the game recognition
/// compares it.
pub open spec fn folded_name(name: Seq<char>) -> Seq<char> {
    ascii_lower(trim(name))
}

/// Some name ends with `suffix` once folded.
pub open spec fn some_name_ends_with(names: Seq<&str>, suffix: Seq<char>) -> bool {
    exists|i: int| 0 <= i < names.len() && has_suffix(#[trigger] folded_name(names[i]@), suffix)
}

/// The game id recognised from running process names: American Truck
/// Simulator wins over Euro Truck Simulator 2.
pub open spec fn spec_infer_game_id(names: Seq<&str>) -> Option<i32> {
    if some_name_ends_with(names, "amtrucks.exe"@) {
        Some(ATS_GAME_ID)
    } else if some_name_ends_with(names, "eurotrucks2.exe"@) {
        Some(ETS2_GAME_ID)
    } else {
        None
    }
}

/// The game id of the truck simulator among the running processes.
pub fn infer_game_id_from_process_names(process_names: &[&str]) -> (r: Option<i32>)
    ensures
        r == spec_infer_game_id(process_names@),
{
    let ats_suffix = chars_of("amtrucks.exe");
    let ets2_suffix = chars_of("eurotrucks2.exe");
    let mut has_ats = false;
    let mut has_ets2 = false;
    let mut i: usize = 0;
    while i < process_names.len()
        invariant
            i <= process_names@.len(),
            ats_suffix@ == "amtrucks.exe"@,
            ets2_suffix@ == "eurotrucks2.exe"@,
            has_ats == exists|k: int|
                0 <= k < i && has_suffix(#[trigger] folded_name(process_names@[k]@), "amtrucks.exe"@),
            has_ets2 == exists|k: int|
                0 <= k < i && has_suffix(#[trigger] folded_name(process_names@[k]@), "eurotrucks2.exe"@),
        decreases process_names.len() - i,
    {
        let name: &str = process_names[i];
        let lowered = lower_chars(&trim_chars(&chars_of(name)));
        assert(lowered@ == folded_name(process_names@[i as int]@));
        if ends_with_chars(&lowered, &ats_suffix) {
            has_ats = true;
        }
        if ends_with_chars(&lowered, &ets2_suffix) {
            has_ets2 = true;
        }
        i = i + 1;
    }
    if has_ats {
        Some(ATS_GAME_ID)
    } else if has_ets2 {
        Some(ETS2_GAME_ID)
    } else {
        None
    }
}

/// The UTF-16 code units of one character.
pub open spec fn utf16_units(c: char) -> Seq<u16> {
    let v = c as u32;
    if v < 0x10000 {
        seq![v as u16]
    } else {
        seq![(0xD800 + (v - 0x10000) / 0x400) as u16, (0xDC00 + (v - 0x10000) % 0x400) as u16]
    }
}

/// The UTF-16 encoding of a character sequence.
pub open spec fn utf16_of(s: Seq<char>) -> Seq<u16>
    decreases s.len(),
{
    if s.len() == 0 {
        Seq::empty()
    } else {
        utf16_of(s.drop_last()) + utf16_units(s.last())
    }
}

/// `value` encoded as UTF-16 and terminated by a zero unit, as wide-string
/// system calls take names.
pub fn wide_null(value: &str) -> (out: Vec<u16>)
    ensures
        out@ == utf16_of(value@).push(0u16),
{
    let chars = chars_of(value);
    let mut out: Vec<u16> = Vec::new();
    let mut i: usize = 0;
    while i < chars.len()
        invariant
            chars@ == value@,
            i <= chars@.len(),
            out@ == utf16_of(chars@.take(i as int)),
        decreases chars.len() - i,
    {
        let c = chars[i];
        let v = c as u32;
        assert(chars@.take(i + 1).drop_last() =~= chars@.take(i as int));
        if v < 0x10000 {
            out.push(v as u16);
        } else {
            let u = v - 0x10000;
            out.push((0xD800 + u / 0x400) as u16);
            out.push((0xDC00 + u % 0x400) as u16);
        }
        i = i + 1;
        assert(out@ =~= utf16_of(chars@.take(i as int)));
    }
    assert(chars@.take(chars@.len() as int) =~= chars@);
    out.push(0);
    out
}

/// The handshake fields of the FreeTrack shared heap, as a writer reads
/// them under the heap's mutex.
#[derive(Debug, Clone, Copy)]
pub struct FreeTrackHeader {
    pub data_id: u32,
    pub game_id: i32,
    pub table: [u8; 8],
    pub game_id2: i32,
}

/// What a writer remembers between frames: the game id it last announced.
#[derive(Debug, Clone, Copy)]
pub struct FreeTrackSession {
    pub last_game_id: i32,
}

/// The game id a frame is published for: the heap's, or the one recognised
/// from the running processes when the heap names none.
pub open spec fn effective_game_id(heap_game_id: i32, inferred: Option<i32>) -> i32 {
    if heap_game_id == 0 && inferred is Some {
        inferred.unwrap()
    } else {
        heap_game_id
    }
}

/// The heap's handshake fields after a frame is published by a writer that
/// last announced `last_game_id` (see `FreeTrackSession::publish`).
pub open spec fn published_header(
    last_game_id: i32,
    header: FreeTrackHeader,
    inferred: Option<i32>,
) -> FreeTrackHeader {
    let g = effective_game_id(header.game_id, inferred);
    if g != last_game_id {
        FreeTrackHeader { data_id: 0, game_id: g, table: [0u8, 0u8, 0u8, 0u8, 0u8, 0u8, 0u8, 0u8], game_id2: g }
    } else {
        FreeTrackHeader { data_id: header.data_id.wrapping_add(1), game_id: g, ..header }
    }
}

/// A game is announced once: after a frame has been published, the next
/// frame for the same game keeps the key table and the second game id and
/// only advances the frame counter.
pub proof fn law_game_is_announced_once(
    last_game_id: i32,
    header: FreeTrackHeader,
    inferred: Option<i32>,
    next_inferred: Option<i32>,
)
    requires
        published_header(last_game_id, header, inferred).game_id != 0 || next_inferred is None,
    ensures
        ({
            let first = published_header(last_game_id, header, inferred);
            let g = effective_game_id(header.game_id, inferred);
            published_header(g, first, next_inferred) == FreeTrackHeader {
                data_id: first.data_id.wrapping_add(1),
                ..first
            }
        }),
{
}

impl FreeTrackSession {
    /// A session that has announced no game yet.
    pub fn new() -> (s: Self)
        ensures
            s.last_game_id == i32::MIN,
    {
        FreeTrackSession { last_game_id: i32::MIN }
    }

    /// Whether the running game must be recognised before publishing: the
    /// heap names no game.
    pub fn wants_inferred_game_id(header: &FreeTrackHeader) -> (b: bool)
        ensures
            b == (header.game_id == 0),
    {
        header.game_id == 0
    }

    /// The handshake step done with every frame. When the game id changes
    /// (a game connects or switches) the key table, the second game id and
    /// the frame counter are reset; otherwise the frame counter advances,
    /// wrapping around.
    pub fn publish(&mut self, header: &mut FreeTrackHeader, inferred: Option<i32>)
        ensures
            ({
                let g = effective_game_id(old(header).game_id, inferred);
                &&& final(header).game_id == g
                &&& g != old(self).last_game_id ==> {
                    &&& final(header).table@ == seq![0u8, 0u8, 0u8, 0u8, 0u8, 0u8, 0u8, 0u8]
                    &&& final(header).game_id2 == g
                    &&& final(header).data_id == 0
                    &&& final(self).last_game_id == g
                }
                &&& g == old(self).last_game_id ==> {
                    &&& final(header).table == old(header).table
                    &&& final(header).game_id2 == old(header).game_id2
                    &&& final(header).data_id == old(header).data_id.wrapping_add(1)
                    &&& final(self).last_game_id == old(self).last_game_id
                }
                &&& *final(header) == published_header(old(self).last_game_id, *old(header), inferred)
                &&& final(self).last_game_id == g
            }),
    {
        let mut game_id = header.game_id;
        if game_id == 0 {
            if let Some(found) = inferred {
                header.game_id = found;
                game_id = found;
            }
        }
        if game_id != self.last_game_id {
            header.table = freetrack_table_for_game_id(game_id);
            assert(header.table =~= [0u8, 0u8, 0u8, 0u8, 0u8, 0u8, 0u8, 0u8]);
            header.game_id2 = game_id;
            header.data_id = 0;
            self.last_game_id = game_id;
        } else {
            header.data_id = header.data_id.wrapping_add(1);
        }
    }
}

/// How a wait for the heap's mutex ended.
#[derive(Debug, Clone, Copy, PartialEq, Eq, Structural)]
pub enum MutexWait {
    Acquired,
    TimedOut,
    Failed,
}

/// The outcome of a wait, from the value the wait returned.
pub fn classify_mutex_wait(result: u32) -> (w: MutexWait)
    ensures
        w == (if result == WAIT_OBJECT_0 || result == WAIT_ABANDONED {
            MutexWait::Acquired
        } else if result == WAIT_TIMEOUT {
            MutexWait::TimedOut
        } else {
            MutexWait::Failed
        }),
{
    if result == WAIT_OBJECT_0 || result == WAIT_ABANDONED {
        MutexWait::Acquired
    } else if result == WAIT_TIMEOUT {
        MutexWait::TimedOut
    } else {
        MutexWait::Failed
    }
}

/// The error a pose write reports when the mutex wait returned `result`
/// and the system's last error code was `last_error`; `None` when the
/// mutex was acquired.
pub fn mutex_wait_error(result: u32, last_error: u32) -> (e: Option<AppError>)
    ensures
        (result == WAIT_OBJECT_0 || result == WAIT_ABANDONED) ==> e is None,
        result == WAIT_TIMEOUT ==> (e matches Some(AppError::InvalidState(m)) && m@
            == "timed out while waiting for FreeTrack shared memory mutex"@),
        (result != WAIT_OBJECT_0 && result != WAIT_ABANDONED && result != WAIT_TIMEOUT) ==> (e matches Some(
            AppError::InvalidState(m),
        ) && m@ == "failed waiting for FreeTrack mutex (result="@ + decimal(result as nat)
            + ", GetLastError="@ + decimal(last_error as nat) + ")"@),
{
    match classify_mutex_wait(result) {
        MutexWait::Acquired => None,
        MutexWait::TimedOut => Some(
            AppError::InvalidState(
                String::from_str("timed out while waiting for FreeTrack shared memory mutex"),
            ),
        ),
        MutexWait::Failed => {
            let r = decimal_string(result as u64);
            let l = decimal_string(last_error as u64);
            let m = String::from_str("failed waiting for FreeTrack mutex (result=").concat(
                r.as_str(),
            ).concat(", GetLastError=").concat(l.as_str()).concat(")");
            Some(AppError::InvalidState(m))
        },
    }
}

/// The step of opening the shared heap that failed.
#[derive(Debug, Clone, Copy, PartialEq, Eq, Structural)]
pub enum ConnectStage {
    CreateMapping,
    MapView,
    CreateMutex,
}

/// The text that names a failed step.
pub open spec fn connect_stage_text(stage: ConnectStage) -> Seq<char> {
    match stage {
        ConnectStage::CreateMapping => "failed to create/open FreeTrack shared memory"@,
        ConnectStage::MapView => "failed to map FreeTrack shared memory"@,
        ConnectStage::CreateMutex => "failed to create/open FreeTrack mutex"@,
    }
}

/// The error reported when opening the shared heap failed at `stage` with
/// the system's last error code `last_error`.
pub fn freetrack_connect_error(stage: ConnectStage, last_error: u32) -> (e: AppError)
    ensures
        e matches AppError::InvalidState(m) && m@ == connect_stage_text(stage) + " (GetLastError="@
            + decimal(last_error as nat) + ")"@,
{
    let prefix = match stage {
        ConnectStage::CreateMapping => String::from_str("failed to create/open FreeTrack shared memory"),
        ConnectStage::MapView => String::from_str("failed to map FreeTrack shared memory"),
        ConnectStage::CreateMutex => String::from_str("failed to create/open FreeTrack mutex"),
    };
    let code = decimal_string(last_error as u64);
    AppError::InvalidState(prefix.concat(" (GetLastError=").concat(code.as_str()).concat(")"))
}

} // verus!
