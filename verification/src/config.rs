//! The configuration record that the managed side hands over during the handoff.
//!
//! The record crosses a foreign ABI as a block of bytes with a fixed layout:
//!
//! | offset | size | field                                   |
//! |--------|------|-----------------------------------------|
//! | 0      | 1    | `RunModeFull`, one byte                 |
//! | 1      | 1    | `LoadModsOnStart`, one byte             |
//! | 2      | 512  | `InputProfile`, NUL-terminated name     |
//!
//! Each flag occupies exactly one byte. A producer that writes a flag as a wider
//! platform boolean moves the profile name away from offset 2, so the layout is
//! spelled out here as a function on bytes and proved to round-trip.
use vstd::prelude::*;

verus! {

/// Number of bytes reserved for the profile name, terminator included.
pub const PROFILE_CAPACITY: usize = 512;

/// Number of single-byte flags in front of the profile name.
pub const FLAG_BYTES: usize = 2;

/// Size in bytes of a marshalled configuration record.
pub const RECORD_SIZE: usize = 514;

/// Configuration handed over by the managed side, owned by the native side afterwards.
#[allow(non_snake_case)]
#[derive(Clone, Copy, Debug, PartialEq, Eq)]
pub struct ConfData {
    pub RunModeFull: bool,
    pub LoadModsOnStart: bool,
    pub InputProfile: [u8; 512],
}

/// Mathematical model of a configuration record.
pub struct ConfView {
    pub run_mode_full: bool,
    pub load_mods_on_start: bool,
    /// The whole profile buffer, terminator and padding included.
    pub input_profile: Seq<u8>,
}

impl View for ConfData {
    type V = ConfView;

    open spec fn view(&self) -> ConfView {
        ConfView {
            run_mode_full: self.RunModeFull,
            load_mods_on_start: self.LoadModsOnStart,
            input_profile: self.InputProfile@,
        }
    }
}

/// Position of the first NUL byte in `buf`, or `buf.len()` when there is none.
pub open spec fn nul_position(buf: Seq<u8>) -> nat
    decreases buf.len(),
{
    if buf.len() == 0 || buf[0] == 0 {
        0
    } else {
        1 + nul_position(buf.drop_first())
    }
}

/// The bytes of `buf` in front of its first NUL byte: the string a C reader sees.
pub open spec fn c_string(buf: Seq<u8>) -> Seq<u8> {
    buf.take(nul_position(buf) as int)
}

/// A name that a profile buffer can hold: room is left for the terminator, and no
/// byte of the name is itself a terminator.
pub open spec fn fits_profile(name: Seq<u8>) -> bool {
    &&& name.len() < PROFILE_CAPACITY
    &&& forall|i: int| 0 <= i < name.len() ==> name[i] != 0
}

/// `name` followed by NUL bytes up to the capacity of the profile buffer.
pub open spec fn padded_profile(name: Seq<u8>) -> Seq<u8> {
    Seq::new(
        PROFILE_CAPACITY as nat,
        |i: int|
            if i < name.len() {
                name[i]
            } else {
                0u8
            },
    )
}

/// The single byte that stands for a flag.
pub open spec fn flag_byte(flag: bool) -> u8 {
    if flag {
        1
    } else {
        0
    }
}

/// The marshalled form of a record: the two flag bytes, then the profile buffer.
pub open spec fn record_bytes(v: ConfView) -> Seq<u8> {
    seq![flag_byte(v.run_mode_full), flag_byte(v.load_mods_on_start)] + v.input_profile
}

/// The record that a block of bytes stands for; `None` unless the block has the
/// size of a record. A flag is set when its byte is nonzero.
pub open spec fn parse_record(bytes: Seq<u8>) -> Option<ConfView> {
    if bytes.len() == RECORD_SIZE {
        Some(
            ConfView {
                run_mode_full: bytes[0] != 0,
                load_mods_on_start: bytes[1] != 0,
                input_profile: bytes.subrange(FLAG_BYTES as int, RECORD_SIZE as int),
            },
        )
    } else {
        None
    }
}

/// `n` is where the C string in `buf` ends: nothing before it is NUL, and it is
/// either the end of the buffer or a NUL byte.
pub open spec fn ends_c_string(buf: Seq<u8>, n: int) -> bool {
    &&& 0 <= n <= buf.len()
    &&& forall|i: int| 0 <= i < n ==> buf[i] != 0
    &&& n < buf.len() ==> buf[n] == 0
}

/// The position that `ends_c_string` describes is `nul_position`, and no other.
pub proof fn lemma_nul_position(buf: Seq<u8>, n: int)
    requires
        ends_c_string(buf, n),
    ensures
        nul_position(buf) == n,
    decreases buf.len(),
{
    if buf.len() == 0 || buf[0] == 0 {
        if n > 0 {
            assert(buf[0] != 0);
        }
    } else {
        let rest = buf.drop_first();
        assert(n > 0);
        assert forall|i: int| 0 <= i < n - 1 implies rest[i] != 0 by {
            assert(rest[i] == buf[i + 1]);
        }
        lemma_nul_position(rest, n - 1);
    }
}

/// `nul_position` always satisfies `ends_c_string`.
pub proof fn lemma_nul_position_ends(buf: Seq<u8>)
    ensures
        ends_c_string(buf, nul_position(buf) as int),
    decreases buf.len(),
{
    if buf.len() == 0 || buf[0] == 0 {
    } else {
        let rest = buf.drop_first();
        lemma_nul_position_ends(rest);
        let n = nul_position(buf) as int;
        assert forall|i: int| 0 <= i < n implies buf[i] != 0 by {
            if i > 0 {
                assert(rest[i - 1] == buf[i]);
            }
        }
        if n < buf.len() {
            assert(rest[n - 1] == buf[n]);
        }
    }
}

/// A name that fits is read back unchanged from the buffer it was padded into.
pub proof fn lemma_profile_reads_back(name: Seq<u8>)
    requires
        fits_profile(name),
    ensures
        c_string(padded_profile(name)) == name,
{
    let buf = padded_profile(name);
    lemma_nul_position(buf, name.len() as int);
    assert(buf.take(name.len() as int) =~= name);
}

/// Marshalling a record and parsing the bytes gives the record back: both flags
/// and every byte of the profile buffer.
pub proof fn lemma_parse_record_bytes(v: ConfView)
    requires
        v.input_profile.len() == PROFILE_CAPACITY,
    ensures
        parse_record(record_bytes(v)) == Some(v),
{
    let bytes = record_bytes(v);
    assert(bytes.subrange(FLAG_BYTES as int, RECORD_SIZE as int) =~= v.input_profile);
}

/// Parsing a block whose flag bytes are 0 or 1 and marshalling the record gives the
/// block back.
pub proof fn lemma_record_bytes_parse(bytes: Seq<u8>)
    requires
        bytes.len() == RECORD_SIZE,
        bytes[0] <= 1,
        bytes[1] <= 1,
    ensures
        record_bytes(parse_record(bytes)->0) == bytes,
{
    assert(record_bytes(parse_record(bytes)->0) =~= bytes);
}

/// A record as a producer writes it that widens each flag to a four-byte boolean.
pub open spec fn widened_record_bytes(v: ConfView) -> Seq<u8> {
    seq![flag_byte(v.run_mode_full), 0u8, 0u8, 0u8]
        + seq![flag_byte(v.load_mods_on_start), 0u8, 0u8, 0u8] + v.input_profile
}

/// A flag written four bytes wide pushes the profile name off its offset: a reader
/// of the one-byte layout then finds padding where the name should start, and reads
/// an empty name.
pub proof fn lemma_widened_flags_corrupt_profile(v: ConfView)
    requires
        v.input_profile.len() == PROFILE_CAPACITY,
        v.input_profile[0] != 0,
    ensures
        parse_record(widened_record_bytes(v).take(RECORD_SIZE as int)) is Some,
        parse_record(widened_record_bytes(v).take(RECORD_SIZE as int))->0.input_profile
            != v.input_profile,
        c_string(
            parse_record(widened_record_bytes(v).take(RECORD_SIZE as int))->0.input_profile,
        ).len() == 0,
{
    let widened = widened_record_bytes(v);
    let read = parse_record(widened.take(RECORD_SIZE as int))->0;
    assert(read.input_profile[0] == widened[2]);
    assert(widened[2] == 0);
}

/// Two records with the same model are the same record.
pub proof fn lemma_view_injective(a: ConfData, b: ConfData)
    requires
        a@ == b@,
    ensures
        a == b,
{
    assert(a.InputProfile =~= b.InputProfile);
}

impl ConfData {
    /// The profile name held in the buffer: the bytes in front of the first NUL.
    pub open spec fn spec_profile_name(&self) -> Seq<u8> {
        c_string(self.InputProfile@)
    }

    /// Builds a record from its three values.
    ///
    /// Returns `None` when the name cannot be stored: it is too long to leave room
    /// for the terminator, or it holds a NUL byte.
    pub fn new(run_mode_full: bool, load_mods_on_start: bool, profile: &[u8]) -> (r: Option<
        ConfData,
    >)
        ensures
            r is Some <==> fits_profile(profile@),
            r matches Some(c) ==> c.RunModeFull == run_mode_full && c.LoadModsOnStart
                == load_mods_on_start && c.InputProfile@ == padded_profile(profile@),
            r matches Some(c) ==> c.spec_profile_name() == profile@,
    {
        let n = profile.len();
        if n >= PROFILE_CAPACITY {
            return None;
        }
        let mut buf: [u8; 512] = [0u8; 512];
        let mut i: usize = 0;
        while i < n
            invariant
                i <= n,
                n == profile@.len(),
                n < PROFILE_CAPACITY,
                forall|j: int| 0 <= j < i ==> profile@[j] != 0 && buf@[j] == profile@[j],
                forall|j: int| i <= j < PROFILE_CAPACITY ==> buf@[j] == 0,
            decreases n - i,
        {
            let b = profile[i];
            if b == 0 {
                return None;
            }
            buf[i] = b;
            i = i + 1;
        }
        proof {
            assert(buf@ =~= padded_profile(profile@));
            lemma_profile_reads_back(profile@);
        }
        Some(
            ConfData {
                RunModeFull: run_mode_full,
                LoadModsOnStart: load_mods_on_start,
                InputProfile: buf,
            },
        )
    }

    /// Reads the profile name out of the buffer.
    pub fn profile_name(&self) -> (name: Vec<u8>)
        ensures
            name@ == self.spec_profile_name(),
    {
        let mut name: Vec<u8> = Vec::new();
        let mut i: usize = 0;
        while i < PROFILE_CAPACITY && self.InputProfile[i] != 0
            invariant
                i <= PROFILE_CAPACITY,
                name@ == self.InputProfile@.take(i as int),
                forall|j: int| 0 <= j < i ==> self.InputProfile@[j] != 0,
            decreases PROFILE_CAPACITY - i,
        {
            name.push(self.InputProfile[i]);
            i = i + 1;
            assert(name@ =~= self.InputProfile@.take(i as int));
        }
        proof {
            lemma_nul_position(self.InputProfile@, i as int);
        }
        name
    }

    /// Reads a record out of its marshalled form.
    ///
    /// Returns `None` exactly when `bytes` does not have the size of a record.
    pub fn from_bytes(bytes: &[u8]) -> (r: Option<ConfData>)
        ensures
            r is Some <==> bytes@.len() == RECORD_SIZE,
            r matches Some(c) ==> parse_record(bytes@) == Some(c@),
    {
        if bytes.len() != RECORD_SIZE {
            return None;
        }
        let mut buf: [u8; 512] = [0u8; 512];
        let mut i: usize = 0;
        while i < PROFILE_CAPACITY
            invariant
                i <= PROFILE_CAPACITY,
                bytes@.len() == RECORD_SIZE,
                forall|j: int| 0 <= j < i ==> buf@[j] == bytes@[j + 2],
            decreases PROFILE_CAPACITY - i,
        {
            buf[i] = bytes[i + FLAG_BYTES];
            i = i + 1;
        }
        assert(buf@ =~= bytes@.subrange(FLAG_BYTES as int, RECORD_SIZE as int));
        Some(ConfData { RunModeFull: bytes[0] != 0, LoadModsOnStart: bytes[1] != 0, InputProfile: buf })
    }

    /// Writes the record in its marshalled form.
    pub fn to_bytes(&self) -> (bytes: Vec<u8>)
        ensures
            bytes@ == record_bytes(self@),
    {
        let mut bytes: Vec<u8> = Vec::new();
        bytes.push(if self.RunModeFull { 1u8 } else { 0u8 });
        bytes.push(if self.LoadModsOnStart { 1u8 } else { 0u8 });
        let mut i: usize = 0;
        while i < PROFILE_CAPACITY
            invariant
                i <= PROFILE_CAPACITY,
                bytes@ == seq![flag_byte(self.RunModeFull), flag_byte(self.LoadModsOnStart)]
                    + self.InputProfile@.take(i as int),
            decreases PROFILE_CAPACITY - i,
        {
            bytes.push(self.InputProfile[i]);
            i = i + 1;
            assert(bytes@ =~= seq![flag_byte(self.RunModeFull), flag_byte(self.LoadModsOnStart)]
                + self.InputProfile@.take(i as int));
        }
        assert(self.InputProfile@.take(PROFILE_CAPACITY as int) =~= self.InputProfile@);
        bytes
    }
}

} // verus!
