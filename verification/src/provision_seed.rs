//! Provisioning seed — the host↔bootloader contract for setting a board's
//! node-id over SWD in the same step that burns the bootloader.
//!
//! The SWD tool writes a fixed 32-byte record at a reserved flash address;
//! the bootloader reads it on first boot and translates it into its own NVM
//! entry. The layout is a byte-for-byte mirror of the bootloader's
//! `bl_provision_seed_t`; if the two disagree the bootloader silently rejects
//! the seed. A bootloader without seed support ignores the word entirely, so
//! [`elf_supports_seed`] checks an image's symbol table first.

use vstd::prelude::*;

use object::{Object, ObjectSymbol};
use vstd::string::{StringExecFns, StringSliceAdditionalSpecFns};

use crate::bytes::{le_u32, le_u32_byte, le_u32_of, lemma_be_u32_round_trip};
use crate::crc::{crc32, crc32_spec};
use crate::text::{append_hex, hex_text};

verus! {

/// Reserved flash address for the seed — one STM32H7 256-bit flashword just
/// below the app-metadata word.
pub const SEED_ADDR: u64 = 0x080F_FFC0;

/// Magic marking a valid seed (vs. erased `0xFFFFFFFF` flash or garbage).
/// Little-endian in the record.
pub const SEED_MAGIC: u32 = 0xB007_0D1D;

/// Size of the seed record — a full H7 flashword.
pub const SEED_LEN: usize = 32;

/// Bytes the CRC covers: everything before the `crc32` field.
pub const CRC_COVERED: usize = 8;

/// Largest assignable node-id (0x0 is the host, 0xF is broadcast).
pub const MAX_NODE_ID: u8 = 0x0E;

/// The bootloader function that consumes the seed at boot. Its definition
/// in a bootloader ELF's symbol table is how an image is known to support
/// seeding.
pub const SEED_CONSUMER_SYMBOL: &'static str = "bl_provision_consume_seed";

/// Whether a node-id can be assigned to a board.
pub open spec fn assignable(node_id: u8) -> bool {
    1 <= node_id <= MAX_NODE_ID
}

/// The eight bytes the CRC covers: magic (LE), node-id, its complement, and
/// the reserved `0xFFFF`.
pub open spec fn seed_head(node_id: u8) -> Seq<u8> {
    seq![
        le_u32_byte(SEED_MAGIC, 0),
        le_u32_byte(SEED_MAGIC, 1),
        le_u32_byte(SEED_MAGIC, 2),
        le_u32_byte(SEED_MAGIC, 3),
        node_id,
        !node_id,
        0xFFu8,
        0xFFu8,
    ]
}

/// The whole 32-byte seed record for `node_id`: the head, its CRC-32
/// (LE), then twenty bytes of erased flash.
pub open spec fn seed_record(node_id: u8) -> Seq<u8> {
    let c = crc32_spec(seed_head(node_id));
    seed_head(node_id) + seq![
        le_u32_byte(c, 0),
        le_u32_byte(c, 1),
        le_u32_byte(c, 2),
        le_u32_byte(c, 3),
    ] + Seq::new(20, |i: int| 0xFFu8)
}

/// The node-id the bootloader would take from `rec`: `None` unless the magic,
/// the complement, the range and the CRC all check out.
pub open spec fn seed_node_id(rec: Seq<u8>) -> Option<u8> {
    if rec.len() < CRC_COVERED + 4 {
        None
    } else if le_u32_of(rec[0], rec[1], rec[2], rec[3]) != SEED_MAGIC {
        None
    } else if rec[5] != !rec[4] {
        None
    } else if !assignable(rec[4]) {
        None
    } else if crc32_spec(rec.take(CRC_COVERED as int)) != le_u32_of(
        rec[8],
        rec[9],
        rec[10],
        rec[11],
    ) {
        None
    } else {
        Some(rec[4])
    }
}

/// Why a node-id can't be assigned.
pub open spec fn unassignable_text(node_id: u8) -> Seq<char> {
    "node-id 0x"@ + hex_text(node_id as nat) + " is not assignable (must be 0x1..=0x"@ + hex_text(
        MAX_NODE_ID as nat,
    ) + "; 0x0 is the host, 0xF is broadcast)"@
}

/// Operator message for an unassignable node-id.
fn unassignable_message(node_id: u8) -> (r: String)
    ensures
        r@ == unassignable_text(node_id),
{
    let mut m = String::from_str("node-id 0x");
    append_hex(&mut m, node_id as u64);
    m.append(" is not assignable (must be 0x1..=0x");
    append_hex(&mut m, MAX_NODE_ID as u64);
    m.append("; 0x0 is the host, 0xF is broadcast)");
    m
}

/// Build the 32-byte seed flashword for `node_id` (all little-endian):
/// magic, `node_id`, `!node_id`, reserved `0xFFFF`, CRC-32/ISO-HDLC over the
/// first eight bytes, then `0xFF` padding. `Err` for an unassignable
/// node-id (must be `1..=0xE`).
pub fn build_seed_record(node_id: u8) -> (r: Result<[u8; SEED_LEN], String>)
    ensures
        r is Ok <==> assignable(node_id),
        r matches Ok(rec) ==> rec@ == seed_record(node_id),
        r matches Err(e) ==> e@ == unassignable_text(node_id),
{
    if node_id == 0 || node_id > MAX_NODE_ID {
        return Err(unassignable_message(node_id));
    }
    let m0 = SEED_MAGIC as u8;
    let m1 = (SEED_MAGIC >> 8u32) as u8;
    let m2 = (SEED_MAGIC >> 16u32) as u8;
    let m3 = (SEED_MAGIC >> 24u32) as u8;
    let check = !node_id;
    let mut head: Vec<u8> = Vec::new();
    head.push(m0);
    head.push(m1);
    head.push(m2);
    head.push(m3);
    head.push(node_id);
    head.push(check);
    head.push(0xFFu8);
    head.push(0xFFu8);
    assert(head@ =~= seed_head(node_id));
    let crc = crc32(head.as_slice());
    let c0 = crc as u8;
    let c1 = (crc >> 8u32) as u8;
    let c2 = (crc >> 16u32) as u8;
    let c3 = (crc >> 24u32) as u8;
    let rec: [u8; SEED_LEN] = [
        m0, m1, m2, m3, node_id, check, 0xFF, 0xFF, c0, c1, c2, c3,
        0xFF, 0xFF, 0xFF, 0xFF, 0xFF, 0xFF, 0xFF, 0xFF, 0xFF, 0xFF,
        0xFF, 0xFF, 0xFF, 0xFF, 0xFF, 0xFF, 0xFF, 0xFF, 0xFF, 0xFF,
    ];
    assert(rec@ =~= seed_record(node_id));
    Ok(rec)
}

/// Read back the node-id a seed record encodes, applying the same checks the
/// bootloader does (magic, complement, range, CRC). `None` when the bytes
/// aren't a seed the bootloader would accept.
pub fn parse_seed_record(rec: &[u8]) -> (r: Option<u8>)
    ensures
        r == seed_node_id(rec@),
{
    if rec.len() < CRC_COVERED + 4 {
        return None;
    }
    let magic = le_u32(rec[0], rec[1], rec[2], rec[3]);
    if magic != SEED_MAGIC {
        return None;
    }
    let node_id = rec[4];
    if rec[5] != !node_id {
        return None;
    }
    if node_id == 0 || node_id > MAX_NODE_ID {
        return None;
    }
    let stored = le_u32(rec[8], rec[9], rec[10], rec[11]);
    let mut head: Vec<u8> = Vec::new();
    let mut i: usize = 0;
    while i < CRC_COVERED
        invariant
            i <= CRC_COVERED,
            rec@.len() >= CRC_COVERED + 4,
            head@ == rec@.take(i as int),
        decreases CRC_COVERED - i,
    {
        head.push(rec[i]);
        i = i + 1;
        assert(head@ =~= rec@.take(i as int));
    }
    if crc32(head.as_slice()) != stored {
        return None;
    }
    Some(node_id)
}

/// Every assignable node-id survives a build and a parse: the record built
/// for it is one the bootloader accepts, and it yields the same node-id.
pub proof fn lemma_build_then_parse_round_trips(node_id: u8)
    requires
        assignable(node_id),
    ensures
        seed_node_id(seed_record(node_id)) == Some(node_id),
{
    let rec = seed_record(node_id);
    let c = crc32_spec(seed_head(node_id));
    lemma_be_u32_round_trip(SEED_MAGIC);
    lemma_be_u32_round_trip(c);
    assert(rec.take(CRC_COVERED as int) =~= seed_head(node_id));
    assert(rec[0] == le_u32_byte(SEED_MAGIC, 0));
    assert(rec[8] == le_u32_byte(c, 0));
    assert(rec[11] == le_u32_byte(c, 3));
}

/// Node-ids 1 to 14 are the assignable ones: 0 is the host, 15 broadcast.
pub proof fn lemma_assignable_node_ids(node_id: u8)
    ensures
        assignable(node_id) <==> 1 <= node_id <= 14,
{
}

/// The record built for an assignable node-id `n`, byte for byte as the
/// bootloader's `bl_provision_seed_t`: the magic `0xB0070D1D` little-endian
/// in bytes 0-3, `n` in byte 4, its complement `255 - n` in byte 5, the
/// reserved bytes 6 and 7 left erased at `0xFF`, in bytes 8-11 the CRC-32 of
/// bytes 0-7 little-endian, and bytes 12-31 erased at `0xFF`.
pub proof fn lemma_seed_record_layout(n: u8)
    requires
        1 <= n <= 14,
    ensures
        ({
            let rec = seed_record(n);
            &&& rec.len() == 32
            &&& rec[0] == 0x1D && rec[1] == 0x0D && rec[2] == 0x07 && rec[3] == 0xB0
            &&& rec[4] == n
            &&& rec[5] == 255 - n
            &&& rec[6] == 0xFF && rec[7] == 0xFF
            &&& rec[8] as int + rec[9] as int * 0x100 + rec[10] as int * 0x1_0000 + rec[11] as int
                * 0x100_0000 == crc32_spec(rec.subrange(0, 8))
            &&& forall|i: int| 12 <= i < 32 ==> rec[i] == 0xFF
        }),
{
    let rec = seed_record(n);
    let c = crc32_spec(seed_head(n));
    assert(rec.subrange(0, 8) =~= seed_head(n));
    assert((0xB007_0D1Du32 as u8) == 0x1D && ((0xB007_0D1Du32 >> 8u32) as u8) == 0x0D && ((
    0xB007_0D1Du32 >> 16u32) as u8) == 0x07 && ((0xB007_0D1Du32 >> 24u32) as u8) == 0xB0)
        by (bit_vector);
    assert((!n) as int == 255 - n as int) by (bit_vector);
    assert((c as u8) as int + ((c >> 8u32) as u8) as int * 0x100 + ((c >> 16u32) as u8) as int
        * 0x1_0000 + ((c >> 24u32) as u8) as int * 0x100_0000 == c) by (bit_vector);
}

/// A record is accepted exactly when it holds at least twelve bytes, starts
/// with the magic `1D 0D 07 B0`, byte 5 is the complement `255 - byte 4`,
/// byte 4 is an assignable node-id 1 to 14, and bytes 8-11 hold the CRC-32
/// of bytes 0-7 little-endian; the node-id it yields is then byte 4.
pub proof fn lemma_seed_acceptance(rec: Seq<u8>)
    ensures
        seed_node_id(rec) is Some <==> (rec.len() >= 12 && rec[0] == 0x1D && rec[1] == 0x0D
            && rec[2] == 0x07 && rec[3] == 0xB0 && rec[5] == 255 - rec[4] && 1 <= rec[4] <= 14
            && rec[8] as int + rec[9] as int * 0x100 + rec[10] as int * 0x1_0000 + rec[11] as int
            * 0x100_0000 == crc32_spec(rec.subrange(0, 8))),
        seed_node_id(rec) matches Some(n) ==> n == rec[4],
{
    if rec.len() >= 12 {
        let b0 = rec[0];
        let b1 = rec[1];
        let b2 = rec[2];
        let b3 = rec[3];
        assert((b3 as int * 0x100_0000 + b2 as int * 0x1_0000 + b1 as int * 0x100 + b0 as int
            == 0xB007_0D1D) <==> (b0 == 0x1D && b1 == 0x0D && b2 == 0x07 && b3 == 0xB0))
            by (bit_vector);
        let x = rec[4];
        assert((!x) as int == 255 - x as int) by (bit_vector);
        assert(rec.take(8) =~= rec.subrange(0, 8));
    }
}

// ---- Seed support of a bootloader image ---------------------------

/// Whether a bootloader image can adopt a provisioning seed.
#[derive(Debug, Clone, PartialEq, Eq)]
pub enum SeedSupport {
    /// The image defines [`SEED_CONSUMER_SYMBOL`].
    Supported,
    /// An ELF without the consumer — a bootloader that predates seed support.
    NotSupported,
    /// Can't tell from this file (no symbol table).
    Unverifiable(String),
}

/// Why a stripped ELF can't answer.
pub const STRIPPED_ELF_MESSAGE: &'static str =
    "the ELF has no symbol table (stripped), so its seed support can't be checked";

/// One entry of an object file's symbol table, as the seed check reads it.
#[derive(Debug, PartialEq, Eq)]
pub struct ElfSymbol {
    /// The symbol's name bytes; `None` when the string table can't supply
    /// them.
    pub name: Option<Vec<u8>>,
    /// Whether the symbol is a definition (not an undefined reference).
    pub is_definition: bool,
}

impl ElfSymbol {
    /// The symbol as plain values: name bytes and definition flag.
    pub open spec fn as_plain(self) -> (Option<Seq<u8>>, bool) {
        (
            match self.name {
                Some(n) => Some(n@),
                None => None,
            },
            self.is_definition,
        )
    }
}

/// The symbols of a symbol list, as plain values.
pub open spec fn plain_symbols(syms: Seq<ElfSymbol>) -> Seq<(Option<Seq<u8>>, bool)> {
    syms.map_values(|s: ElfSymbol| s.as_plain())
}

/// The symbol table `object` reads from the bytes of an object file, in its
/// iteration order, or the text of its parse error.
pub uninterp spec fn elf_symbols_of(bytes: Seq<u8>) -> Result<Seq<(Option<Seq<u8>>, bool)>, Seq<char>>;

/// A symbol-table read outcome as plain values.
pub open spec fn plain_table(r: Result<Vec<ElfSymbol>, String>) -> Result<
    Seq<(Option<Seq<u8>>, bool)>,
    Seq<char>,
> {
    match r {
        Ok(v) => Ok(plain_symbols(v@)),
        Err(e) => Err(e@),
    }
}

/// Parse an object file with `object::File::parse` and list its symbols
/// (`Object::symbols`) as name bytes (`ObjectSymbol::name_bytes`, `None` on
/// error) and `ObjectSymbol::is_definition`. Claimed: the outcome is a
/// function of the bytes alone, named [`elf_symbols_of`].
#[verifier::external_body]
fn read_symbol_table(bytes: &[u8]) -> (r: Result<Vec<ElfSymbol>, String>)
    ensures
        plain_table(r) == elf_symbols_of(bytes@),
{
    match object::File::parse(bytes) {
        Ok(file) => Ok(
            file.symbols().map(
                |s| ElfSymbol { name: s.name_bytes().ok().map(|n| n.to_vec()), is_definition: s.is_definition() },
            ).collect(),
        ),
        Err(e) => Err(e.to_string()),
    }
}

/// Whether some symbol is a definition named [`SEED_CONSUMER_SYMBOL`].
pub open spec fn defines_consumer(syms: Seq<(Option<Seq<u8>>, bool)>) -> bool {
    exists|i: int|
        0 <= i < syms.len() && syms[i].1 && syms[i].0 == Some(SEED_CONSUMER_SYMBOL.spec_bytes())
}

/// The verdict for a symbol table: an empty one can't answer; otherwise the
/// image is supported exactly when it defines the consumer.
pub open spec fn verdict_matches(s: SeedSupport, syms: Seq<(Option<Seq<u8>>, bool)>) -> bool {
    if syms.len() == 0 {
        s matches SeedSupport::Unverifiable(m) && m@ == STRIPPED_ELF_MESSAGE@
    } else if defines_consumer(syms) {
        s is Supported
    } else {
        s is NotSupported
    }
}

fn bytes_equal(a: &[u8], b: &[u8]) -> (r: bool)
    ensures
        r == (a@ == b@),
{
    if a.len() != b.len() {
        return false;
    }
    let mut i: usize = 0;
    while i < a.len()
        invariant
            i <= a@.len(),
            a@.len() == b@.len(),
            forall|j: int| 0 <= j < i ==> a@[j] == b@[j],
        decreases a@.len() - i,
    {
        if a[i] != b[i] {
            return false;
        }
        i = i + 1;
    }
    assert(a@ =~= b@);
    true
}

/// Decide seed support from a symbol table already read: an empty table (a
/// stripped ELF) is [`SeedSupport::Unverifiable`]; otherwise the image is
/// [`SeedSupport::Supported`] exactly when some symbol is a definition named
/// [`SEED_CONSUMER_SYMBOL`] — a look-alike name does not count.
pub fn seed_support_from_symbols(symbols: &Vec<ElfSymbol>) -> (r: SeedSupport)
    ensures
        verdict_matches(r, plain_symbols(symbols@)),
{
    let ghost plain = plain_symbols(symbols@);
    if symbols.len() == 0 {
        return SeedSupport::Unverifiable(STRIPPED_ELF_MESSAGE.to_owned());
    }
    let consumer = SEED_CONSUMER_SYMBOL.as_bytes();
    let mut i: usize = 0;
    while i < symbols.len()
        invariant
            i <= symbols@.len(),
            plain == plain_symbols(symbols@),
            consumer@ == SEED_CONSUMER_SYMBOL.spec_bytes(),
            forall|j: int|
                0 <= j < i ==> !(plain[j].1 && plain[j].0 == Some(
                    SEED_CONSUMER_SYMBOL.spec_bytes(),
                )),
        decreases symbols@.len() - i,
    {
        let sym = &symbols[i];
        let hit = match &sym.name {
            Some(n) => sym.is_definition && bytes_equal(n.as_slice(), consumer),
            None => false,
        };
        assert(plain[i as int] == symbols@[i as int].as_plain());
        if hit {
            return SeedSupport::Supported;
        }
        i = i + 1;
    }
    SeedSupport::NotSupported
}

/// Inspect ELF bytes already in memory for seed support. `Err` carries the
/// parser's message when the bytes are not an object file it can read.
pub fn elf_supports_seed(bytes: &[u8]) -> (r: Result<SeedSupport, String>)
    ensures
        r is Ok <==> elf_symbols_of(bytes@) is Ok,
        r matches Ok(s) ==> verdict_matches(s, elf_symbols_of(bytes@)->Ok_0),
        r matches Err(e) ==> elf_symbols_of(bytes@) matches Err(m) && m == e@,
{
    match read_symbol_table(bytes) {
        Ok(symbols) => Ok(seed_support_from_symbols(&symbols)),
        Err(e) => Err(e),
    }
}

/// ASCII lower-casing of one byte; other bytes are unchanged.
pub open spec fn ascii_lower(b: u8) -> u8 {
    if 0x41 <= b <= 0x5A {
        (b + 0x20) as u8
    } else {
        b
    }
}

/// Whether a file extension names an ELF image (`elf`, any ASCII case).
pub open spec fn names_elf(ext: Seq<u8>) -> bool {
    ext.len() == 3 && ascii_lower(ext[0]) == 0x65 && ascii_lower(ext[1]) == 0x6C
        && ascii_lower(ext[2]) == 0x66
}

fn to_ascii_lower(b: u8) -> (r: u8)
    ensures
        r == ascii_lower(b),
{
    if 0x41 <= b && b <= 0x5A {
        b + 0x20
    } else {
        b
    }
}

/// Whether a bootloader image's file extension says it is an ELF — the only
/// kind with a symbol table; `.hex` / `.bin` images can't be checked.
pub fn is_elf_extension(ext: &[u8]) -> (r: bool)
    ensures
        r == names_elf(ext@),
{
    ext.len() == 3 && to_ascii_lower(ext[0]) == 0x65 && to_ascii_lower(ext[1]) == 0x6C
        && to_ascii_lower(ext[2]) == 0x66
}


/// An image is taken for an ELF exactly when its extension is the three
/// letters `e`, `l`, `f`, each in either case.
pub proof fn lemma_elf_extensions(ext: Seq<u8>)
    ensures
        names_elf(ext) <==> (ext.len() == 3 && (ext[0] == 0x65 || ext[0] == 0x45) && (ext[1] == 0x6C
            || ext[1] == 0x4C) && (ext[2] == 0x66 || ext[2] == 0x46)),
{
}
} // verus!
