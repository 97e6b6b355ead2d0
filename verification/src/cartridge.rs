//! Cartridge loading: header parsing + validation, and MBC0/1/2/3/5 bank
//! switching.
//!
//! `Cartridge::from_rom_bytes` parses the header at 0x0100-0x014F, picks
//! the MBC implied by the cart type byte, and returns both the cartridge
//! and a list of non-fatal validation warnings (bad checksum, ROM size
//! mismatch, unsupported cart type — the header is trusted and loading
//! proceeds regardless, matching real hardware's "just try to run it"
//! behavior).
//!
//! Battery-backed RAM persistence is a save/load of raw bytes
//! ([`Cartridge::battery_ram`]/[`Cartridge::load_battery_ram`]) plus a
//! dirty flag ([`Cartridge::is_battery_dirty`]); actual `.sav` file I/O is
//! the frontend's job.
use vstd::prelude::*;
use vstd::string::StringExecFns;
use crate::text::{hex2, dec, push_hex2, push_dec, utf8_lossy, lossy_string, all_ascii};

verus! {

pub const ROM_BANK_SIZE: usize = 0x4000;
pub const RAM_BANK_SIZE: usize = 0x2000;
/// MBC2's RAM is 512 x 4-bit nibbles built into the MBC chip itself, not a
/// separately sized external RAM chip.
pub const MBC2_RAM_NIBBLES: usize = 512;

pub const TITLE_START: usize = 0x0134;
pub const TITLE_END: usize = 0x0144;
pub const CART_TYPE_ADDR: usize = 0x0147;
pub const ROM_SIZE_ADDR: usize = 0x0148;
pub const RAM_SIZE_ADDR: usize = 0x0149;
pub const HEADER_CHECKSUM_ADDR: usize = 0x014D;
pub const HEADER_CHECKSUM_START: usize = 0x0134;
pub const HEADER_CHECKSUM_END: usize = 0x014D;
pub const HEADER_MIN_LEN: usize = 0x0150;

/// DMG CPU clock, T-cycles/second — used to pace the MBC3 RTC off elapsed
/// emulated cycles rather than wall-clock time.
pub const CYCLES_PER_SECOND: u32 = 4_194_304;

#[derive(Debug, Clone, Copy, PartialEq, Eq, Structural)]
pub enum MbcType {
    RomOnly,
    Mbc1,
    Mbc2,
    Mbc3,
    Mbc5,
    /// Cart type byte doesn't map to a supported MBC. Treated like `RomOnly`
    /// (fixed 32KB, no RAM) so loading still proceeds; a warning is
    /// returned from `from_rom_bytes`.
    Unsupported,
}

#[derive(Debug)]
pub struct Header {
    pub title: String,
    pub cart_type: u8,
    pub mbc: MbcType,
    pub rom_banks: usize,
    pub ram_banks: usize,
    pub has_ram: bool,
    pub has_battery: bool,
    pub has_rtc: bool,
    pub has_rumble: bool,
    pub header_checksum_valid: bool,
}

/// Cart-type byte -> (MBC, has_ram, has_battery, has_rtc, has_rumble).
/// MBC2 always has RAM (its built-in nibble RAM) regardless of the RAM
/// size byte.
pub open spec fn mbc_traits_spec(cart_type: u8) -> (MbcType, bool, bool, bool, bool) {
    if cart_type == 0x00 {
        (MbcType::RomOnly, false, false, false, false)
    } else if cart_type == 0x01 {
        (MbcType::Mbc1, false, false, false, false)
    } else if cart_type == 0x02 {
        (MbcType::Mbc1, true, false, false, false)
    } else if cart_type == 0x03 {
        (MbcType::Mbc1, true, true, false, false)
    } else if cart_type == 0x05 {
        (MbcType::Mbc2, true, false, false, false)
    } else if cart_type == 0x06 {
        (MbcType::Mbc2, true, true, false, false)
    } else if cart_type == 0x08 {
        (MbcType::RomOnly, true, false, false, false)
    } else if cart_type == 0x09 {
        (MbcType::RomOnly, true, true, false, false)
    } else if cart_type == 0x0F {
        (MbcType::Mbc3, false, true, true, false)
    } else if cart_type == 0x10 {
        (MbcType::Mbc3, true, true, true, false)
    } else if cart_type == 0x11 {
        (MbcType::Mbc3, false, false, false, false)
    } else if cart_type == 0x12 {
        (MbcType::Mbc3, true, false, false, false)
    } else if cart_type == 0x13 {
        (MbcType::Mbc3, true, true, false, false)
    } else if cart_type == 0x19 {
        (MbcType::Mbc5, false, false, false, false)
    } else if cart_type == 0x1A {
        (MbcType::Mbc5, true, false, false, false)
    } else if cart_type == 0x1B {
        (MbcType::Mbc5, true, true, false, false)
    } else if cart_type == 0x1C {
        (MbcType::Mbc5, false, false, false, true)
    } else if cart_type == 0x1D {
        (MbcType::Mbc5, true, false, false, true)
    } else if cart_type == 0x1E {
        (MbcType::Mbc5, true, true, false, true)
    } else {
        (MbcType::Unsupported, false, false, false, false)
    }
}

fn mbc_traits(cart_type: u8) -> (r: (MbcType, bool, bool, bool, bool))
    ensures
        r == mbc_traits_spec(cart_type),
{
    match cart_type {
        0x00 => (MbcType::RomOnly, false, false, false, false),
        0x01 => (MbcType::Mbc1, false, false, false, false),
        0x02 => (MbcType::Mbc1, true, false, false, false),
        0x03 => (MbcType::Mbc1, true, true, false, false),
        0x05 => (MbcType::Mbc2, true, false, false, false),
        0x06 => (MbcType::Mbc2, true, true, false, false),
        0x08 => (MbcType::RomOnly, true, false, false, false),
        0x09 => (MbcType::RomOnly, true, true, false, false),
        0x0F => (MbcType::Mbc3, false, true, true, false),
        0x10 => (MbcType::Mbc3, true, true, true, false),
        0x11 => (MbcType::Mbc3, false, false, false, false),
        0x12 => (MbcType::Mbc3, true, false, false, false),
        0x13 => (MbcType::Mbc3, true, true, false, false),
        0x19 => (MbcType::Mbc5, false, false, false, false),
        0x1A => (MbcType::Mbc5, true, false, false, false),
        0x1B => (MbcType::Mbc5, true, true, false, false),
        0x1C => (MbcType::Mbc5, false, false, false, true),
        0x1D => (MbcType::Mbc5, true, false, false, true),
        0x1E => (MbcType::Mbc5, true, true, false, true),
        _ => (MbcType::Unsupported, false, false, false, false),
    }
}

/// ROM size code 0x00-0x08 means `2 << code` 16KB banks (32KB * 2^code);
/// larger/irregular codes are not recognized.
pub open spec fn rom_banks_for_code_spec(code: u8) -> Option<usize> {
    if code <= 0x08 {
        Some((2usize << code) as usize)
    } else {
        None
    }
}

proof fn lemma_rom_banks_range(code: u8)
    requires
        code <= 8,
    ensures
        2 <= (2usize << code) <= 512,
{
    assert(code <= 8 ==> 2 <= (2usize << code) <= 512) by (bit_vector);
}

fn rom_banks_for_code(code: u8) -> (r: Option<usize>)
    ensures
        r == rom_banks_for_code_spec(code),
        r matches Some(n) ==> 2 <= n <= 512,
{
    if code <= 0x08 {
        proof {
            lemma_rom_banks_range(code);
        }
        Some(2usize << code)
    } else {
        None
    }
}

pub open spec fn ram_banks_for_code_spec(code: u8) -> Option<usize> {
    if code == 0x00 {
        Some(0)
    } else if code == 0x01 {
        Some(1)  // 2KB, unofficial/rare
    } else if code == 0x02 {
        Some(1)  // 8KB
    } else if code == 0x03 {
        Some(4)  // 32KB
    } else if code == 0x04 {
        Some(16)  // 128KB
    } else if code == 0x05 {
        Some(8)  // 64KB
    } else {
        None
    }
}

fn ram_banks_for_code(code: u8) -> (r: Option<usize>)
    ensures
        r == ram_banks_for_code_spec(code),
{
    match code {
        0x00 => Some(0),
        0x01 => Some(1),
        0x02 => Some(1),
        0x03 => Some(4),
        0x04 => Some(16),
        0x05 => Some(8),
        _ => None,
    }
}

/// Byte `addr` of the image, or 0 past its end.
pub open spec fn byte_spec(data: Seq<u8>, addr: int) -> u8 {
    if 0 <= addr < data.len() {
        data[addr]
    } else {
        0
    }
}

fn byte_at(data: &[u8], addr: usize) -> (b: u8)
    ensures
        b == byte_spec(data@, addr as int),
{
    match data.get(addr) {
        Some(b) => *b,
        None => 0,
    }
}

/// Length of the title: bytes from 0x0134 up to the first zero, at most
/// 16.
pub open spec fn title_len_from(data: Seq<u8>, i: nat) -> nat
    decreases 16 - i,
{
    if i >= 16 || byte_spec(data, TITLE_START as int + i) == 0 {
        i
    } else {
        title_len_from(data, i + 1)
    }
}

pub open spec fn title_bytes(data: Seq<u8>) -> Seq<u8> {
    Seq::new(title_len_from(data, 0), |i: int| byte_spec(data, TITLE_START as int + i))
}

/// Sum of the image bytes in `[lo, hi)` (0 past the end).
pub open spec fn byte_sum(data: Seq<u8>, lo: int, hi: int) -> int
    decreases hi - lo,
{
    if hi <= lo {
        0
    } else {
        byte_sum(data, lo, hi - 1) + byte_spec(data, hi - 1)
    }
}

/// The header checksum over 0x0134..0x014C: `x = x - byte - 1` for each
/// byte, starting from 0, modulo 256.
pub open spec fn computed_checksum(data: Seq<u8>) -> u8 {
    ((0 - byte_sum(data, HEADER_CHECKSUM_START as int, HEADER_CHECKSUM_END as int) - (
    HEADER_CHECKSUM_END - HEADER_CHECKSUM_START)) % 256) as u8
}

/// Number of 16KB banks the header implies (the ROM size code, or failing
/// that the data length rounded up, at least 2).
pub open spec fn header_rom_banks(data: Seq<u8>) -> usize {
    match rom_banks_for_code_spec(byte_spec(data, ROM_SIZE_ADDR as int)) {
        Some(n) => n,
        None => {
            let by_len = (data.len() + ROM_BANK_SIZE - 1) / ROM_BANK_SIZE as int;
            if by_len >= 2 {
                by_len as usize
            } else {
                2
            }
        },
    }
}

pub open spec fn header_ram_banks(data: Seq<u8>) -> usize {
    let (mbc, has_ram, _b, _r, _u) = mbc_traits_spec(byte_spec(data, CART_TYPE_ADDR as int));
    if mbc == MbcType::Mbc2 || !has_ram {
        0
    } else {
        match ram_banks_for_code_spec(byte_spec(data, RAM_SIZE_ADDR as int)) {
            Some(n) => n,
            None => 1,
        }
    }
}

/// The header fields `Header::parse` derives from an image.
pub open spec fn header_matches(h: Header, data: Seq<u8>) -> bool {
    let cart_type = byte_spec(data, CART_TYPE_ADDR as int);
    let (mbc, has_ram, has_battery, has_rtc, has_rumble) = mbc_traits_spec(cart_type);
    &&& h.title@ == utf8_lossy(title_bytes(data))
    &&& all_ascii(title_bytes(data)) ==> h.title@ == title_bytes(data).map_values(|b: u8| b as char)
    &&& h.cart_type == cart_type
    &&& h.mbc == mbc
    &&& h.has_ram == has_ram
    &&& h.has_battery == has_battery
    &&& h.has_rtc == has_rtc
    &&& h.has_rumble == has_rumble
    &&& h.rom_banks == header_rom_banks(data)
    &&& h.ram_banks == header_ram_banks(data)
    &&& h.header_checksum_valid == (byte_spec(data, HEADER_CHECKSUM_ADDR as int)
        == computed_checksum(data))
}

pub open spec fn warn_cart_type(data: Seq<u8>) -> Seq<Seq<char>> {
    let cart_type = byte_spec(data, CART_TYPE_ADDR as int);
    if mbc_traits_spec(cart_type).0 == MbcType::Unsupported {
        seq!["unsupported cart type byte 0x"@ + hex2(cart_type) + "; treating as ROM-only"@]
    } else {
        Seq::empty()
    }
}

pub open spec fn warn_rom_code(data: Seq<u8>) -> Seq<Seq<char>> {
    let rom_code = byte_spec(data, ROM_SIZE_ADDR as int);
    if rom_banks_for_code_spec(rom_code) is None {
        seq!["unrecognized ROM size code 0x"@ + hex2(rom_code)]
    } else {
        Seq::empty()
    }
}

pub open spec fn warn_rom_len(data: Seq<u8>) -> Seq<Seq<char>> {
    let expected_len = header_rom_banks(data) as int * ROM_BANK_SIZE;
    if data.len() != expected_len && data.len() > HEADER_MIN_LEN {
        seq![
            "ROM size header says "@ + dec(expected_len as nat) + " bytes but the file is "@ + dec(
                data.len(),
            ) + " bytes"@,
        ]
    } else {
        Seq::empty()
    }
}

pub open spec fn warn_ram_code(data: Seq<u8>) -> Seq<Seq<char>> {
    let (mbc, has_ram, _b, _r, _u) = mbc_traits_spec(byte_spec(data, CART_TYPE_ADDR as int));
    let ram_code = byte_spec(data, RAM_SIZE_ADDR as int);
    if mbc != MbcType::Mbc2 && has_ram && ram_banks_for_code_spec(ram_code) is None {
        seq!["unrecognized RAM size code 0x"@ + hex2(ram_code)]
    } else {
        Seq::empty()
    }
}

pub open spec fn warn_checksum(data: Seq<u8>) -> Seq<Seq<char>> {
    let stored = byte_spec(data, HEADER_CHECKSUM_ADDR as int);
    let computed = computed_checksum(data);
    if stored != computed {
        seq!["header checksum mismatch: stored 0x"@ + hex2(stored) + ", computed 0x"@ + hex2(computed)]
    } else {
        Seq::empty()
    }
}

/// The validation warnings for an image, in the order they are raised.
pub open spec fn header_warnings(data: Seq<u8>) -> Seq<Seq<char>> {
    warn_cart_type(data) + warn_rom_code(data) + warn_rom_len(data) + warn_ram_code(data)
        + warn_checksum(data)
}

fn push_warning(warnings: &mut Vec<String>, w: String)
    ensures
        final(warnings).deep_view() == old(warnings).deep_view().push(w@),
{
    warnings.push(w);
    proof {
        assert(final(warnings).deep_view() =~= old(warnings).deep_view().push(w@));
    }
}

fn parse_title(data: &[u8]) -> (t: String)
    ensures
        t@ == utf8_lossy(title_bytes(data@)),
        all_ascii(title_bytes(data@)) ==> t@ == title_bytes(data@).map_values(|b: u8| b as char),
{
    let ghost d = data@;
    let mut title_bytes_v: Vec<u8> = Vec::new();
    let mut i: usize = 0;
    while i < 16 && byte_at(data, TITLE_START + i) != 0
        invariant
            i <= 16,
            title_len_from(d, 0) == title_len_from(d, i as nat),
            title_bytes_v@ == Seq::new(i as nat, |k: int| byte_spec(d, TITLE_START as int + k)),
            d == data@,
        decreases 16 - i,
    {
        title_bytes_v.push(byte_at(data, TITLE_START + i));
        i = i + 1;
        proof {
            assert(title_bytes_v@ =~= Seq::new(
                i as nat,
                |k: int| byte_spec(d, TITLE_START as int + k),
            ));
        }
    }
    proof {
        assert(title_len_from(d, i as nat) == i);
        assert(title_bytes_v@ =~= title_bytes(d));
    }
    lossy_string(title_bytes_v.as_slice())
}

/// ROM bank count from the size code, or (with a warning) from the data
/// length.
fn parse_rom_banks(data: &[u8], warnings: &mut Vec<String>) -> (n: usize)
    requires
        data@.len() <= isize::MAX,
    ensures
        n == header_rom_banks(data@),
        2 <= n,
        n * ROM_BANK_SIZE <= data@.len() + 513 * ROM_BANK_SIZE,
        final(warnings).deep_view() == old(warnings).deep_view() + warn_rom_code(data@),
{
    let rom_size_code = byte_at(data, ROM_SIZE_ADDR);
    match rom_banks_for_code(rom_size_code) {
        Some(n) => {
            proof {
                assert(old(warnings).deep_view() + warn_rom_code(data@) =~= old(warnings).deep_view());
            }
            n
        },
        None => {
            let mut w = String::from_str("unrecognized ROM size code 0x");
            push_hex2(&mut w, rom_size_code);
            push_warning(warnings, w);
            let by_len = data.len() / ROM_BANK_SIZE + if data.len() % ROM_BANK_SIZE != 0 {
                1
            } else {
                0
            };
            assert(by_len == (data@.len() + ROM_BANK_SIZE - 1) / ROM_BANK_SIZE as int);
            if by_len >= 2 {
                by_len
            } else {
                2
            }
        },
    }
}

fn warn_if_len_mismatch(data: &[u8], rom_banks: usize, warnings: &mut Vec<String>)
    requires
        rom_banks == header_rom_banks(data@),
        rom_banks * ROM_BANK_SIZE <= usize::MAX,
    ensures
        final(warnings).deep_view() == old(warnings).deep_view() + warn_rom_len(data@),
{
    let expected_len = rom_banks * ROM_BANK_SIZE;
    if data.len() != expected_len && data.len() > HEADER_MIN_LEN {
        let mut w = String::from_str("ROM size header says ");
        push_dec(&mut w, expected_len as u64);
        w.append(" bytes but the file is ");
        push_dec(&mut w, data.len() as u64);
        w.append(" bytes");
        push_warning(warnings, w);
    } else {
        assert(old(warnings).deep_view() + warn_rom_len(data@) =~= old(warnings).deep_view());
    }
}

fn parse_ram_banks(data: &[u8], mbc: MbcType, has_ram: bool, warnings: &mut Vec<String>) -> (n:
    usize)
    requires
        (mbc, has_ram) == ({
            let t = mbc_traits_spec(byte_spec(data@, CART_TYPE_ADDR as int));
            (t.0, t.1)
        }),
    ensures
        n == header_ram_banks(data@),
        n <= 16,
        final(warnings).deep_view() == old(warnings).deep_view() + warn_ram_code(data@),
{
    if mbc == MbcType::Mbc2 {
        assert(old(warnings).deep_view() + warn_ram_code(data@) =~= old(warnings).deep_view());
        0  // sized separately via MBC2_RAM_NIBBLES, not the RAM size byte
    } else if has_ram {
        let ram_size_code = byte_at(data, RAM_SIZE_ADDR);
        match ram_banks_for_code(ram_size_code) {
            Some(n) => {
                assert(old(warnings).deep_view() + warn_ram_code(data@) =~= old(
                    warnings,
                ).deep_view());
                n
            },
            None => {
                let mut w = String::from_str("unrecognized RAM size code 0x");
                push_hex2(&mut w, ram_size_code);
                push_warning(warnings, w);
                1
            },
        }
    } else {
        assert(old(warnings).deep_view() + warn_ram_code(data@) =~= old(warnings).deep_view());
        0
    }
}

impl Header {
    fn parse(data: &[u8], warnings: &mut Vec<String>) -> (h: Self)
        requires
            data@.len() <= isize::MAX,
        ensures
            header_matches(h, data@),
            final(warnings).deep_view() == old(warnings).deep_view() + header_warnings(data@),
            2 <= h.rom_banks,
            h.rom_banks * ROM_BANK_SIZE <= data@.len() + 513 * ROM_BANK_SIZE,
            h.ram_banks <= 16,
    {
        let ghost w0 = old(warnings).deep_view();
        let title = parse_title(data);

        let cart_type = byte_at(data, CART_TYPE_ADDR);
        let (mbc, has_ram, has_battery, has_rtc, has_rumble) = mbc_traits(cart_type);
        if mbc == MbcType::Unsupported {
            let mut w = String::from_str("unsupported cart type byte 0x");
            push_hex2(&mut w, cart_type);
            w.append("; treating as ROM-only");
            push_warning(warnings, w);
        }
        let ghost w1 = warnings.deep_view();
        assert(w1 =~= w0 + warn_cart_type(data@));
        let rom_banks = parse_rom_banks(data, warnings);
        warn_if_len_mismatch(data, rom_banks, warnings);
        let ram_banks = parse_ram_banks(data, mbc, has_ram, warnings);
        let ghost w4 = warnings.deep_view();

        let stored_checksum = byte_at(data, HEADER_CHECKSUM_ADDR);
        let computed = header_checksum(data);
        let header_checksum_valid = stored_checksum == computed;
        if !header_checksum_valid {
            let mut w = String::from_str("header checksum mismatch: stored 0x");
            push_hex2(&mut w, stored_checksum);
            w.append(", computed 0x");
            push_hex2(&mut w, computed);
            push_warning(warnings, w);
        }
        assert(warnings.deep_view() =~= w4 + warn_checksum(data@));
        assert(warnings.deep_view() =~= w0 + header_warnings(data@));
        Header {
            title,
            cart_type,
            mbc,
            rom_banks,
            ram_banks,
            has_ram,
            has_battery,
            has_rtc,
            has_rumble,
            header_checksum_valid,
        }
    }
}

/// Computes the header checksum over 0x0134..0x014C.
fn header_checksum(data: &[u8]) -> (c: u8)
    ensures
        c == computed_checksum(data@),
{
    let mut acc: u8 = 0;
    let mut a: usize = HEADER_CHECKSUM_START;
    while a < HEADER_CHECKSUM_END
        invariant
            HEADER_CHECKSUM_START <= a <= HEADER_CHECKSUM_END,
            acc as int == (0 - byte_sum(data@, HEADER_CHECKSUM_START as int, a as int) - (a
                - HEADER_CHECKSUM_START)) % 256,
        decreases HEADER_CHECKSUM_END - a,
    {
        let b = byte_at(data, a);
        acc = acc.wrapping_sub(b).wrapping_sub(1);
        a = a + 1;
    }
    acc
}

/// MBC1 bank-select state.
#[derive(Debug, Clone, Copy, PartialEq, Eq, Structural)]
pub struct Mbc1State {
    pub ram_enable: bool,
    pub rom_bank_low5: u8,
    pub bank2: u8,
    pub mode1: bool,
}

/// MBC2 bank-select state.
#[derive(Debug, Clone, Copy, PartialEq, Eq, Structural)]
pub struct Mbc2State {
    pub ram_enable: bool,
    pub rom_bank: u8,
}

/// MBC3 real-time-clock registers.
#[derive(Debug, Clone, Copy, PartialEq, Eq, Structural)]
pub struct RtcRegisters {
    pub seconds: u8,
    pub minutes: u8,
    pub hours: u8,
    pub day_low: u8,
    /// Bit 0: day counter bit 8. Bit 6: halt. Bit 7: day counter carry.
    pub day_high: u8,
}

/// MBC3 bank-select state and clock.
#[derive(Debug, Clone, Copy, PartialEq, Eq, Structural)]
pub struct Mbc3State {
    pub ram_enable: bool,
    pub rom_bank: u8,
    /// 0x00-0x03 selects a RAM bank; 0x08-0x0C selects an RTC register.
    pub ram_bank_or_rtc_select: u8,
    pub latch_prev_write: u8,
    pub rtc: RtcRegisters,
    pub rtc_latched: RtcRegisters,
    /// T-cycles accumulated toward the next RTC second, only while the
    /// RTC isn't halted.
    pub rtc_cycle_accum: u32,
}

/// MBC5 bank-select state.
#[derive(Debug, Clone, Copy, PartialEq, Eq, Structural)]
pub struct Mbc5State {
    pub ram_enable: bool,
    pub rom_bank_low8: u8,
    pub rom_bank_bit8: u8,
    pub ram_bank: u8,
}

#[derive(Debug, Clone, Copy, PartialEq, Eq, Structural)]
pub enum MbcState {
    RomOnly,
    Mbc1(Mbc1State),
    Mbc2(Mbc2State),
    Mbc3(Mbc3State),
    Mbc5(Mbc5State),
}

impl RtcRegisters {
    pub open spec fn zeroed() -> RtcRegisters {
        RtcRegisters { seconds: 0, minutes: 0, hours: 0, day_low: 0, day_high: 0 }
    }
}

/// The power-on bank-select state for a given MBC.
pub open spec fn initial_mbc_state(mbc: MbcType) -> MbcState {
    match mbc {
        MbcType::RomOnly | MbcType::Unsupported => MbcState::RomOnly,
        MbcType::Mbc1 => MbcState::Mbc1(
            Mbc1State { ram_enable: false, rom_bank_low5: 0, bank2: 0, mode1: false },
        ),
        MbcType::Mbc2 => MbcState::Mbc2(Mbc2State { ram_enable: false, rom_bank: 0 }),
        MbcType::Mbc3 => MbcState::Mbc3(
            Mbc3State {
                ram_enable: false,
                rom_bank: 0,
                ram_bank_or_rtc_select: 0,
                latch_prev_write: 0,
                rtc: RtcRegisters::zeroed(),
                rtc_latched: RtcRegisters::zeroed(),
                rtc_cycle_accum: 0,
            },
        ),
        MbcType::Mbc5 => MbcState::Mbc5(
            Mbc5State { ram_enable: false, rom_bank_low8: 0, rom_bank_bit8: 0, ram_bank: 0 },
        ),
    }
}

#[derive(Debug)]
pub struct Cartridge {
    pub header: Header,
    rom: Vec<u8>,
    ram: Vec<u8>,
    mbc: MbcState,
    battery_dirty: bool,
}

impl Clone for Header {
    fn clone(&self) -> (h: Self)
        ensures
            h == *self,
    {
        Header {
            title: self.title.clone(),
            cart_type: self.cart_type,
            mbc: self.mbc,
            rom_banks: self.rom_banks,
            ram_banks: self.ram_banks,
            has_ram: self.has_ram,
            has_battery: self.has_battery,
            has_rtc: self.has_rtc,
            has_rumble: self.has_rumble,
            header_checksum_valid: self.header_checksum_valid,
        }
    }
}

impl Clone for Cartridge {
    fn clone(&self) -> (c: Self)
        ensures
            c@ == self@,
            c.wf() == self.wf(),
    {
        let rom = self.rom.clone();
        let ram = self.ram.clone();
        proof {
            assert(rom@ =~= self.rom@);
            assert(ram@ =~= self.ram@);
        }
        Cartridge {
            header: self.header.clone(),
            rom,
            ram,
            mbc: self.mbc,
            battery_dirty: self.battery_dirty,
        }
    }
}

/// Whether a bank-select state is the kind of MBC a header names
/// (cartridges of unsupported types run without banking).
pub open spec fn mbc_kind_matches(mbc: MbcState, t: MbcType) -> bool {
    match mbc {
        MbcState::RomOnly => t == MbcType::RomOnly || t == MbcType::Unsupported,
        MbcState::Mbc1(_) => t == MbcType::Mbc1,
        MbcState::Mbc2(_) => t == MbcType::Mbc2,
        MbcState::Mbc3(_) => t == MbcType::Mbc3,
        MbcState::Mbc5(_) => t == MbcType::Mbc5,
    }
}

/// The ROM image padded with 0xFF (or truncated) to `len` bytes.
pub open spec fn padded_rom(data: Seq<u8>, len: int) -> Seq<u8> {
    Seq::new(len as nat, |i: int| if i < data.len() { data[i] } else { 0xFF })
}

/// Cartridge RAM size in bytes for a header.
pub open spec fn ram_len_for(h: Header) -> int {
    if h.mbc == MbcType::Mbc2 {
        MBC2_RAM_NIBBLES as int
    } else {
        h.ram_banks * RAM_BANK_SIZE
    }
}

/// MBC register offset of an address: the 0x2000-byte window it falls in
/// within its region, i.e. `(addr - 0xA000) % 0x2000` for RAM.
pub open spec fn ram_offset(addr: u16) -> int {
    (addr as int - 0xA000) % RAM_BANK_SIZE as int
}

impl Cartridge {
    pub closed spec fn rom_spec(&self) -> Seq<u8> {
        self.rom@
    }

    pub closed spec fn ram_spec(&self) -> Seq<u8> {
        self.ram@
    }

    pub closed spec fn mbc_spec(&self) -> MbcState {
        self.mbc
    }

    pub closed spec fn header_view(&self) -> Header {
        self.header
    }

    pub closed spec fn dirty_spec(&self) -> bool {
        self.battery_dirty
    }

    /// Internal consistency: ROM/RAM sizes match the header and the MBC
    /// state matches the header's MBC type.
    pub closed spec fn wf(&self) -> bool {
        &&& 2 <= self.header.rom_banks
        &&& self.rom@.len() == self.header.rom_banks * ROM_BANK_SIZE
        &&& self.ram@.len() == ram_len_for(self.header)
        &&& self.ram@.len() <= 16 * RAM_BANK_SIZE
        &&& mbc_kind_matches(self.mbc, self.header.mbc)
        &&& (self.mbc matches MbcState::Mbc3(s) ==> s.rtc_cycle_accum < CYCLES_PER_SECOND)
    }

    /// The switchable-region bank selected for reads of `addr`.
    pub open spec fn rom_bank_spec(&self, addr: u16) -> int {
        self@.rom_bank_spec(addr)
    }

    pub open spec fn read_rom_spec(&self, addr: u16) -> u8 {
        self@.read_rom_spec(addr)
    }

    /// Byte of bank `bank` of cartridge RAM at `addr`, or 0xFF past the end.
    pub open spec fn ram_byte_spec(&self, bank: int, addr: u16) -> u8 {
        self@.ram_byte_spec(bank, addr)
    }

    pub open spec fn read_ram_spec(&self, addr: u16) -> u8 {
        self@.read_ram_spec(addr)
    }
}

/// What the memory map sees of a cartridge.
pub struct CartView {
    pub header: Header,
    pub rom: Seq<u8>,
    pub ram: Seq<u8>,
    pub mbc: MbcState,
    pub dirty: bool,
}

impl View for Cartridge {
    type V = CartView;

    open spec fn view(&self) -> CartView {
        CartView {
            header: self.header_view(),
            rom: self.rom_spec(),
            ram: self.ram_spec(),
            mbc: self.mbc_spec(),
            dirty: self.dirty_spec(),
        }
    }
}

impl CartView {
    /// The switchable-region bank selected for reads of `addr`.
    pub open spec fn rom_bank_spec(&self, addr: u16) -> int {
        let banks = self.header.rom_banks;
        match self.mbc {
            MbcState::RomOnly => if addr < 0x4000 {
                0
            } else {
                1
            },
            MbcState::Mbc1(s) => if addr < 0x4000 {
                if s.mode1 && banks > 32 {
                    ((s.bank2 as usize * 32) as usize & (banks - 1) as usize) as int
                } else {
                    0
                }
            } else {
                let low5 = if s.rom_bank_low5 == 0 {
                    1
                } else {
                    s.rom_bank_low5
                };
                ((s.bank2 as usize * 32 + low5 as usize) as usize & (banks - 1) as usize) as int
            },
            MbcState::Mbc2(s) => if addr < 0x4000 {
                0
            } else {
                let b = if s.rom_bank == 0 {
                    1
                } else {
                    s.rom_bank
                };
                (b as usize & (banks - 1) as usize) as int
            },
            MbcState::Mbc3(s) => if addr < 0x4000 {
                0
            } else {
                let b = if s.rom_bank == 0 {
                    1
                } else {
                    s.rom_bank
                };
                (b as usize & (banks - 1) as usize) as int
            },
            MbcState::Mbc5(s) => if addr < 0x4000 {
                0
            } else {
                ((s.rom_bank_bit8 as usize * 256 + s.rom_bank_low8 as usize) as usize & (banks
                    - 1) as usize) as int
            },
        }
    }

    pub open spec fn read_rom_spec(&self, addr: u16) -> u8 {
        self.rom[self.rom_bank_spec(addr) * ROM_BANK_SIZE + addr as int % ROM_BANK_SIZE as int]
    }

    /// Byte of bank `bank` of cartridge RAM at `addr`, or 0xFF past the end.
    pub open spec fn ram_byte_spec(&self, bank: int, addr: u16) -> u8 {
        let idx = bank * RAM_BANK_SIZE + ram_offset(addr);
        if 0 <= idx < self.ram.len() {
            self.ram[idx]
        } else {
            0xFF
        }
    }

    pub open spec fn read_ram_spec(&self, addr: u16) -> u8 {
        match self.mbc {
            MbcState::RomOnly => self.ram_byte_spec(0, addr),
            MbcState::Mbc1(s) => if !s.ram_enable || self.ram.len() == 0 {
                0xFF
            } else {
                self.ram_byte_spec(
                    if s.mode1 {
                        s.bank2 as int
                    } else {
                        0
                    },
                    addr,
                )
            },
            MbcState::Mbc2(s) => if !s.ram_enable {
                0xFF
            } else {
                0xF0 | (self.ram[(addr as int - 0xA000) % MBC2_RAM_NIBBLES as int] & 0x0F)
            },
            MbcState::Mbc3(s) => if !s.ram_enable {
                0xFF
            } else {
                let sel = s.ram_bank_or_rtc_select;
                if sel <= 0x03 {
                    self.ram_byte_spec(sel as int, addr)
                } else if sel == 0x08 {
                    s.rtc_latched.seconds
                } else if sel == 0x09 {
                    s.rtc_latched.minutes
                } else if sel == 0x0A {
                    s.rtc_latched.hours
                } else if sel == 0x0B {
                    s.rtc_latched.day_low
                } else if sel == 0x0C {
                    s.rtc_latched.day_high
                } else {
                    0xFF
                }
            },
            MbcState::Mbc5(s) => if !s.ram_enable || self.ram.len() == 0 {
                0xFF
            } else {
                self.ram_byte_spec(s.ram_bank as int, addr)
            },
        }
    }
}

impl Cartridge {
    /// Parses `data` as a cartridge image and returns it alongside any
    /// non-fatal validation warnings. Never fails — an unrecognized or
    /// malformed header degrades to a best-effort ROM-only cartridge, same
    /// as real hardware just attempting to run whatever's on the cart.
    pub fn from_rom_bytes(data: &[u8]) -> (r: (Self, Vec<String>))
        requires
            data@.len() <= isize::MAX,
        ensures
            header_matches(r.0.header_view(), data@),
            r.0.rom_spec() == padded_rom(
                data@,
                r.0.header_view().rom_banks * ROM_BANK_SIZE as int,
            ),
            r.0.ram_spec() == Seq::new(ram_len_for(r.0.header_view()) as nat, |i: int| 0u8),
            r.0.mbc_spec() == initial_mbc_state(r.0.header_view().mbc),
            !r.0.dirty_spec(),
            r.0.wf(),
            r.1.deep_view() == header_warnings(data@),
    {
        let mut warnings: Vec<String> = Vec::new();
        let header = Header::parse(data, &mut warnings);
        proof {
            assert(warnings.deep_view() =~= header_warnings(data@));
        }
        let rom_len = header.rom_banks * ROM_BANK_SIZE;
        let mut rom: Vec<u8> = Vec::new();
        let mut i: usize = 0;
        while i < rom_len
            invariant
                i <= rom_len,
                rom@ == padded_rom(data@, i as int),
            decreases rom_len - i,
        {
            let b = if i < data.len() {
                data[i]
            } else {
                0xFF
            };
            rom.push(b);
            i = i + 1;
            proof {
                assert(rom@ =~= padded_rom(data@, i as int));
            }
        }
        let ram_len = if header.mbc == MbcType::Mbc2 {
            MBC2_RAM_NIBBLES
        } else {
            header.ram_banks * RAM_BANK_SIZE
        };
        let mut ram: Vec<u8> = Vec::new();
        let mut j: usize = 0;
        while j < ram_len
            invariant
                j <= ram_len,
                ram@ == Seq::new(j as nat, |k: int| 0u8),
            decreases ram_len - j,
        {
            ram.push(0);
            j = j + 1;
            proof {
                assert(ram@ =~= Seq::new(j as nat, |k: int| 0u8));
            }
        }
        let mbc = match header.mbc {
            MbcType::RomOnly | MbcType::Unsupported => MbcState::RomOnly,
            MbcType::Mbc1 => MbcState::Mbc1(
                Mbc1State { ram_enable: false, rom_bank_low5: 0, bank2: 0, mode1: false },
            ),
            MbcType::Mbc2 => MbcState::Mbc2(Mbc2State { ram_enable: false, rom_bank: 0 }),
            MbcType::Mbc3 => MbcState::Mbc3(
                Mbc3State {
                    ram_enable: false,
                    rom_bank: 0,
                    ram_bank_or_rtc_select: 0,
                    latch_prev_write: 0,
                    rtc: RtcRegisters { seconds: 0, minutes: 0, hours: 0, day_low: 0, day_high: 0 },
                    rtc_latched: RtcRegisters {
                        seconds: 0,
                        minutes: 0,
                        hours: 0,
                        day_low: 0,
                        day_high: 0,
                    },
                    rtc_cycle_accum: 0,
                },
            ),
            MbcType::Mbc5 => MbcState::Mbc5(
                Mbc5State { ram_enable: false, rom_bank_low8: 0, rom_bank_bit8: 0, ram_bank: 0 },
            ),
        };
        (Cartridge { header, rom, ram, mbc, battery_dirty: false }, warnings)
    }

    /// The parsed header.
    pub fn header(&self) -> (h: &Header)
        ensures
            *h == self.header_view(),
    {
        &self.header
    }

    pub fn has_battery(&self) -> (b: bool)
        ensures
            b == self.header_view().has_battery,
    {
        self.header.has_battery
    }

    /// Raw battery-backed RAM contents (cartridge RAM, or MBC3's RTC
    /// registers appended after it) for persisting to a `.sav` file.
    /// Layout: RAM bytes, then (MBC3 with RTC only) 5 latched RTC register
    /// bytes.
    pub fn battery_ram(&self) -> (out: Vec<u8>)
        requires
            self.wf(),
        ensures
            out@ == battery_ram_spec(self.ram_spec(), self.mbc_spec(), self.header_view().has_rtc),
            self.ram_spec().len() == ram_len_for(self.header_view()),
            mbc_kind_matches(self.mbc_spec(), self.header_view().mbc),
    {
        let mut out: Vec<u8> = Vec::new();
        let mut i: usize = 0;
        while i < self.ram.len()
            invariant
                i <= self.ram@.len(),
                out@ == self.ram@.subrange(0, i as int),
            decreases self.ram@.len() - i,
        {
            out.push(self.ram[i]);
            i = i + 1;
            proof {
                assert(out@ =~= self.ram@.subrange(0, i as int));
            }
        }
        proof {
            assert(self.ram@.subrange(0, self.ram@.len() as int) =~= self.ram@);
        }
        if let MbcState::Mbc3(s) = self.mbc {
            if self.header.has_rtc {
                out.push(s.rtc_latched.seconds);
                out.push(s.rtc_latched.minutes);
                out.push(s.rtc_latched.hours);
                out.push(s.rtc_latched.day_low);
                out.push(s.rtc_latched.day_high);
            }
        }
        proof {
            assert(out@ =~= battery_ram_spec(self.ram@, self.mbc, self.header.has_rtc));
        }
        out
    }

    /// Restores RAM (and MBC3 RTC registers, if present) from a previously
    /// saved [`Cartridge::battery_ram`] blob. Ignores a length mismatch
    /// beyond what's needed rather than failing.
    pub fn load_battery_ram(&mut self, data: &[u8])
        requires
            old(self).wf(),
        ensures
            final(self).header_view() == old(self).header_view(),
            final(self).rom_spec() == old(self).rom_spec(),
            (final(self).ram_spec(), final(self).mbc_spec()) == load_battery_spec(
                old(self).ram_spec(),
                old(self).mbc_spec(),
                old(self).header_view().has_rtc,
                data@,
            ),
            !final(self).dirty_spec(),
            final(self).wf(),
            final(self).ram_spec().len() == ram_len_for(final(self).header_view()),
            mbc_kind_matches(final(self).mbc_spec(), final(self).header_view().mbc),
    {
        let ram_len = self.ram.len();
        let n = if data.len() < ram_len {
            data.len()
        } else {
            ram_len
        };
        let ghost old_ram = self.ram@;
        let mut i: usize = 0;
        while i < n
            invariant
                i <= n,
                n <= data@.len(),
                n <= ram_len,
                ram_len == old_ram.len(),
                self.ram@.len() == ram_len,
                self.ram@ == data@.subrange(0, i as int) + old_ram.subrange(i as int, ram_len as int),
                self.header == old(self).header,
                self.rom == old(self).rom,
                self.mbc == old(self).mbc,
                self.battery_dirty == old(self).battery_dirty,
            decreases n - i,
        {
            self.ram.set(i, data[i]);
            i = i + 1;
            proof {
                assert(self.ram@ =~= data@.subrange(0, i as int) + old_ram.subrange(
                    i as int,
                    ram_len as int,
                ));
            }
        }
        if let MbcState::Mbc3(s) = self.mbc {
            if self.header.has_rtc && data.len() >= ram_len + 5 {
                let mut s = s;
                s.rtc.seconds = data[ram_len];
                s.rtc.minutes = data[ram_len + 1];
                s.rtc.hours = data[ram_len + 2];
                s.rtc.day_low = data[ram_len + 3];
                s.rtc.day_high = data[ram_len + 4];
                self.mbc = MbcState::Mbc3(s);
            }
        }
        self.battery_dirty = false;
        proof {
            assert(self.ram@ =~= load_battery_spec(old_ram, old(self).mbc, self.header.has_rtc, data@).0);
        }
    }

    pub fn is_battery_dirty(&self) -> (b: bool)
        ensures
            b == self.dirty_spec(),
    {
        self.battery_dirty
    }

    pub fn clear_battery_dirty(&mut self)
        requires
            old(self).wf(),
        ensures
            final(self).header_view() == old(self).header_view(),
            final(self).rom_spec() == old(self).rom_spec(),
            final(self).ram_spec() == old(self).ram_spec(),
            final(self).mbc_spec() == old(self).mbc_spec(),
            !final(self).dirty_spec(),
            final(self).wf(),
    {
        self.battery_dirty = false;
    }

    /// Advances MBC3's RTC by `t_cycles` T-cycles (no-op for every other
    /// MBC).
    pub fn step(&mut self, t_cycles: u8)
        requires
            old(self).wf(),
        ensures
            final(self).header_view() == old(self).header_view(),
            final(self).rom_spec() == old(self).rom_spec(),
            final(self).ram_spec() == old(self).ram_spec(),
            final(self).dirty_spec() == old(self).dirty_spec(),
            final(self).mbc_spec() == rtc_step_spec(old(self).mbc_spec(), t_cycles),
            final(self).wf(),
    {
        if let MbcState::Mbc3(s) = self.mbc {
            if s.rtc.day_high & 0x40 != 0 {
                return;  // RTC halted
            }
            let mut s = s;
            s.rtc_cycle_accum += t_cycles as u32;
            if s.rtc_cycle_accum >= CYCLES_PER_SECOND {
                s.rtc_cycle_accum -= CYCLES_PER_SECOND;
                tick_rtc_second(&mut s.rtc);
            }
            self.mbc = MbcState::Mbc3(s);
        }
    }

    /// Reads from 0x0000-0x7FFF (fixed bank 0 + switchable bank).
    pub fn read_rom(&self, addr: u16) -> (b: u8)
        requires
            self.wf(),
        ensures
            b == self.read_rom_spec(addr),
    {
        let banks = self.header.rom_banks;
        let bank: usize = match self.mbc {
            MbcState::RomOnly => {
                if addr < 0x4000 {
                    0
                } else {
                    1
                }
            },
            MbcState::Mbc1(s) => {
                if addr < 0x4000 {
                    if s.mode1 && banks > 32 {
                        mask_bank(s.bank2 as usize * 32, banks)
                    } else {
                        0
                    }
                } else {
                    let low5 = if s.rom_bank_low5 == 0 {
                        1
                    } else {
                        s.rom_bank_low5
                    };
                    mask_bank(s.bank2 as usize * 32 + low5 as usize, banks)
                }
            },
            MbcState::Mbc2(s) => {
                if addr < 0x4000 {
                    0
                } else {
                    let b = if s.rom_bank == 0 {
                        1
                    } else {
                        s.rom_bank
                    };
                    mask_bank(b as usize, banks)
                }
            },
            MbcState::Mbc3(s) => {
                if addr < 0x4000 {
                    0
                } else {
                    let b = if s.rom_bank == 0 {
                        1
                    } else {
                        s.rom_bank
                    };
                    mask_bank(b as usize, banks)
                }
            },
            MbcState::Mbc5(s) => {
                if addr < 0x4000 {
                    0
                } else {
                    mask_bank(s.rom_bank_bit8 as usize * 256 + s.rom_bank_low8 as usize, banks)
                }
            },
        };
        let offset = (addr as usize) % ROM_BANK_SIZE;
        let rom_len = self.rom.len();
        assert(rom_len == banks * ROM_BANK_SIZE);
        assert(bank * ROM_BANK_SIZE + offset < banks * ROM_BANK_SIZE) by (nonlinear_arith)
            requires
                bank < banks,
                offset < ROM_BANK_SIZE,
        ;
        self.rom[bank * ROM_BANK_SIZE + offset]
    }

    /// Writes to 0x0000-0x7FFF: MBC control registers, not actual ROM
    /// content.
    pub fn write_rom_register(&mut self, addr: u16, val: u8)
        requires
            old(self).wf(),
        ensures
            final(self).header_view() == old(self).header_view(),
            final(self).rom_spec() == old(self).rom_spec(),
            final(self).ram_spec() == old(self).ram_spec(),
            final(self).dirty_spec() == old(self).dirty_spec(),
            final(self).mbc_spec() == write_register_spec(old(self).mbc_spec(), addr, val),
            final(self).wf(),
    {
        match self.mbc {
            MbcState::RomOnly => {},
            MbcState::Mbc1(s) => {
                let mut s = s;
                if addr <= 0x1FFF {
                    s.ram_enable = val & 0x0F == 0x0A;
                } else if addr <= 0x3FFF {
                    s.rom_bank_low5 = val & 0x1F;
                } else if addr <= 0x5FFF {
                    s.bank2 = val & 0x03;
                } else if addr <= 0x7FFF {
                    s.mode1 = val & 0x01 != 0;
                }
                self.mbc = MbcState::Mbc1(s);
            },
            MbcState::Mbc2(s) => {
                let mut s = s;
                if addr < 0x4000 {
                    if addr & 0x0100 == 0 {
                        s.ram_enable = val & 0x0F == 0x0A;
                    } else {
                        s.rom_bank = val & 0x0F;
                    }
                }
                self.mbc = MbcState::Mbc2(s);
            },
            MbcState::Mbc3(s) => {
                let mut s = s;
                if addr <= 0x1FFF {
                    s.ram_enable = val & 0x0F == 0x0A;
                } else if addr <= 0x3FFF {
                    s.rom_bank = val & 0x7F;
                } else if addr <= 0x5FFF {
                    s.ram_bank_or_rtc_select = val;
                } else if addr <= 0x7FFF {
                    if s.latch_prev_write == 0x00 && val == 0x01 {
                        s.rtc_latched = s.rtc;
                    }
                    s.latch_prev_write = val;
                }
                self.mbc = MbcState::Mbc3(s);
            },
            MbcState::Mbc5(s) => {
                let mut s = s;
                if addr <= 0x1FFF {
                    s.ram_enable = val & 0x0F == 0x0A;
                } else if addr <= 0x2FFF {
                    s.rom_bank_low8 = val;
                } else if addr <= 0x3FFF {
                    s.rom_bank_bit8 = val & 0x01;
                } else if addr <= 0x5FFF {
                    s.ram_bank = val & 0x0F;
                }
                self.mbc = MbcState::Mbc5(s);
            },
        }
    }

    /// Reads from 0xA000-0xBFFF (external/cartridge RAM). Returns open-bus
    /// `0xFF` when RAM is disabled or absent.
    pub fn read_ram(&self, addr: u16) -> (b: u8)
        requires
            self.wf(),
            addr >= 0xA000,
        ensures
            b == self.read_ram_spec(addr),
    {
        match self.mbc {
            MbcState::RomOnly => self.ram_byte_at(0, addr),
            MbcState::Mbc1(s) => {
                if !s.ram_enable || self.ram.len() == 0 {
                    return 0xFF;
                }
                let bank = if s.mode1 {
                    s.bank2 as usize
                } else {
                    0
                };
                self.ram_byte_at(bank, addr)
            },
            MbcState::Mbc2(s) => {
                if !s.ram_enable {
                    return 0xFF;
                }
                0xF0 | self.mbc2_nibble(addr)
            },
            MbcState::Mbc3(s) => {
                if !s.ram_enable {
                    return 0xFF;
                }
                match s.ram_bank_or_rtc_select {
                    0x00..=0x03 => self.ram_byte_at(s.ram_bank_or_rtc_select as usize, addr),
                    0x08 => s.rtc_latched.seconds,
                    0x09 => s.rtc_latched.minutes,
                    0x0A => s.rtc_latched.hours,
                    0x0B => s.rtc_latched.day_low,
                    0x0C => s.rtc_latched.day_high,
                    _ => 0xFF,
                }
            },
            MbcState::Mbc5(s) => {
                if !s.ram_enable || self.ram.len() == 0 {
                    return 0xFF;
                }
                self.ram_byte_at(s.ram_bank as usize, addr)
            },
        }
    }

    /// Writes to 0xA000-0xBFFF (external/cartridge RAM or the selected MBC3
    /// clock register); ignored while RAM is disabled. Marks battery RAM
    /// dirty on a battery-backed cartridge.
    pub fn write_ram(&mut self, addr: u16, val: u8)
        requires
            old(self).wf(),
            addr >= 0xA000,
        ensures
            final(self).header_view() == old(self).header_view(),
            final(self).rom_spec() == old(self).rom_spec(),
            (final(self).ram_spec(), final(self).mbc_spec(), final(self).dirty_spec())
                == old(self).write_ram_spec(addr, val),
            final(self).wf(),
    {
        match self.mbc {
            MbcState::RomOnly => {},
            MbcState::Mbc1(s) => {
                if !s.ram_enable || self.ram.len() == 0 {
                    return;
                }
                let bank = if s.mode1 {
                    s.bank2 as usize
                } else {
                    0
                };
                self.set_ram_byte_at(bank, addr, val);
                self.battery_dirty = self.battery_dirty || self.header.has_battery;
            },
            MbcState::Mbc2(s) => {
                if !s.ram_enable {
                    return;
                }
                let idx = (addr as usize - 0xA000) % MBC2_RAM_NIBBLES;
                self.ram.set(idx, val & 0x0F);
                self.battery_dirty = self.battery_dirty || self.header.has_battery;
            },
            MbcState::Mbc3(s) => {
                if !s.ram_enable {
                    return;
                }
                let mut s = s;
                match s.ram_bank_or_rtc_select {
                    0x00..=0x03 => {
                        let bank = s.ram_bank_or_rtc_select as usize;
                        self.set_ram_byte_at(bank, addr, val);
                    },
                    0x08 => s.rtc.seconds = val,
                    0x09 => s.rtc.minutes = val,
                    0x0A => s.rtc.hours = val,
                    0x0B => s.rtc.day_low = val,
                    0x0C => s.rtc.day_high = val,
                    _ => {},
                }
                self.mbc = MbcState::Mbc3(s);
                self.battery_dirty = self.battery_dirty || self.header.has_battery;
            },
            MbcState::Mbc5(s) => {
                if !s.ram_enable || self.ram.len() == 0 {
                    return;
                }
                let bank = s.ram_bank as usize;
                self.set_ram_byte_at(bank, addr, val);
                self.battery_dirty = self.battery_dirty || self.header.has_battery;
            },
        }
    }

    fn mbc2_nibble(&self, addr: u16) -> (b: u8)
        requires
            self.wf(),
            addr >= 0xA000,
            self.ram_spec().len() == MBC2_RAM_NIBBLES,
        ensures
            b == self.ram_spec()[(addr as int - 0xA000) % MBC2_RAM_NIBBLES as int] & 0x0F,
    {
        let idx = (addr as usize - 0xA000) % MBC2_RAM_NIBBLES;
        self.ram[idx] & 0x0F
    }

    fn ram_byte_at(&self, bank: usize, addr: u16) -> (b: u8)
        requires
            self.wf(),
            addr >= 0xA000,
            bank < 256,
        ensures
            b == self.ram_byte_spec(bank as int, addr),
    {
        let offset = (addr as usize - 0xA000) % RAM_BANK_SIZE;
        let idx = bank * RAM_BANK_SIZE + offset;
        match self.ram.get(idx) {
            Some(b) => *b,
            None => 0xFF,
        }
    }

    fn set_ram_byte_at(&mut self, bank: usize, addr: u16, val: u8)
        requires
            addr >= 0xA000,
            bank < 256,
        ensures
            final(self).header == old(self).header,
            final(self).rom == old(self).rom,
            final(self).mbc == old(self).mbc,
            final(self).battery_dirty == old(self).battery_dirty,
            final(self).ram@ == ram_store(old(self).ram@, bank as int * RAM_BANK_SIZE + ram_offset(addr), val),
    {
        let offset = (addr as usize - 0xA000) % RAM_BANK_SIZE;
        let idx = bank * RAM_BANK_SIZE + offset;
        if idx < self.ram.len() {
            self.ram.set(idx, val);
        }
    }
}

/// `ram` with byte `idx` replaced, when `idx` is in range.
pub open spec fn ram_store(ram: Seq<u8>, idx: int, val: u8) -> Seq<u8> {
    if 0 <= idx < ram.len() {
        ram.update(idx, val)
    } else {
        ram
    }
}

/// Masks a bank number to the cartridge's bank count (`x & (banks - 1)`).
fn mask_bank(x: usize, banks: usize) -> (r: usize)
    requires
        banks >= 1,
    ensures
        r == x & (banks - 1) as usize,
        r < banks,
{
    proof {
        lemma_and_le(x, (banks - 1) as usize);
    }
    x & (banks - 1)
}

proof fn lemma_and_le(x: usize, m: usize)
    ensures
        x & m <= m,
{
    assert(x & m <= m) by (bit_vector);
}

/// Battery save layout: RAM bytes, then the five latched RTC registers
/// when the cartridge has an MBC3 clock.
pub open spec fn battery_ram_spec(ram: Seq<u8>, mbc: MbcState, has_rtc: bool) -> Seq<u8> {
    match mbc {
        MbcState::Mbc3(s) => if has_rtc {
            ram + seq![
                s.rtc_latched.seconds,
                s.rtc_latched.minutes,
                s.rtc_latched.hours,
                s.rtc_latched.day_low,
                s.rtc_latched.day_high,
            ]
        } else {
            ram
        },
        _ => ram,
    }
}

/// RAM and MBC state after restoring a battery save `data`: its first
/// bytes overwrite RAM, and five bytes after the RAM image (if present)
/// restore an MBC3 clock.
pub open spec fn load_battery_spec(ram: Seq<u8>, mbc: MbcState, has_rtc: bool, data: Seq<u8>) -> (Seq<u8>, MbcState) {
    let n = if data.len() < ram.len() {
        data.len() as int
    } else {
        ram.len() as int
    };
    let new_ram = data.subrange(0, n) + ram.subrange(n, ram.len() as int);
    let new_mbc = match mbc {
        MbcState::Mbc3(s) => if has_rtc && data.len() >= ram.len() + 5 {
            let l = ram.len() as int;
            MbcState::Mbc3(
                Mbc3State {
                    rtc: RtcRegisters {
                        seconds: data[l],
                        minutes: data[l + 1],
                        hours: data[l + 2],
                        day_low: data[l + 3],
                        day_high: data[l + 4],
                    },
                    ..s
                },
            )
        } else {
            mbc
        },
        _ => mbc,
    };
    (new_ram, new_mbc)
}

/// One RTC second: seconds -> minutes -> hours -> 9-bit day counter, with
/// the day-carry flag (bit 7 of the day-high register) set on day overflow.
pub open spec fn tick_spec(rtc: RtcRegisters) -> RtcRegisters {
    let s = ((rtc.seconds as int + 1) % 256) as u8;
    if s < 60 {
        RtcRegisters { seconds: s, ..rtc }
    } else {
        let m = ((rtc.minutes as int + 1) % 256) as u8;
        if m < 60 {
            RtcRegisters { seconds: 0, minutes: m, ..rtc }
        } else {
            let h = ((rtc.hours as int + 1) % 256) as u8;
            if h < 24 {
                RtcRegisters { seconds: 0, minutes: 0, hours: h, ..rtc }
            } else {
                let day = (rtc.day_high as int % 2) * 256 + rtc.day_low as int + 1;
                let overflow = day > 0x1FF;
                let day2 = if overflow {
                    0
                } else {
                    day
                };
                let dh = if overflow {
                    rtc.day_high | 0x80
                } else {
                    rtc.day_high
                };
                RtcRegisters {
                    seconds: 0,
                    minutes: 0,
                    hours: 0,
                    day_low: (day2 % 256) as u8,
                    day_high: (dh & !0x01u8) | ((day2 / 256) % 2) as u8,
                }
            }
        }
    }
}

/// MBC state after `t_cycles` T-cycles: only a running (non-halted) MBC3
/// clock advances, one second per `CYCLES_PER_SECOND` accumulated cycles.
pub open spec fn rtc_step_spec(mbc: MbcState, t_cycles: u8) -> MbcState {
    match mbc {
        MbcState::Mbc3(s) => if s.rtc.day_high & 0x40 != 0 {
            mbc
        } else {
            let acc = s.rtc_cycle_accum as int + t_cycles as int;
            if acc >= CYCLES_PER_SECOND {
                MbcState::Mbc3(
                    Mbc3State {
                        rtc_cycle_accum: (acc - CYCLES_PER_SECOND) as u32,
                        rtc: tick_spec(s.rtc),
                        ..s
                    },
                )
            } else {
                MbcState::Mbc3(Mbc3State { rtc_cycle_accum: acc as u32, ..s })
            }
        },
        _ => mbc,
    }
}

/// MBC bank-select state after a write of `val` to control address `addr`.
pub open spec fn write_register_spec(mbc: MbcState, addr: u16, val: u8) -> MbcState {
    match mbc {
        MbcState::RomOnly => mbc,
        MbcState::Mbc1(s) => MbcState::Mbc1(
            if addr <= 0x1FFF {
                Mbc1State { ram_enable: val & 0x0F == 0x0A, ..s }
            } else if addr <= 0x3FFF {
                Mbc1State { rom_bank_low5: val & 0x1F, ..s }
            } else if addr <= 0x5FFF {
                Mbc1State { bank2: val & 0x03, ..s }
            } else if addr <= 0x7FFF {
                Mbc1State { mode1: val & 0x01 != 0, ..s }
            } else {
                s
            },
        ),
        MbcState::Mbc2(s) => MbcState::Mbc2(
            if addr < 0x4000 {
                if addr & 0x0100 == 0 {
                    Mbc2State { ram_enable: val & 0x0F == 0x0A, ..s }
                } else {
                    Mbc2State { rom_bank: val & 0x0F, ..s }
                }
            } else {
                s
            },
        ),
        MbcState::Mbc3(s) => MbcState::Mbc3(
            if addr <= 0x1FFF {
                Mbc3State { ram_enable: val & 0x0F == 0x0A, ..s }
            } else if addr <= 0x3FFF {
                Mbc3State { rom_bank: val & 0x7F, ..s }
            } else if addr <= 0x5FFF {
                Mbc3State { ram_bank_or_rtc_select: val, ..s }
            } else if addr <= 0x7FFF {
                Mbc3State {
                    rtc_latched: if s.latch_prev_write == 0x00 && val == 0x01 {
                        s.rtc
                    } else {
                        s.rtc_latched
                    },
                    latch_prev_write: val,
                    ..s
                }
            } else {
                s
            },
        ),
        MbcState::Mbc5(s) => MbcState::Mbc5(
            if addr <= 0x1FFF {
                Mbc5State { ram_enable: val & 0x0F == 0x0A, ..s }
            } else if addr <= 0x2FFF {
                Mbc5State { rom_bank_low8: val, ..s }
            } else if addr <= 0x3FFF {
                Mbc5State { rom_bank_bit8: val & 0x01, ..s }
            } else if addr <= 0x5FFF {
                Mbc5State { ram_bank: val & 0x0F, ..s }
            } else {
                s
            },
        ),
    }
}

impl CartView {
    /// RAM, MBC state and dirty flag after a write of `val` to cartridge
    /// RAM address `addr`.
    pub open spec fn write_ram_spec(self, addr: u16, val: u8) -> (Seq<u8>, MbcState, bool) {
        let ram = self.ram;
        let dirty = self.dirty || self.header.has_battery;
        match self.mbc {
            MbcState::RomOnly => (ram, self.mbc, self.dirty),
            MbcState::Mbc1(s) => if !s.ram_enable || ram.len() == 0 {
                (ram, self.mbc, self.dirty)
            } else {
                let bank = if s.mode1 {
                    s.bank2 as int
                } else {
                    0
                };
                (ram_store(ram, bank * RAM_BANK_SIZE + ram_offset(addr), val), self.mbc, dirty)
            },
            MbcState::Mbc2(s) => if !s.ram_enable {
                (ram, self.mbc, self.dirty)
            } else {
                (
                    ram.update((addr as int - 0xA000) % MBC2_RAM_NIBBLES as int, val & 0x0F),
                    self.mbc,
                    dirty,
                )
            },
            MbcState::Mbc3(s) => if !s.ram_enable {
                (ram, self.mbc, self.dirty)
            } else {
                let sel = s.ram_bank_or_rtc_select;
                let rtc = s.rtc;
                let new_rtc = if sel == 0x08 {
                    RtcRegisters { seconds: val, ..rtc }
                } else if sel == 0x09 {
                    RtcRegisters { minutes: val, ..rtc }
                } else if sel == 0x0A {
                    RtcRegisters { hours: val, ..rtc }
                } else if sel == 0x0B {
                    RtcRegisters { day_low: val, ..rtc }
                } else if sel == 0x0C {
                    RtcRegisters { day_high: val, ..rtc }
                } else {
                    rtc
                };
                (
                    if sel <= 0x03 {
                        ram_store(ram, sel as int * RAM_BANK_SIZE + ram_offset(addr), val)
                    } else {
                        ram
                    },
                    MbcState::Mbc3(Mbc3State { rtc: new_rtc, ..s }),
                    dirty,
                )
            },
            MbcState::Mbc5(s) => if !s.ram_enable || ram.len() == 0 {
                (ram, self.mbc, self.dirty)
            } else {
                (ram_store(ram, s.ram_bank as int * RAM_BANK_SIZE + ram_offset(addr), val), self.mbc, dirty)
            },
        }
    }
}

impl Cartridge {
    /// RAM, MBC state and dirty flag after a write of `val` to cartridge
    /// RAM address `addr`.
    pub open spec fn write_ram_spec(&self, addr: u16, val: u8) -> (Seq<u8>, MbcState, bool) {
        self@.write_ram_spec(addr, val)
    }
}

/// Advances the clock by one second.
pub fn tick_rtc_second(rtc: &mut RtcRegisters)
    ensures
        *final(rtc) == tick_spec(*old(rtc)),
{
    rtc.seconds = rtc.seconds.wrapping_add(1);
    if rtc.seconds < 60 {
        return;
    }
    rtc.seconds = 0;
    rtc.minutes = rtc.minutes.wrapping_add(1);
    if rtc.minutes < 60 {
        return;
    }
    rtc.minutes = 0;
    rtc.hours = rtc.hours.wrapping_add(1);
    if rtc.hours < 24 {
        return;
    }
    rtc.hours = 0;
    let mut day: u16 = (rtc.day_high % 2) as u16 * 256 + rtc.day_low as u16;
    day = day + 1;
    if day > 0x1FF {
        day = 0;
        rtc.day_high |= 0x80;  // carry flag
    }
    rtc.day_low = (day % 256) as u8;
    rtc.day_high = (rtc.day_high & !0x01u8) | ((day / 256) % 2) as u8;
}

} // verus!

verus! {

/// Saving battery RAM and loading the save back into a cartridge of the
/// same kind (same RAM size, same MBC) restores the RAM contents and, for
/// an MBC3 with a clock, sets the clock to the saved (latched) registers;
/// the rest of the bank state stays as it was.
pub proof fn lemma_battery_round_trip(
    ram: Seq<u8>,
    mbc: MbcState,
    other_ram: Seq<u8>,
    other_mbc: MbcState,
    has_rtc: bool,
)
    requires
        other_ram.len() == ram.len(),
        mbc is Mbc3 <==> other_mbc is Mbc3,
    ensures
        ({
            let (r, m) = load_battery_spec(other_ram, other_mbc, has_rtc, battery_ram_spec(ram, mbc, has_rtc));
            &&& r == ram
            &&& m == match (mbc, other_mbc) {
                (MbcState::Mbc3(s), MbcState::Mbc3(t)) => if has_rtc {
                    MbcState::Mbc3(Mbc3State { rtc: s.rtc_latched, ..t })
                } else {
                    other_mbc
                },
                _ => other_mbc,
            }
        }),
{
    let data = battery_ram_spec(ram, mbc, has_rtc);
    let n = ram.len() as int;
    assert(data.subrange(0, n) + other_ram.subrange(n, n) =~= ram);
}

/// Whether cartridge RAM address `addr` currently maps to a RAM byte:
/// RAM enabled, a RAM bank (not an RTC register) selected, and the byte
/// within the RAM the cartridge has.
pub open spec fn ram_mapped(c: CartView, addr: u16) -> bool {
    let off = ram_offset(addr);
    let n = c.ram.len() as int;
    match c.mbc {
        MbcState::RomOnly => false,
        MbcState::Mbc1(s) => s.ram_enable && (if s.mode1 { s.bank2 as int } else { 0 })
            * RAM_BANK_SIZE + off < n,
        MbcState::Mbc2(s) => s.ram_enable && n == MBC2_RAM_NIBBLES,
        MbcState::Mbc3(s) => s.ram_enable && s.ram_bank_or_rtc_select <= 0x03
            && s.ram_bank_or_rtc_select as int * RAM_BANK_SIZE + off < n,
        MbcState::Mbc5(s) => s.ram_enable && s.ram_bank as int * RAM_BANK_SIZE + off < n,
    }
}

/// Whether the cartridge's RAM is switched off (reads open bus, ignores
/// writes).
pub open spec fn ram_disabled(c: CartView) -> bool {
    match c.mbc {
        MbcState::RomOnly => false,
        MbcState::Mbc1(s) => !s.ram_enable,
        MbcState::Mbc2(s) => !s.ram_enable,
        MbcState::Mbc3(s) => !s.ram_enable,
        MbcState::Mbc5(s) => !s.ram_enable,
    }
}

/// Mapped cartridge RAM reads back what was written (MBC2's built-in RAM
/// keeps only the low nibble; its upper nibble reads as 1s).
pub proof fn lemma_cart_ram_read_after_write(c: CartView, addr: u16, val: u8)
    requires
        0xA000 <= addr <= 0xBFFF,
        ram_mapped(c, addr),
    ensures
        ({
            let (ram, mbc, dirty) = c.write_ram_spec(addr, val);
            CartView { ram, mbc, dirty, ..c }.read_ram_spec(addr) == if c.mbc is Mbc2 {
                0xF0 | (val & 0x0F)
            } else {
                val
            }
        }),
{
    assert(0 <= ram_offset(addr) < RAM_BANK_SIZE);
    if c.mbc is Mbc2 {
        assert((0xF0 | ((val & 0x0F) & 0x0F)) == (0xF0 | (val & 0x0F))) by (bit_vector);
    }
}

/// With its RAM switched off, a cartridge reads `0xFF` from RAM space and
/// ignores writes there.
pub proof fn lemma_cart_ram_disabled(c: CartView, addr: u16, val: u8)
    requires
        ram_disabled(c),
    ensures
        c.read_ram_spec(addr) == 0xFF,
        c.write_ram_spec(addr, val) == (c.ram, c.mbc, c.dirty),
{
}

/// A ROM bank count that is a power of two (2 to 512 banks).
pub open spec fn pow2_bank_count(n: usize) -> bool {
    n == 2 || n == 4 || n == 8 || n == 16 || n == 32 || n == 64 || n == 128 || n == 256 || n == 512
}

proof fn lemma_low_bit_masks(v: u8)
    ensures
        v & 0x7F == v % 128,
        v & 0x1F == v % 32,
        v & 0x0F == v % 16,
        v & 0x03 == v % 4,
        v & 0x01 == v % 2,
{
    assert(v & 0x7F == v % 128 && v & 0x1F == v % 32 && v & 0x0F == v % 16 && v & 0x03 == v % 4
        && v & 0x01 == v % 2) by (bit_vector);
}

/// Masking a bank number with `banks - 1` wraps it to a power-of-two
/// bank count.
proof fn lemma_bank_mask(x: usize, n: usize)
    requires
        pow2_bank_count(n),
        x < 1024,
    ensures
        x & ((n - 1) as usize) == x % n,
{
    assert((n == 2 || n == 4 || n == 8 || n == 16 || n == 32 || n == 64 || n == 128 || n == 256
        || n == 512) && x < 1024 ==> x & ((n - 1) as usize) == x % n) by (bit_vector);
}

/// Offsets `o` in 0x0000-0x3FFF and `0x4000 + o` address byte `o` of a bank.
proof fn lemma_bank_offsets(o: int)
    requires
        0 <= o < 0x4000,
    ensures
        ((0x4000 + o) as u16) as int % 0x4000 == o,
        (o as u16) as int % 0x4000 == o,
{
}

/// The RAM gate: on an MBC1, MBC3 or MBC5, a write of `v` to
/// 0x0000-0x1FFF switches cartridge RAM on exactly when `v`'s low nibble
/// is 0xA and off otherwise; on an MBC2 the same holds for writes below
/// 0x4000 with address bit 8 clear. The ROM banks stay as they were.
pub proof fn lemma_ram_gate(c: CartView, addr: u16, v: u8)
    requires
        !(c.mbc is RomOnly),
        if c.mbc is Mbc2 {
            addr < 0x4000 && addr & 0x0100 == 0
        } else {
            addr <= 0x1FFF
        },
    ensures
        ({
            let d = CartView { mbc: write_register_spec(c.mbc, addr, v), ..c };
            &&& ram_disabled(d) == (v % 16 != 0x0A)
            &&& forall|a: u16| d.rom_bank_spec(a) == c.rom_bank_spec(a)
        }),
{
    lemma_low_bit_masks(v);
}

/// The MBC3 clock latch: writing 0x00 and then 0x01 to 0x6000-0x7FFF
/// copies the running clock into the latched registers that reads see;
/// the running clock itself is untouched.
pub proof fn lemma_mbc3_latch(c: CartView, a1: u16, a2: u16)
    requires
        c.mbc is Mbc3,
        0x6000 <= a1 <= 0x7FFF,
        0x6000 <= a2 <= 0x7FFF,
    ensures
        ({
            let m = write_register_spec(write_register_spec(c.mbc, a1, 0x00), a2, 0x01);
            &&& m is Mbc3
            &&& m->Mbc3_0.rtc_latched == c.mbc->Mbc3_0.rtc
            &&& m->Mbc3_0.rtc == c.mbc->Mbc3_0.rtc
        }),
{
}

/// MBC1 ROM banking: after writes of `v` to 0x2000-0x3FFF and `w` to
/// 0x4000-0x5FFF, 0x4000-0x7FFF reads bank `32 * (w mod 4) + (v mod 32)`
/// (1 in place of a low part of 0), wrapped to the cartridge's
/// power-of-two bank count; in the default banking mode 0x0000-0x3FFF
/// keeps bank 0.
pub proof fn lemma_mbc1_rom_bank_select(c: CartView, a1: u16, v: u8, a2: u16, w: u8, o: int)
    requires
        c.mbc is Mbc1,
        pow2_bank_count(c.header.rom_banks),
        0x2000 <= a1 <= 0x3FFF,
        0x4000 <= a2 <= 0x5FFF,
        0 <= o < 0x4000,
    ensures
        ({
            let d = CartView {
                mbc: write_register_spec(write_register_spec(c.mbc, a1, v), a2, w),
                ..c
            };
            let low = v as int % 32;
            let sel = 32 * (w as int % 4) + if low == 0 { 1 } else { low };
            &&& d.read_rom_spec((0x4000 + o) as u16) == c.rom[(sel % c.header.rom_banks as int) * 0x4000 + o]
            &&& !c.mbc->Mbc1_0.mode1 ==> d.read_rom_spec(o as u16) == c.rom[o]
        }),
{
    lemma_low_bit_masks(v);
    lemma_low_bit_masks(w);
    let low5 = v & 0x1F;
    let sel = ((w & 0x03) as usize * 32 + (if low5 == 0 { 1 } else { low5 }) as usize) as usize;
    lemma_bank_mask(sel, c.header.rom_banks);
    lemma_bank_offsets(o);
}

/// MBC2 ROM banking: a write of `v` to an address below 0x4000 with
/// address bit 8 set selects bank `v mod 16` (1 in place of 0) for
/// 0x4000-0x7FFF, wrapped to the bank count; 0x0000-0x3FFF keeps bank 0.
pub proof fn lemma_mbc2_rom_bank_select(c: CartView, addr: u16, v: u8, o: int)
    requires
        c.mbc is Mbc2,
        pow2_bank_count(c.header.rom_banks),
        addr < 0x4000,
        addr & 0x0100 != 0,
        0 <= o < 0x4000,
    ensures
        ({
            let d = CartView { mbc: write_register_spec(c.mbc, addr, v), ..c };
            let b = v as int % 16;
            let sel = if b == 0 { 1 } else { b };
            &&& d.read_rom_spec((0x4000 + o) as u16) == c.rom[(sel % c.header.rom_banks as int) * 0x4000 + o]
            &&& d.read_rom_spec(o as u16) == c.rom[o]
        }),
{
    lemma_low_bit_masks(v);
    let b = v & 0x0F;
    let sel: u8 = if b == 0 { 1 } else { b };
    lemma_bank_mask(sel as usize, c.header.rom_banks);
    lemma_bank_offsets(o);
}

/// MBC3 ROM banking: a write of `v` to 0x2000-0x3FFF selects ROM bank
/// `v mod 128` (bank 1 in place of 0) for 0x4000-0x7FFF, wrapped to the
/// cartridge's power-of-two bank count, while 0x0000-0x3FFF keeps bank 0.
pub proof fn lemma_mbc3_rom_bank_select(c: CartView, addr: u16, v: u8, o: int)
    requires
        c.mbc is Mbc3,
        pow2_bank_count(c.header.rom_banks),
        0x2000 <= addr <= 0x3FFF,
        0 <= o < 0x4000,
    ensures
        ({
            let d = CartView { mbc: write_register_spec(c.mbc, addr, v), ..c };
            let b = v as int % 128;
            let sel = if b == 0 { 1 } else { b };
            &&& d.read_rom_spec((0x4000 + o) as u16) == c.rom[(sel % c.header.rom_banks as int) * 0x4000 + o]
            &&& d.read_rom_spec(o as u16) == c.rom[o]
        }),
{
    lemma_low_bit_masks(v);
    let b = v & 0x7F;
    let sel: u8 = if b == 0 { 1 } else { b };
    lemma_bank_mask(sel as usize, c.header.rom_banks);
    lemma_bank_offsets(o);
}

/// MBC5 ROM banking: after writes of `v` to 0x2000-0x2FFF and `u` to
/// 0x3000-0x3FFF, 0x4000-0x7FFF reads bank `256 * (u mod 2) + v` (bank 0
/// included), wrapped to the bank count; 0x0000-0x3FFF keeps bank 0.
pub proof fn lemma_mbc5_rom_bank_select(c: CartView, a1: u16, v: u8, a2: u16, u: u8, o: int)
    requires
        c.mbc is Mbc5,
        pow2_bank_count(c.header.rom_banks),
        0x2000 <= a1 <= 0x2FFF,
        0x3000 <= a2 <= 0x3FFF,
        0 <= o < 0x4000,
    ensures
        ({
            let d = CartView {
                mbc: write_register_spec(write_register_spec(c.mbc, a1, v), a2, u),
                ..c
            };
            let sel = 256 * (u as int % 2) + v as int;
            &&& d.read_rom_spec((0x4000 + o) as u16) == c.rom[(sel % c.header.rom_banks as int) * 0x4000 + o]
            &&& d.read_rom_spec(o as u16) == c.rom[o]
        }),
{
    lemma_low_bit_masks(u);
    let sel = ((u & 0x01) as usize * 256 + v as usize) as usize;
    lemma_bank_mask(sel, c.header.rom_banks);
    lemma_bank_offsets(o);
}

} // verus!

verus! {

/// The MBC state after `Cartridge::step` calls with each of `chunks`, in
/// order.
pub open spec fn rtc_steps(mbc: MbcState, chunks: Seq<u8>) -> MbcState
    decreases chunks.len(),
{
    if chunks.len() == 0 {
        mbc
    } else {
        rtc_step_spec(rtc_steps(mbc, chunks.drop_last()), chunks.last())
    }
}

/// The T-cycles in `chunks` together.
pub open spec fn chunk_total(chunks: Seq<u8>) -> int
    decreases chunks.len(),
{
    if chunks.len() == 0 {
        0
    } else {
        chunk_total(chunks.drop_last()) + chunks.last()
    }
}

/// The clock after `n` seconds.
pub open spec fn ticks(rtc: RtcRegisters, n: nat) -> RtcRegisters
    decreases n,
{
    if n == 0 {
        rtc
    } else {
        tick_spec(ticks(rtc, (n - 1) as nat))
    }
}

proof fn lemma_ticks_keep_halt(rtc: RtcRegisters, n: nat)
    ensures
        ticks(rtc, n).day_high & 0x40 == rtc.day_high & 0x40,
    decreases n,
{
    if n > 0 {
        lemma_ticks_keep_halt(rtc, (n - 1) as nat);
        let r = ticks(rtc, (n - 1) as nat);
        let x = r.day_high;
        let day = (x as int % 2) * 256 + r.day_low as int + 1;
        let day2 = if day > 0x1FF { 0 } else { day };
        let b = ((day2 / 256) % 2) as u8;
        assert(b < 2);
        assert(((x & !0x01u8) | b) & 0x40 == x & 0x40 && (((x | 0x80) & !0x01u8) | b) & 0x40 == x
            & 0x40) by (bit_vector)
            requires
                b < 2,
        ;
    }
}

/// The MBC3 clock counts elapsed time exactly: however the T-cycles are
/// split into steps (each at most 255), a running clock ticks once per
/// `CYCLES_PER_SECOND` cycles in total, keeping the remainder for later;
/// a halted clock, and every other MBC, stands still.
pub proof fn lemma_rtc_counts_seconds(mbc: MbcState, chunks: Seq<u8>)
    requires
        mbc matches MbcState::Mbc3(s) ==> s.rtc_cycle_accum < CYCLES_PER_SECOND,
    ensures
        match mbc {
            MbcState::Mbc3(s) => if s.rtc.day_high & 0x40 != 0 {
                rtc_steps(mbc, chunks) == mbc
            } else {
                let total = s.rtc_cycle_accum + chunk_total(chunks);
                rtc_steps(mbc, chunks) == MbcState::Mbc3(
                    Mbc3State {
                        rtc: ticks(s.rtc, (total / CYCLES_PER_SECOND as int) as nat),
                        rtc_cycle_accum: (total % CYCLES_PER_SECOND as int) as u32,
                        ..s
                    },
                )
            },
            _ => rtc_steps(mbc, chunks) == mbc,
        },
    decreases chunks.len(),
{
    if chunks.len() > 0 {
        let pre = chunks.drop_last();
        let t = chunks.last();
        lemma_rtc_counts_seconds(mbc, pre);
        if let MbcState::Mbc3(s) = mbc {
            if s.rtc.day_high & 0x40 == 0 {
                let c = CYCLES_PER_SECOND as int;
                let a = s.rtc_cycle_accum + chunk_total(pre);
                let q = a / c;
                let r = a % c;
                lemma_ticks_keep_halt(s.rtc, q as nat);
                vstd::arithmetic::div_mod::lemma_fundamental_div_mod(a, c);
                assert(chunk_total(pre) >= 0) by {
                    lemma_chunk_total_nonneg(pre);
                }
                if r + t >= c {
                    vstd::arithmetic::div_mod::lemma_fundamental_div_mod_converse(a + t, c, q + 1, r + t - c);
                    assert(ticks(s.rtc, (q + 1) as nat) == tick_spec(ticks(s.rtc, q as nat)));
                } else {
                    vstd::arithmetic::div_mod::lemma_fundamental_div_mod_converse(a + t, c, q, r + t);
                }
            }
        }
    }
}

proof fn lemma_chunk_total_nonneg(chunks: Seq<u8>)
    ensures
        chunk_total(chunks) >= 0,
    decreases chunks.len(),
{
    if chunks.len() > 0 {
        lemma_chunk_total_nonneg(chunks.drop_last());
    }
}

} // verus!

verus! {

/// Writing a cartridge's battery save and loading it into a cartridge of
/// the same kind (same header, RAM size and MBC) gives back the saved RAM
/// and a clean dirty flag. Without an MBC3 clock the bank state is kept,
/// so the reloaded cartridge saves the same bytes and, in the same bank
/// state as the saved one, reads the same RAM; with a clock, the clock is
/// set to the saved (latched) registers.
pub proof fn lemma_battery_save_reload(c: CartView, d: CartView)
    requires
        d.header == c.header,
        d.ram.len() == c.ram.len(),
        c.mbc is Mbc3 <==> d.mbc is Mbc3,
    ensures
        ({
            let rtc = c.header.has_rtc;
            let saved = battery_ram_spec(c.ram, c.mbc, rtc);
            let (r, m) = load_battery_spec(d.ram, d.mbc, rtc, saved);
            let e = CartView { ram: r, mbc: m, dirty: false, ..d };
            &&& e.ram == c.ram
            &&& !e.dirty
            &&& !(rtc && d.mbc is Mbc3) ==> e.mbc == d.mbc && battery_ram_spec(e.ram, e.mbc, rtc)
                == saved
            &&& !(rtc && d.mbc is Mbc3) && d.mbc == c.mbc ==> forall|a: u16| #[trigger] e.read_ram_spec(a)
                == c.read_ram_spec(a)
            &&& (rtc && d.mbc is Mbc3) ==> e.mbc == (MbcState::Mbc3(
                Mbc3State { rtc: c.mbc->Mbc3_0.rtc_latched, ..d.mbc->Mbc3_0 },
            ))
        }),
{
    lemma_battery_round_trip(c.ram, c.mbc, d.ram, d.mbc, c.header.has_rtc);
}

/// What well-formedness tells callers about a cartridge's shape: ROM and
/// RAM sized as its header says, and a bank-select state of the header's
/// MBC kind.
pub proof fn lemma_wf_shape(c: Cartridge)
    requires
        c.wf(),
    ensures
        c.rom_spec().len() == c.header_view().rom_banks * ROM_BANK_SIZE,
        c.ram_spec().len() == ram_len_for(c.header_view()),
        mbc_kind_matches(c.mbc_spec(), c.header_view().mbc),
{
}

/// The battery save of one cartridge, loaded into another parsed from the
/// same header, restores its RAM with a clean dirty flag; without an MBC3
/// clock the reloaded cartridge saves the same bytes and, in the same bank
/// state, reads the same RAM; with a clock, the clock is set to the saved
/// (latched) registers.
pub proof fn lemma_cartridge_battery_reload(c: Cartridge, d: Cartridge)
    requires
        c.wf(),
        d.wf(),
        d.header_view() == c.header_view(),
    ensures
        ({
            let rtc = c.header_view().has_rtc;
            let saved = battery_ram_spec(c.ram_spec(), c.mbc_spec(), rtc);
            let (r, m) = load_battery_spec(d.ram_spec(), d.mbc_spec(), rtc, saved);
            let e = CartView { ram: r, mbc: m, dirty: false, ..d@ };
            &&& e.ram == c.ram_spec()
            &&& !(rtc && d.mbc_spec() is Mbc3) ==> e.mbc == d.mbc_spec() && battery_ram_spec(
                e.ram,
                e.mbc,
                rtc,
            ) == saved
            &&& !(rtc && d.mbc_spec() is Mbc3) && d.mbc_spec() == c.mbc_spec() ==> forall|a: u16|
                #[trigger] e.read_ram_spec(a) == c@.read_ram_spec(a)
            &&& (rtc && d.mbc_spec() is Mbc3) ==> e.mbc == (MbcState::Mbc3(
                Mbc3State { rtc: c.mbc_spec()->Mbc3_0.rtc_latched, ..d.mbc_spec()->Mbc3_0 },
            ))
        }),
{
    lemma_battery_save_reload(c@, d@);
}

} // verus!
