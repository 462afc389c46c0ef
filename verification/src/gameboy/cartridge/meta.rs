//! The header of a cartridge.

use vstd::prelude::*;
use vstd::string::StringExecFns;

verus! {

/// The first address of the title in the header.
pub const TITLE_START: usize = 0x0134;

/// The address behind the title in the header.
pub const TITLE_END: usize = 0x0143;

/// The length of the header: the addresses below it are read.
pub const HEADER_END: usize = 0x0150;

/// The kind of a cartridge: its bank controller and what it carries.
#[allow(non_camel_case_types)]
#[derive(Debug, Copy, Clone, PartialEq, Eq, Structural)]
pub enum CartridgeType {
    ROM_ONLY,
    ROM_MBC1,
    ROM_MBC1_RAM,
    ROM_MBC1_RAM_BATT,
    ROM_MBC2,
    ROM_MBC2_BATT,
    ROM_MMM01,
    ROM_MMM01_RAM,
    ROM_MMM01_RAM_BATT,
    ROM_MBC3_TIMER_BATT,
    ROM_MBC3_TIMER_RAM_BATT,
    ROM_MBC3,
    ROM_MBC3_RAM,
    ROM_MBC3_RAM_BATT,
    ROM_MBC5,
    ROM_MBC5_RAM,
    ROM_MBC5_RAM_BATT,
    ROM_MBC5_RUMBLE,
    ROM_MBC5_RUMBLE_RAM,
    ROM_MBC5_RUMBLE_RAM_BATT,
    ROM_MBC7_BATT,
    GAME_GENIE,
    GAME_SHARK3,
    ROM_POCKET_CAMERA,
    ROM_BANDAI_TAMA5,
    ROM_HUC3,
    ROM_HUC1,
}

/// Where a cartridge was to be sold.
#[allow(non_camel_case_types)]
#[derive(Debug, Copy, Clone, PartialEq, Eq, Structural)]
pub enum CartridgeRegion {
    JP,
    NON_JP,
}

/// The console that a cartridge was written for.
#[allow(non_camel_case_types)]
#[derive(Debug, Copy, Clone, PartialEq, Eq, Structural)]
pub enum CartridgePlatform {
    /// Game Boy Color; works on the older consoles too.
    GBC,
    /// Game Boy Color only.
    GBC_ONLY,
    /// Super Game Boy.
    SGB,
    /// Game Boy.
    GB,
}

/// The kind that the type byte `t` of a header names, if it names one.
pub open spec fn spec_type(t: u8) -> Option<CartridgeType> {
    if t == 0x00 {
        Some(CartridgeType::ROM_ONLY)
    } else if t == 0x01 {
        Some(CartridgeType::ROM_MBC1)
    } else if t == 0x02 {
        Some(CartridgeType::ROM_MBC1_RAM)
    } else if t == 0x03 {
        Some(CartridgeType::ROM_MBC1_RAM_BATT)
    } else if t == 0x05 {
        Some(CartridgeType::ROM_MBC2)
    } else if t == 0x06 {
        Some(CartridgeType::ROM_MBC2_BATT)
    } else if t == 0x0b {
        Some(CartridgeType::ROM_MMM01)
    } else if t == 0x0c {
        Some(CartridgeType::ROM_MMM01_RAM)
    } else if t == 0x0d {
        Some(CartridgeType::ROM_MMM01_RAM_BATT)
    } else if t == 0x0f {
        Some(CartridgeType::ROM_MBC3_TIMER_BATT)
    } else if t == 0x10 {
        Some(CartridgeType::ROM_MBC3_TIMER_RAM_BATT)
    } else if t == 0x11 {
        Some(CartridgeType::ROM_MBC3)
    } else if t == 0x12 {
        Some(CartridgeType::ROM_MBC3_RAM)
    } else if t == 0x13 {
        Some(CartridgeType::ROM_MBC3_RAM_BATT)
    } else if t == 0x19 {
        Some(CartridgeType::ROM_MBC5)
    } else if t == 0x1a {
        Some(CartridgeType::ROM_MBC5_RAM)
    } else if t == 0x1b {
        Some(CartridgeType::ROM_MBC5_RAM_BATT)
    } else if t == 0x1c {
        Some(CartridgeType::ROM_MBC5_RUMBLE)
    } else if t == 0x1d {
        Some(CartridgeType::ROM_MBC5_RUMBLE_RAM)
    } else if t == 0x1e {
        Some(CartridgeType::ROM_MBC5_RUMBLE_RAM_BATT)
    } else if t == 0x22 {
        Some(CartridgeType::ROM_MBC7_BATT)
    } else if t == 0x55 {
        Some(CartridgeType::GAME_GENIE)
    } else if t == 0x56 {
        Some(CartridgeType::GAME_SHARK3)
    } else if t == 0xfc {
        Some(CartridgeType::ROM_POCKET_CAMERA)
    } else if t == 0xfd {
        Some(CartridgeType::ROM_BANDAI_TAMA5)
    } else if t == 0xfe {
        Some(CartridgeType::ROM_HUC3)
    } else if t == 0xff {
        Some(CartridgeType::ROM_HUC1)
    } else {
        None
    }
}

/// The size in bytes of the ROM that the size byte `b` of a header names,
/// if it names one: a number of banks of 16 KiB.
pub open spec fn spec_rom_size(b: u8) -> Option<usize> {
    if b <= 8 {
        Some((32768 * vstd::arithmetic::power2::pow2(b as nat)) as usize)
    } else if b == 0x52 {
        Some((16384 * 72) as usize)
    } else if b == 0x53 {
        Some((16384 * 80) as usize)
    } else if b == 0x54 {
        Some((16384 * 96) as usize)
    } else {
        None
    }
}

/// The size in bytes of the RAM that the size byte `b` of a header names,
/// if it names one.
pub open spec fn spec_ram_size(b: u8) -> Option<usize> {
    if b == 0 {
        Some(0)
    } else if b == 1 {
        Some(2048)
    } else if b == 2 {
        Some(8192)
    } else if b == 3 {
        Some(32768)
    } else if b == 4 {
        Some(131072)
    } else if b == 5 {
        Some(65536)
    } else {
        None
    }
}

/// The number of title bytes from `from` on: those before the first zero
/// byte and before the end of the title.
pub open spec fn spec_title_len(data: Seq<u8>, from: int) -> int
    decreases TITLE_END - from,
{
    if from >= TITLE_END || data[from] == 0 {
        0
    } else {
        1 + spec_title_len(data, from + 1)
    }
}

/// The title in a header: the bytes from 0x0134 up to the first zero byte,
/// 15 at most, each as a character.
pub open spec fn spec_title(data: Seq<u8>) -> Seq<char> {
    Seq::new(
        spec_title_len(data, TITLE_START as int) as nat,
        |i: int| data[TITLE_START + i] as char,
    )
}

/// The platform in a header: the SGB flag at 0x0146 decides before the CGB
/// flag at 0x0143.
pub open spec fn spec_platform(data: Seq<u8>) -> CartridgePlatform {
    if data[0x0146] == 0x03 {
        CartridgePlatform::SGB
    } else if data[0x0143] == 0x80 {
        CartridgePlatform::GBC
    } else if data[0x0143] == 0xc0 {
        CartridgePlatform::GBC_ONLY
    } else {
        CartridgePlatform::GB
    }
}

/// The region in a header.
pub open spec fn spec_region(data: Seq<u8>) -> CartridgeRegion {
    if data[0x014a] == 0 {
        CartridgeRegion::JP
    } else {
        CartridgeRegion::NON_JP
    }
}

/// The lower-case hexadecimal digit of a number below 16.
pub open spec fn spec_hex_digit(n: u8) -> char {
    if n < 10 {
        (48 + n) as char
    } else {
        (87 + n) as char
    }
}

/// The publisher that the two characters of a new licensee code name, if
/// the code is a known one.
pub open spec fn spec_licensee_name(a: u8, b: u8) -> Option<Seq<char>> {
    if a == 48 && b == 48 {
        Some("none"@)
    } else if a == 48 && b == 49 {
        Some("Nintendo R&D1"@)
    } else if a == 48 && b == 56 {
        Some("Capcom"@)
    } else if a == 49 && b == 51 {
        Some("Electronic Arts"@)
    } else if a == 49 && b == 56 {
        Some("Hudson Soft"@)
    } else if a == 49 && b == 57 {
        Some("b-ai"@)
    } else if a == 50 && b == 48 {
        Some("kss"@)
    } else if a == 50 && b == 50 {
        Some("pow"@)
    } else if a == 50 && b == 52 {
        Some("PCM Complete"@)
    } else if a == 50 && b == 53 {
        Some("san-x"@)
    } else if a == 50 && b == 56 {
        Some("Kemco Japan"@)
    } else if a == 50 && b == 57 {
        Some("seta"@)
    } else if a == 51 && b == 48 {
        Some("Viacom"@)
    } else if a == 51 && b == 49 {
        Some("Nintendo"@)
    } else if a == 51 && b == 50 {
        Some("Bandai"@)
    } else if a == 51 && b == 51 {
        Some("Ocean/Acclaim"@)
    } else if a == 51 && b == 52 {
        Some("Konami"@)
    } else if a == 51 && b == 53 {
        Some("Hector"@)
    } else if a == 51 && b == 55 {
        Some("Taito"@)
    } else if a == 51 && b == 56 {
        Some("Hudson"@)
    } else if a == 51 && b == 57 {
        Some("Banpresto"@)
    } else if a == 52 && b == 49 {
        Some("Ubi Soft"@)
    } else if a == 52 && b == 50 {
        Some("Atlus"@)
    } else if a == 52 && b == 52 {
        Some("Malibu"@)
    } else if a == 52 && b == 54 {
        Some("angel"@)
    } else if a == 52 && b == 55 {
        Some("Bullet-Proof"@)
    } else if a == 52 && b == 57 {
        Some("irem"@)
    } else if a == 53 && b == 48 {
        Some("Absolute"@)
    } else if a == 53 && b == 49 {
        Some("Acclaim"@)
    } else if a == 53 && b == 50 {
        Some("Activision sammy"@)
    } else if a == 53 && b == 51 {
        Some("American"@)
    } else if a == 53 && b == 52 {
        Some("Konami"@)
    } else if a == 53 && b == 53 {
        Some("Hi tech entertainment"@)
    } else if a == 53 && b == 54 {
        Some("LJN"@)
    } else if a == 53 && b == 55 {
        Some("Matchbox"@)
    } else if a == 53 && b == 56 {
        Some("Mattel"@)
    } else if a == 53 && b == 57 {
        Some("Milton Bradley"@)
    } else if a == 54 && b == 48 {
        Some("Titus"@)
    } else if a == 54 && b == 49 {
        Some("Virgin"@)
    } else if a == 54 && b == 52 {
        Some("LucasArts"@)
    } else if a == 54 && b == 55 {
        Some("Ocean"@)
    } else if a == 54 && b == 57 {
        Some("Electronic Arts"@)
    } else if a == 55 && b == 48 {
        Some("Infogrames"@)
    } else if a == 55 && b == 49 {
        Some("Interplay"@)
    } else if a == 55 && b == 50 {
        Some("Broderbund"@)
    } else if a == 55 && b == 51 {
        Some("sculptured"@)
    } else if a == 55 && b == 53 {
        Some("sci"@)
    } else if a == 55 && b == 56 {
        Some("THQ"@)
    } else if a == 55 && b == 57 {
        Some("Accolade"@)
    } else if a == 56 && b == 48 {
        Some("misawa"@)
    } else if a == 56 && b == 51 {
        Some("lozc"@)
    } else if a == 56 && b == 54 {
        Some("tokuma shoten i*"@)
    } else if a == 56 && b == 55 {
        Some("tsukuda ori*"@)
    } else if a == 57 && b == 49 {
        Some("Chunsoft"@)
    } else if a == 57 && b == 50 {
        Some("Video system"@)
    } else if a == 57 && b == 51 {
        Some("Ocean/Acclaim"@)
    } else if a == 57 && b == 53 {
        Some("Varie"@)
    } else if a == 57 && b == 54 {
        Some("Yonezawa/s'pal"@)
    } else if a == 57 && b == 55 {
        Some("Kaneko"@)
    } else if a == 57 && b == 57 {
        Some("Pack in soft"@)
    } else if a == 65 && b == 52 {
        Some("Konami(Yu-Gi-Oh!)"@)
    } else {
        None
    }
}

/// The licensee in a header. Where the old code at 0x014B is 0x33, the two
/// characters at 0x0144 name the publisher; an unknown pair is reported as
/// such. Any other old code is given as two hexadecimal digits.
pub open spec fn spec_licensee(data: Seq<u8>) -> Seq<char> {
    if data[0x014b] == 0x33 {
        match spec_licensee_name(data[0x0144], data[0x0145]) {
            Some(name) => name,
            None => "unknown licensee code "@ + seq![data[0x0144] as char, data[0x0145] as char],
        }
    } else {
        seq![spec_hex_digit(data[0x014b] / 16), spec_hex_digit(data[0x014b] % 16)]
    }
}

/// Whether `data` holds a header that can be read: it is long enough, and
/// its type and size bytes name a kind and sizes.
pub open spec fn spec_header_ok(data: Seq<u8>) -> bool {
    &&& data.len() >= HEADER_END
    &&& spec_type(data[0x0147]).is_some()
    &&& spec_rom_size(data[0x0148]).is_some()
    &&& spec_ram_size(data[0x0149]).is_some()
}

/// What the header of a cartridge says.
pub struct MetaView {
    pub title: Seq<char>,
    pub rom_size: usize,
    pub ram_size: usize,
    pub kind: CartridgeType,
    pub region: CartridgeRegion,
    pub support_sgb: bool,
    pub licensee: Seq<char>,
    pub platform: CartridgePlatform,
}

/// What the header in `data` says.
pub open spec fn spec_meta(data: Seq<u8>) -> MetaView {
    MetaView {
        title: spec_title(data),
        rom_size: spec_rom_size(data[0x0148]).unwrap(),
        ram_size: spec_ram_size(data[0x0149]).unwrap(),
        kind: spec_type(data[0x0147]).unwrap(),
        region: spec_region(data),
        support_sgb: data[0x0146] != 0,
        licensee: spec_licensee(data),
        platform: spec_platform(data),
    }
}

/// `String::push`: appends the character `c` to `s`.
#[verifier::external_body]
fn push_char(s: &mut String, c: char)
    ensures
        final(s)@ == old(s)@.push(c),
{
    s.push(c);
}

/// Returns the lower-case hexadecimal digit of a number below 16.
pub fn hex_digit(n: u8) -> (c: char)
    requires
        n < 16,
    ensures
        c == spec_hex_digit(n),
{
    if n < 10 {
        (48 + n) as char
    } else {
        (87 + n) as char
    }
}

/// Returns the publisher that the two characters of a new licensee code
/// name.
pub fn licensee_name(a: u8, b: u8) -> (r: Option<&'static str>)
    ensures
        r.is_some() == spec_licensee_name(a, b).is_some(),
        r matches Some(s) ==> Some(s@) == spec_licensee_name(a, b),
{
    if a == 48 && b == 48 {
        Some("none")
    } else if a == 48 && b == 49 {
        Some("Nintendo R&D1")
    } else if a == 48 && b == 56 {
        Some("Capcom")
    } else if a == 49 && b == 51 {
        Some("Electronic Arts")
    } else if a == 49 && b == 56 {
        Some("Hudson Soft")
    } else if a == 49 && b == 57 {
        Some("b-ai")
    } else if a == 50 && b == 48 {
        Some("kss")
    } else if a == 50 && b == 50 {
        Some("pow")
    } else if a == 50 && b == 52 {
        Some("PCM Complete")
    } else if a == 50 && b == 53 {
        Some("san-x")
    } else if a == 50 && b == 56 {
        Some("Kemco Japan")
    } else if a == 50 && b == 57 {
        Some("seta")
    } else if a == 51 && b == 48 {
        Some("Viacom")
    } else if a == 51 && b == 49 {
        Some("Nintendo")
    } else if a == 51 && b == 50 {
        Some("Bandai")
    } else if a == 51 && b == 51 {
        Some("Ocean/Acclaim")
    } else if a == 51 && b == 52 {
        Some("Konami")
    } else if a == 51 && b == 53 {
        Some("Hector")
    } else if a == 51 && b == 55 {
        Some("Taito")
    } else if a == 51 && b == 56 {
        Some("Hudson")
    } else if a == 51 && b == 57 {
        Some("Banpresto")
    } else if a == 52 && b == 49 {
        Some("Ubi Soft")
    } else if a == 52 && b == 50 {
        Some("Atlus")
    } else if a == 52 && b == 52 {
        Some("Malibu")
    } else if a == 52 && b == 54 {
        Some("angel")
    } else if a == 52 && b == 55 {
        Some("Bullet-Proof")
    } else if a == 52 && b == 57 {
        Some("irem")
    } else if a == 53 && b == 48 {
        Some("Absolute")
    } else if a == 53 && b == 49 {
        Some("Acclaim")
    } else if a == 53 && b == 50 {
        Some("Activision sammy")
    } else if a == 53 && b == 51 {
        Some("American")
    } else if a == 53 && b == 52 {
        Some("Konami")
    } else if a == 53 && b == 53 {
        Some("Hi tech entertainment")
    } else if a == 53 && b == 54 {
        Some("LJN")
    } else if a == 53 && b == 55 {
        Some("Matchbox")
    } else if a == 53 && b == 56 {
        Some("Mattel")
    } else if a == 53 && b == 57 {
        Some("Milton Bradley")
    } else if a == 54 && b == 48 {
        Some("Titus")
    } else if a == 54 && b == 49 {
        Some("Virgin")
    } else if a == 54 && b == 52 {
        Some("LucasArts")
    } else if a == 54 && b == 55 {
        Some("Ocean")
    } else if a == 54 && b == 57 {
        Some("Electronic Arts")
    } else if a == 55 && b == 48 {
        Some("Infogrames")
    } else if a == 55 && b == 49 {
        Some("Interplay")
    } else if a == 55 && b == 50 {
        Some("Broderbund")
    } else if a == 55 && b == 51 {
        Some("sculptured")
    } else if a == 55 && b == 53 {
        Some("sci")
    } else if a == 55 && b == 56 {
        Some("THQ")
    } else if a == 55 && b == 57 {
        Some("Accolade")
    } else if a == 56 && b == 48 {
        Some("misawa")
    } else if a == 56 && b == 51 {
        Some("lozc")
    } else if a == 56 && b == 54 {
        Some("tokuma shoten i*")
    } else if a == 56 && b == 55 {
        Some("tsukuda ori*")
    } else if a == 57 && b == 49 {
        Some("Chunsoft")
    } else if a == 57 && b == 50 {
        Some("Video system")
    } else if a == 57 && b == 51 {
        Some("Ocean/Acclaim")
    } else if a == 57 && b == 53 {
        Some("Varie")
    } else if a == 57 && b == 54 {
        Some("Yonezawa/s'pal")
    } else if a == 57 && b == 55 {
        Some("Kaneko")
    } else if a == 57 && b == 57 {
        Some("Pack in soft")
    } else if a == 65 && b == 52 {
        Some("Konami(Yu-Gi-Oh!)")
    } else {
        None
    }
}

/// The header of a cartridge, read from the bytes 0x0100 to 0x014F of its
/// ROM.
#[derive(Debug, Clone)]
pub struct CartridgeMeta {
    pub title: String,
    pub rom_size: usize,
    pub ram_size: usize,
    pub kind: CartridgeType,
    pub region: CartridgeRegion,
    pub support_sgb: bool,
    pub licensee: String,
    pub platform: CartridgePlatform,
}

impl CartridgeMeta {
    /// What the header says.
    pub open spec fn view(&self) -> MetaView {
        MetaView {
            title: self.title@,
            rom_size: self.rom_size,
            ram_size: self.ram_size,
            kind: self.kind,
            region: self.region,
            support_sgb: self.support_sgb,
            licensee: self.licensee@,
            platform: self.platform,
        }
    }

    /// Returns whether `data` holds a header that can be read.
    pub fn header_ok(data: &Vec<u8>) -> (r: bool)
        ensures
            r == spec_header_ok(data@),
    {
        if data.len() < HEADER_END {
            return false;
        }
        Self::type_of(data[0x0147]).is_some() && Self::rom_size_of(data[0x0148]).is_some()
            && Self::ram_size_of(data[0x0149]).is_some()
    }

    /// Returns the kind that the type byte `t` names.
    pub fn type_of(t: u8) -> (r: Option<CartridgeType>)
        ensures
            r == spec_type(t),
    {
        match t {
            0x00 => Some(CartridgeType::ROM_ONLY),
            0x01 => Some(CartridgeType::ROM_MBC1),
            0x02 => Some(CartridgeType::ROM_MBC1_RAM),
            0x03 => Some(CartridgeType::ROM_MBC1_RAM_BATT),
            0x05 => Some(CartridgeType::ROM_MBC2),
            0x06 => Some(CartridgeType::ROM_MBC2_BATT),
            0x0b => Some(CartridgeType::ROM_MMM01),
            0x0c => Some(CartridgeType::ROM_MMM01_RAM),
            0x0d => Some(CartridgeType::ROM_MMM01_RAM_BATT),
            0x0f => Some(CartridgeType::ROM_MBC3_TIMER_BATT),
            0x10 => Some(CartridgeType::ROM_MBC3_TIMER_RAM_BATT),
            0x11 => Some(CartridgeType::ROM_MBC3),
            0x12 => Some(CartridgeType::ROM_MBC3_RAM),
            0x13 => Some(CartridgeType::ROM_MBC3_RAM_BATT),
            0x19 => Some(CartridgeType::ROM_MBC5),
            0x1a => Some(CartridgeType::ROM_MBC5_RAM),
            0x1b => Some(CartridgeType::ROM_MBC5_RAM_BATT),
            0x1c => Some(CartridgeType::ROM_MBC5_RUMBLE),
            0x1d => Some(CartridgeType::ROM_MBC5_RUMBLE_RAM),
            0x1e => Some(CartridgeType::ROM_MBC5_RUMBLE_RAM_BATT),
            0x22 => Some(CartridgeType::ROM_MBC7_BATT),
            0x55 => Some(CartridgeType::GAME_GENIE),
            0x56 => Some(CartridgeType::GAME_SHARK3),
            0xfc => Some(CartridgeType::ROM_POCKET_CAMERA),
            0xfd => Some(CartridgeType::ROM_BANDAI_TAMA5),
            0xfe => Some(CartridgeType::ROM_HUC3),
            0xff => Some(CartridgeType::ROM_HUC1),
            _ => None,
        }
    }

    /// Returns the ROM size in bytes that the size byte `b` names.
    pub fn rom_size_of(b: u8) -> (r: Option<usize>)
        ensures
            r == spec_rom_size(b),
    {
        proof {
            vstd::arithmetic::power2::lemma2_to64();
        }
        let bank: usize = 16384;
        match b {
            0x00 => Some(bank * 2),
            0x01 => Some(bank * 4),
            0x02 => Some(bank * 8),
            0x03 => Some(bank * 16),
            0x04 => Some(bank * 32),
            0x05 => Some(bank * 64),
            0x06 => Some(bank * 128),
            0x07 => Some(bank * 256),
            0x08 => Some(bank * 512),
            0x52 => Some(bank * 72),
            0x53 => Some(bank * 80),
            0x54 => Some(bank * 96),
            _ => None,
        }
    }

    /// Returns the RAM size in bytes that the size byte `b` names.
    pub fn ram_size_of(b: u8) -> (r: Option<usize>)
        ensures
            r == spec_ram_size(b),
    {
        match b {
            0x00 => Some(1024 * 0),
            0x01 => Some(1024 * 2),
            0x02 => Some(1024 * 8),
            0x03 => Some(1024 * 32),
            0x04 => Some(1024 * 128),
            0x05 => Some(1024 * 64),
            _ => None,
        }
    }

    /// Parses the type byte of the header.
    pub fn parse_type(data: &Vec<u8>) -> (r: CartridgeType)
        requires
            data.len() >= HEADER_END,
            spec_type(data[0x0147]).is_some(),
        ensures
            Some(r) == spec_type(data[0x0147]),
    {
        match Self::type_of(data[0x0147]) {
            Some(t) => t,
            None => CartridgeType::ROM_ONLY,
        }
    }

    /// Parses the ROM size byte of the header.
    pub fn parse_rom_size(data: &Vec<u8>) -> (r: usize)
        requires
            data.len() >= HEADER_END,
            spec_rom_size(data[0x0148]).is_some(),
        ensures
            Some(r) == spec_rom_size(data[0x0148]),
    {
        match Self::rom_size_of(data[0x0148]) {
            Some(n) => n,
            None => 0,
        }
    }

    /// Parses the RAM size byte of the header.
    pub fn parse_ram_size(data: &Vec<u8>) -> (r: usize)
        requires
            data.len() >= HEADER_END,
            spec_ram_size(data[0x0149]).is_some(),
        ensures
            Some(r) == spec_ram_size(data[0x0149]),
    {
        match Self::ram_size_of(data[0x0149]) {
            Some(n) => n,
            None => 0,
        }
    }

    /// Parses the title of the header.
    pub fn parse_title(data: &Vec<u8>) -> (name: String)
        requires
            data.len() >= HEADER_END,
        ensures
            name@ == spec_title(data@),
    {
        let mut name = String::new();
        let mut i: usize = TITLE_START;
        while i < TITLE_END && data[i] != 0x00
            invariant
                TITLE_START <= i <= TITLE_END,
                data.len() >= HEADER_END,
                name@.len() == i - TITLE_START,
                forall|k: int| 0 <= k < name@.len() ==> name@[k] == data@[TITLE_START + k] as char,
                spec_title_len(data@, TITLE_START as int) == (i - TITLE_START) + spec_title_len(
                    data@,
                    i as int,
                ),
            decreases TITLE_END - i,
        {
            push_char(&mut name, data[i] as char);
            i = i + 1;
        }
        assert(name@ =~= spec_title(data@));
        name
    }

    /// Parses the platform of the header.
    pub fn parse_platform(data: &Vec<u8>) -> (r: CartridgePlatform)
        requires
            data.len() >= HEADER_END,
        ensures
            r == spec_platform(data@),
    {
        if data[0x0146] == 0x03 {
            CartridgePlatform::SGB
        } else if data[0x0143] == 0x80 {
            CartridgePlatform::GBC
        } else if data[0x0143] == 0xc0 {
            CartridgePlatform::GBC_ONLY
        } else {
            CartridgePlatform::GB
        }
    }

    /// Parses the destination code of the header.
    pub fn parse_region(data: &Vec<u8>) -> (r: CartridgeRegion)
        requires
            data.len() >= HEADER_END,
        ensures
            r == spec_region(data@),
    {
        if data[0x014a] == 0 {
            CartridgeRegion::JP
        } else {
            CartridgeRegion::NON_JP
        }
    }

    /// Parses the SGB flag of the header.
    pub fn parse_sgb_flag(data: &Vec<u8>) -> (r: bool)
        requires
            data.len() >= HEADER_END,
        ensures
            r == (data[0x0146] != 0),
    {
        data[0x0146] != 0
    }

    /// Parses the licensee of the header.
    pub fn parse_licensee(data: &Vec<u8>) -> (r: String)
        requires
            data.len() >= HEADER_END,
        ensures
            r@ == spec_licensee(data@),
    {
        if data[0x014b] == 0x33 {
            match licensee_name(data[0x0144], data[0x0145]) {
                Some(name) => String::from_str(name),
                None => {
                    let mut s = String::from_str("unknown licensee code ");
                    push_char(&mut s, data[0x0144] as char);
                    push_char(&mut s, data[0x0145] as char);
                    assert(s@ =~= "unknown licensee code "@ + seq![
                        data[0x0144] as char,
                        data[0x0145] as char,
                    ]);
                    s
                },
            }
        } else {
            let b = data[0x014b];
            let mut s = String::new();
            push_char(&mut s, hex_digit(b / 16));
            push_char(&mut s, hex_digit(b % 16));
            assert(s@ =~= seq![spec_hex_digit(b / 16), spec_hex_digit(b % 16)]);
            s
        }
    }

    /// Returns the ROM size in bytes.
    pub fn get_rom_size(&self) -> (r: usize)
        ensures
            r == self@.rom_size,
    {
        self.rom_size
    }

    /// Returns the RAM size in bytes.
    pub fn get_ram_size(&self) -> (r: usize)
        ensures
            r == self@.ram_size,
    {
        self.ram_size
    }

    /// Returns the kind of the cartridge.
    pub fn get_type(&self) -> (r: CartridgeType)
        ensures
            r == self@.kind,
    {
        self.kind
    }

    /// Returns the title.
    pub fn get_title(&self) -> (r: String)
        ensures
            r@ == self@.title,
    {
        self.title.clone()
    }

    /// Returns the region.
    pub fn get_region(&self) -> (r: CartridgeRegion)
        ensures
            r == self@.region,
    {
        self.region
    }

    /// Returns the licensee.
    pub fn get_licensee(&self) -> (r: String)
        ensures
            r@ == self@.licensee,
    {
        self.licensee.clone()
    }

    /// Returns whether the cartridge supports the Super Game Boy.
    pub fn support_sgb(&self) -> (r: bool)
        ensures
            r == self@.support_sgb,
    {
        self.support_sgb
    }

    /// Returns the platform.
    pub fn get_platform(&self) -> (r: CartridgePlatform)
        ensures
            r == self@.platform,
    {
        self.platform
    }

    /// Returns a copy of the header.
    pub fn duplicate(&self) -> (r: CartridgeMeta)
        ensures
            r@ == self@,
    {
        CartridgeMeta {
            title: self.title.clone(),
            rom_size: self.rom_size,
            ram_size: self.ram_size,
            kind: self.kind,
            region: self.region,
            support_sgb: self.support_sgb,
            licensee: self.licensee.clone(),
            platform: self.platform,
        }
    }

    /// Parses the header of a cartridge.
    pub fn new(data: &Vec<u8>) -> (r: Self)
        requires
            spec_header_ok(data@),
        ensures
            r@ == spec_meta(data@),
    {
        let title = Self::parse_title(data);
        let rom_size = Self::parse_rom_size(data);
        let ram_size = Self::parse_ram_size(data);
        let kind = Self::parse_type(data);
        let region = Self::parse_region(data);
        let support_sgb = Self::parse_sgb_flag(data);
        let licensee = Self::parse_licensee(data);
        let platform = Self::parse_platform(data);
        CartridgeMeta { title, rom_size, ram_size, kind, region, support_sgb, licensee, platform }
    }
}

} // verus!
