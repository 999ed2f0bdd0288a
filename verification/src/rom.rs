//! Cartridge ROM handling: header parsing and validation (logo check,
//! header checksum, title and metadata extraction).

use vstd::prelude::*;

use crate::text::{fmt_hex2, fmt_usize, spec_dec, spec_hex2};

verus! {

/// A ROM image must at least cover the header, which ends at 0x14F.
pub const MIN_ROM_SIZE: usize = 0x150;

/// The boot logo bitmap every licensed cartridge carries at 0x104.
pub open spec fn spec_nintendo_logo() -> Seq<u8> {
    seq![
        0xCEu8, 0xEDu8, 0x66u8, 0x66u8, 0xCCu8, 0x0Du8, 0x00u8, 0x0Bu8, 0x03u8, 0x73u8, 0x00u8,
        0x83u8, 0x00u8, 0x0Cu8, 0x00u8, 0x0Du8, 0x00u8, 0x08u8, 0x11u8, 0x1Fu8, 0x88u8, 0x89u8,
        0x00u8, 0x0Eu8, 0xDCu8, 0xCCu8, 0x6Eu8, 0xE6u8, 0xDDu8, 0xDDu8, 0xD9u8, 0x99u8, 0xBBu8,
        0xBBu8, 0x67u8, 0x63u8, 0x6Eu8, 0x0Eu8, 0xECu8, 0xCCu8, 0xDDu8, 0xDCu8, 0x99u8, 0x9Fu8,
        0xBBu8, 0xB9u8, 0x33u8, 0x3Eu8,
    ]
}

/// The CGB support mode named by the header flag at 0x143.
#[derive(Debug, Clone, Copy, PartialEq, Eq, Structural)]
pub enum CgbMode {
    DmgOnly,
    CgbEnhanced,
    CgbOnly,
    Unknown(u8),
}

/// Why a byte slice is not a valid cartridge header.
#[derive(Debug, Clone, Copy, PartialEq, Eq, Structural)]
pub enum HeaderError {
    RomTooSmall { actual: usize, minimum: usize },
    InvalidNintendoLogo,
    InvalidHeaderChecksum { expected: u8, actual: u8 },
}

/// Why a ROM could not be loaded: a read failure (reported by the caller
/// doing the I/O) or a bad header.
#[derive(Debug, Clone, PartialEq, Eq)]
pub enum RomError {
    Io { path: String, message: String },
    Header(HeaderError),
}

/// The parsed cartridge header.
#[derive(Debug, Clone, PartialEq, Eq)]
pub struct RomHeader {
    pub title: String,
    pub cgb_mode: CgbMode,
    pub sgb_supported: bool,
    pub cartridge_type: u8,
    pub rom_size_code: u8,
    pub rom_size_bytes: Option<usize>,
    pub ram_size_code: u8,
    pub ram_size_bytes: Option<usize>,
    pub destination_code: u8,
    pub old_licensee_code: u8,
    pub new_licensee_code: Option<String>,
    pub mask_rom_version: u8,
    pub header_checksum: u8,
    pub calculated_header_checksum: u8,
    pub global_checksum: u16,
}

/// The mathematical view of a [`RomHeader`]: the strings as character
/// sequences.
#[verifier::ext_equal]
pub struct HeaderModel {
    pub title: Seq<char>,
    pub cgb_mode: CgbMode,
    pub sgb_supported: bool,
    pub cartridge_type: u8,
    pub rom_size_code: u8,
    pub rom_size_bytes: Option<usize>,
    pub ram_size_code: u8,
    pub ram_size_bytes: Option<usize>,
    pub destination_code: u8,
    pub old_licensee_code: u8,
    pub new_licensee_code: Option<Seq<char>>,
    pub mask_rom_version: u8,
    pub header_checksum: u8,
    pub calculated_header_checksum: u8,
    pub global_checksum: u16,
}

impl View for RomHeader {
    type V = HeaderModel;

    open spec fn view(&self) -> HeaderModel {
        HeaderModel {
            title: self.title@,
            cgb_mode: self.cgb_mode,
            sgb_supported: self.sgb_supported,
            cartridge_type: self.cartridge_type,
            rom_size_code: self.rom_size_code,
            rom_size_bytes: self.rom_size_bytes,
            ram_size_code: self.ram_size_code,
            ram_size_bytes: self.ram_size_bytes,
            destination_code: self.destination_code,
            old_licensee_code: self.old_licensee_code,
            new_licensee_code: match self.new_licensee_code {
                Some(code) => Some(code@),
                None => None,
            },
            mask_rom_version: self.mask_rom_version,
            header_checksum: self.header_checksum,
            calculated_header_checksum: self.calculated_header_checksum,
            global_checksum: self.global_checksum,
        }
    }
}

/// A loaded ROM: its bytes, its parsed header, and the path it came from
/// when a caller read it from a file.
#[derive(Debug, Clone, PartialEq, Eq)]
pub struct Rom {
    pub data: Vec<u8>,
    pub header: RomHeader,
    pub path: Option<String>,
}

/// The printable-ASCII projection used for titles and licensee codes:
/// anything outside 0x20..=0x7E becomes '?'.
pub open spec fn spec_sanitize(byte: u8) -> char {
    if 0x20 <= byte && byte <= 0x7E {
        byte as char
    } else {
        '?'
    }
}

/// The index of the first zero byte of `raw` at or after `i`, or
/// `raw.len()` when there is none.
pub open spec fn spec_scan_zero(raw: Seq<u8>, i: nat) -> nat
    decreases raw.len() - i,
{
    if i >= raw.len() {
        i
    } else if raw[i as int] == 0 {
        i
    } else {
        spec_scan_zero(raw, i + 1)
    }
}

/// The length of `raw`'s first `n` bytes once trailing spaces are
/// dropped.
pub open spec fn spec_trim_spaces(raw: Seq<u8>, n: nat) -> nat
    decreases n,
{
    if n == 0 {
        0
    } else if raw[n - 1] == 0x20 {
        spec_trim_spaces(raw, (n - 1) as nat)
    } else {
        n
    }
}

/// The cartridge title: the bytes from 0x134 up to the title field's end
/// (shortened by one when the CGB flag claims the last byte), cut at the
/// first zero, sanitized to printable ASCII and trimmed of trailing
/// spaces.
pub open spec fn spec_title(data: Seq<u8>, cgb_flag: u8) -> Seq<char> {
    let hi: int = if cgb_flag == 0x80 || cgb_flag == 0xC0 {
        0x143
    } else {
        0x144
    };
    let raw = data.subrange(0x134, hi);
    let zero_len = spec_scan_zero(raw, 0);
    let keep = spec_trim_spaces(raw, zero_len);
    Seq::new(keep, |i: int| spec_sanitize(raw[i]))
}

/// The header checksum over the first `n` of the 25 bytes from 0x134:
/// starting from zero, each byte and one more are subtracted, wrapping.
pub open spec fn spec_checksum_prefix(data: Seq<u8>, n: nat) -> u8
    decreases n,
{
    if n == 0 {
        0u8
    } else {
        vstd::wrapping::u8_specs::wrapping_sub(
            vstd::wrapping::u8_specs::wrapping_sub(
                spec_checksum_prefix(data, (n - 1) as nat),
                data[0x134 + n - 1],
            ),
            1,
        )
    }
}

/// The header checksum over the bytes 0x134..=0x14C.
pub open spec fn spec_header_checksum(data: Seq<u8>) -> u8 {
    spec_checksum_prefix(data, 25)
}

/// Whether the logo bitmap at 0x104..0x134 is intact.
pub open spec fn spec_logo_ok(data: Seq<u8>) -> bool {
    data.subrange(0x104, 0x134) == spec_nintendo_logo()
}

/// The CGB mode named by the header flag.
pub open spec fn spec_cgb_mode(flag: u8) -> CgbMode {
    if flag == 0x80 {
        CgbMode::CgbEnhanced
    } else if flag == 0xC0 {
        CgbMode::CgbOnly
    } else if flag == 0x00 {
        CgbMode::DmgOnly
    } else {
        CgbMode::Unknown(flag)
    }
}

/// The ROM size, in bytes, that a ROM-size code names, if any.
pub open spec fn spec_rom_size_bytes(code: u8) -> Option<usize> {
    if code == 0x00 {
        Some(32768usize)
    } else if code == 0x01 {
        Some(65536usize)
    } else if code == 0x02 {
        Some(131072usize)
    } else if code == 0x03 {
        Some(262144usize)
    } else if code == 0x04 {
        Some(524288usize)
    } else if code == 0x05 {
        Some(1048576usize)
    } else if code == 0x06 {
        Some(2097152usize)
    } else if code == 0x07 {
        Some(4194304usize)
    } else if code == 0x08 {
        Some(8388608usize)
    } else if code == 0x52 {
        Some(1179648usize)
    } else if code == 0x53 {
        Some(1310720usize)
    } else if code == 0x54 {
        Some(1572864usize)
    } else {
        None
    }
}

/// The cartridge RAM size, in bytes, that a RAM-size code names, if any.
pub open spec fn spec_ram_size_bytes(code: u8) -> Option<usize> {
    if code == 0x00 {
        Some(0usize)
    } else if code == 0x01 {
        Some(2048usize)
    } else if code == 0x02 {
        Some(8192usize)
    } else if code == 0x03 {
        Some(32768usize)
    } else if code == 0x04 {
        Some(131072usize)
    } else if code == 0x05 {
        Some(65536usize)
    } else {
        None
    }
}

/// The parsed header of a byte image, or why it is rejected: too short,
/// a corrupted logo, or a checksum mismatch, checked in that order.
pub open spec fn spec_parse(data: Seq<u8>) -> Result<HeaderModel, HeaderError> {
    if data.len() < 0x150 {
        Err(HeaderError::RomTooSmall { actual: data.len() as usize, minimum: 0x150usize })
    } else if !spec_logo_ok(data) {
        Err(HeaderError::InvalidNintendoLogo)
    } else if spec_header_checksum(data) != data[0x14D] {
        Err(HeaderError::InvalidHeaderChecksum {
            expected: spec_header_checksum(data),
            actual: data[0x14D],
        })
    } else {
        let cgb_flag = data[0x143];
        let old_licensee = data[0x14B];
        Ok(HeaderModel {
            title: spec_title(data, cgb_flag),
            cgb_mode: spec_cgb_mode(cgb_flag),
            sgb_supported: data[0x146] == 0x03,
            cartridge_type: data[0x147],
            rom_size_code: data[0x148],
            rom_size_bytes: spec_rom_size_bytes(data[0x148]),
            ram_size_code: data[0x149],
            ram_size_bytes: spec_ram_size_bytes(data[0x149]),
            destination_code: data[0x14A],
            old_licensee_code: old_licensee,
            new_licensee_code: if old_licensee == 0x33 {
                Some(seq![spec_sanitize(data[0x144]), spec_sanitize(data[0x145])])
            } else {
                None
            },
            mask_rom_version: data[0x14C],
            header_checksum: data[0x14D],
            calculated_header_checksum: spec_header_checksum(data),
            global_checksum: (((data[0x14E] as u16) << 8) | (data[0x14F] as u16)) as u16,
        })
    }
}

fn sanitize_printable(byte: u8) -> (c: char)
    ensures
        c == spec_sanitize(byte),
{
    if 0x20 <= byte && byte <= 0x7E {
        byte as char
    } else {
        '?'
    }
}

fn nintendo_logo() -> (r: Vec<u8>)
    ensures
        r@ == spec_nintendo_logo(),
{
    let logo: Vec<u8> = vec![
        0xCE, 0xED, 0x66, 0x66, 0xCC, 0x0D, 0x00, 0x0B, 0x03, 0x73, 0x00, 0x83, 0x00, 0x0C, 0x00,
        0x0D, 0x00, 0x08, 0x11, 0x1F, 0x88, 0x89, 0x00, 0x0E, 0xDC, 0xCC, 0x6E, 0xE6, 0xDD, 0xDD,
        0xD9, 0x99, 0xBB, 0xBB, 0x67, 0x63, 0x6E, 0x0E, 0xEC, 0xCC, 0xDD, 0xDC, 0x99, 0x9F, 0xBB,
        0xB9, 0x33, 0x3E,
    ];
    proof {
        assert(logo@ =~= spec_nintendo_logo());
    }
    logo
}

fn calculate_header_checksum(data: &[u8]) -> (r: u8)
    requires
        data@.len() >= 0x150,
    ensures
        r == spec_header_checksum(data@),
{
    let mut checksum: u8 = 0;
    let mut i: usize = 0;
    while i < 25
        invariant
            i <= 25,
            data@.len() >= 0x150,
            checksum == spec_checksum_prefix(data@, i as nat),
        decreases 25 - i,
    {
        checksum = checksum.wrapping_sub(data[0x134 + i]).wrapping_sub(1);
        i = i + 1;
    }
    checksum
}

fn parse_title(data: &[u8], cgb_flag: u8) -> (r: String)
    requires
        data@.len() >= 0x150,
    ensures
        r@ == spec_title(data@, cgb_flag),
{
    let end: usize = if cgb_flag == 0x80 || cgb_flag == 0xC0 {
        0x143
    } else {
        0x144
    };
    let ghost raw = data@.subrange(0x134, end as int);

    let mut z: usize = 0x134;
    while z < end && data[z] != 0
        invariant
            0x134 <= z <= end,
            end <= 0x144,
            data@.len() >= 0x150,
            raw == data@.subrange(0x134, end as int),
            spec_scan_zero(raw, 0) == spec_scan_zero(raw, (z - 0x134) as nat),
        decreases end - z,
    {
        z = z + 1;
    }
    proof {
        assert(spec_scan_zero(raw, (z - 0x134) as nat) == (z - 0x134) as nat);
    }

    let mut k: usize = z;
    while k > 0x134 && data[k - 1] == 0x20
        invariant
            0x134 <= k <= z <= end,
            end <= 0x144,
            data@.len() >= 0x150,
            raw == data@.subrange(0x134, end as int),
            spec_trim_spaces(raw, (z - 0x134) as nat) == spec_trim_spaces(raw, (k - 0x134) as nat),
        decreases k,
    {
        k = k - 1;
    }
    proof {
        assert(spec_trim_spaces(raw, (k - 0x134) as nat) == (k - 0x134) as nat);
    }

    let mut title = String::new();
    let mut i: usize = 0x134;
    while i < k
        invariant
            0x134 <= i <= k <= end <= 0x144,
            data@.len() >= 0x150,
            raw == data@.subrange(0x134, end as int),
            title@ == Seq::new((i - 0x134) as nat, |j: int| spec_sanitize(raw[j])),
        decreases k - i,
    {
        title.push(sanitize_printable(data[i]));
        proof {
            assert(title@ =~= Seq::new((i + 1 - 0x134) as nat, |j: int| spec_sanitize(raw[j])));
        }
        i = i + 1;
    }
    proof {
        assert(title@ =~= spec_title(data@, cgb_flag));
    }
    title
}

fn rom_size_bytes(code: u8) -> (r: Option<usize>)
    ensures
        r == spec_rom_size_bytes(code),
{
    if code == 0x00 {
        Some(32 * 1024)
    } else if code == 0x01 {
        Some(64 * 1024)
    } else if code == 0x02 {
        Some(128 * 1024)
    } else if code == 0x03 {
        Some(256 * 1024)
    } else if code == 0x04 {
        Some(512 * 1024)
    } else if code == 0x05 {
        Some(1024 * 1024)
    } else if code == 0x06 {
        Some(2 * 1024 * 1024)
    } else if code == 0x07 {
        Some(4 * 1024 * 1024)
    } else if code == 0x08 {
        Some(8 * 1024 * 1024)
    } else if code == 0x52 {
        Some(1152 * 1024)
    } else if code == 0x53 {
        Some(1280 * 1024)
    } else if code == 0x54 {
        Some(1536 * 1024)
    } else {
        None
    }
}

fn ram_size_bytes(code: u8) -> (r: Option<usize>)
    ensures
        r == spec_ram_size_bytes(code),
{
    if code == 0x00 {
        Some(0)
    } else if code == 0x01 {
        Some(2 * 1024)
    } else if code == 0x02 {
        Some(8 * 1024)
    } else if code == 0x03 {
        Some(32 * 1024)
    } else if code == 0x04 {
        Some(128 * 1024)
    } else if code == 0x05 {
        Some(64 * 1024)
    } else {
        None
    }
}

impl CgbMode {
    fn from_flag(flag: u8) -> (r: CgbMode)
        ensures
            r == spec_cgb_mode(flag),
    {
        if flag == 0x80 {
            CgbMode::CgbEnhanced
        } else if flag == 0xC0 {
            CgbMode::CgbOnly
        } else if flag == 0x00 {
            CgbMode::DmgOnly
        } else {
            CgbMode::Unknown(flag)
        }
    }

    /// The mode's display label.
    pub fn label(&self) -> (r: String)
        ensures
            r@ == spec_cgb_mode_label(*self),
    {
        match self {
            CgbMode::DmgOnly => {
                let mut s = String::new();
                s.append("DMG only");
                s
            },
            CgbMode::CgbEnhanced => {
                let mut s = String::new();
                s.append("CGB enhanced");
                s
            },
            CgbMode::CgbOnly => {
                let mut s = String::new();
                s.append("CGB only");
                s
            },
            CgbMode::Unknown(value) => {
                let mut s = String::new();
                s.append("unknown (0x");
                let hex = fmt_hex2(*value);
                s.append(hex.as_str());
                s.append(")");
                s
            },
        }
    }
}

/// The display label of a CGB mode.
pub open spec fn spec_cgb_mode_label(mode: CgbMode) -> Seq<char> {
    match mode {
        CgbMode::DmgOnly => "DMG only"@,
        CgbMode::CgbEnhanced => "CGB enhanced"@,
        CgbMode::CgbOnly => "CGB only"@,
        CgbMode::Unknown(value) => "unknown (0x"@ + spec_hex2(value) + ")"@,
    }
}

/// The display message of a header error.
pub open spec fn spec_header_error_message(e: HeaderError) -> Seq<char> {
    match e {
        HeaderError::RomTooSmall { actual, minimum } => "ROM too small: got "@ + spec_dec(
            actual as nat,
        ) + " bytes, need at least "@ + spec_dec(minimum as nat),
        HeaderError::InvalidNintendoLogo => "invalid Nintendo logo in ROM header"@,
        HeaderError::InvalidHeaderChecksum { expected, actual } => {
            "invalid header checksum: expected 0x"@ + spec_hex2(expected) + ", got 0x"@ + spec_hex2(
                actual,
            )
        },
    }
}

impl HeaderError {
    /// The error rendered for display.
    pub fn message(&self) -> (r: String)
        ensures
            r@ == spec_header_error_message(*self),
    {
        match self {
            HeaderError::RomTooSmall { actual, minimum } => {
                let mut s = String::new();
                s.append("ROM too small: got ");
                let a = fmt_usize(*actual);
                s.append(a.as_str());
                s.append(" bytes, need at least ");
                let m = fmt_usize(*minimum);
                s.append(m.as_str());
                s
            },
            HeaderError::InvalidNintendoLogo => {
                let mut s = String::new();
                s.append("invalid Nintendo logo in ROM header");
                s
            },
            HeaderError::InvalidHeaderChecksum { expected, actual } => {
                let mut s = String::new();
                s.append("invalid header checksum: expected 0x");
                let e = fmt_hex2(*expected);
                s.append(e.as_str());
                s.append(", got 0x");
                let a = fmt_hex2(*actual);
                s.append(a.as_str());
                s
            },
        }
    }
}

/// The display message of a ROM loading error.
pub open spec fn spec_rom_error_message(e: RomError) -> Seq<char> {
    match e {
        RomError::Io { path, message } => "failed to read ROM '"@ + path@ + "': "@ + message@,
        RomError::Header(inner) => spec_header_error_message(inner),
    }
}

impl RomError {
    /// The error rendered for display.
    pub fn message(&self) -> (r: String)
        ensures
            r@ == spec_rom_error_message(*self),
    {
        match self {
            RomError::Io { path, message } => {
                let mut s = String::new();
                s.append("failed to read ROM '");
                s.append(path.as_str());
                s.append("': ");
                s.append(message.as_str());
                s
            },
            RomError::Header(inner) => inner.message(),
        }
    }
}

impl RomHeader {
    /// Parse and validate a cartridge header from a ROM image.
    pub fn parse(data: &[u8]) -> (r: Result<RomHeader, HeaderError>)
        ensures
            match spec_parse(data@) {
                Result::Ok(m) => r is Ok && r->Ok_0@ == m,
                Result::Err(e) => r == Err::<RomHeader, HeaderError>(e),
            },
    {
        if data.len() < MIN_ROM_SIZE {
            return Err(HeaderError::RomTooSmall { actual: data.len(), minimum: MIN_ROM_SIZE });
        }

        let logo = nintendo_logo();
        let mut i: usize = 0;
        while i < 48
            invariant
                i <= 48,
                data@.len() >= 0x150,
                logo@ == spec_nintendo_logo(),
                forall|j: int| 0 <= j < i ==> data@[0x104 + j] == spec_nintendo_logo()[j],
            decreases 48 - i,
        {
            if data[0x104 + i] != logo[i] {
                proof {
                    assert(data@.subrange(0x104, 0x134)[i as int] != spec_nintendo_logo()[i as int]);
                }
                return Err(HeaderError::InvalidNintendoLogo);
            }
            i = i + 1;
        }
        proof {
            assert(data@.subrange(0x104, 0x134) =~= spec_nintendo_logo());
        }

        let calculated_header_checksum = calculate_header_checksum(data);
        let header_checksum = data[0x14D];
        if calculated_header_checksum != header_checksum {
            return Err(HeaderError::InvalidHeaderChecksum {
                expected: calculated_header_checksum,
                actual: header_checksum,
            });
        }

        let cgb_flag = data[0x143];
        let old_licensee_code = data[0x14B];

        let new_licensee_code = if old_licensee_code == 0x33 {
            let mut code = String::new();
            code.push(sanitize_printable(data[0x144]));
            code.push(sanitize_printable(data[0x145]));
            Some(code)
        } else {
            None
        };

        let header = RomHeader {
            title: parse_title(data, cgb_flag),
            cgb_mode: CgbMode::from_flag(cgb_flag),
            sgb_supported: data[0x146] == 0x03,
            cartridge_type: data[0x147],
            rom_size_code: data[0x148],
            rom_size_bytes: rom_size_bytes(data[0x148]),
            ram_size_code: data[0x149],
            ram_size_bytes: ram_size_bytes(data[0x149]),
            destination_code: data[0x14A],
            old_licensee_code,
            new_licensee_code,
            mask_rom_version: data[0x14C],
            header_checksum,
            calculated_header_checksum,
            global_checksum: ((data[0x14E] as u16) << 8) | (data[0x14F] as u16),
        };
        proof {
            assert(header@ =~~= spec_parse(data@)->Ok_0);
        }
        Ok(header)
    }

    /// The conventional name of the cartridge type byte.
    pub fn cartridge_type_name(&self) -> (r: &'static str)
        ensures
            r@ == spec_cartridge_type_name(self.cartridge_type),
    {
        cartridge_type_name(self.cartridge_type)
    }
}

impl Rom {
    /// Wrap a byte image whose header parses; the image is kept whole.
    pub fn from_bytes(data: Vec<u8>) -> (r: Result<Rom, RomError>)
        ensures
            match spec_parse(data@) {
                Result::Ok(m) => r is Ok && r->Ok_0.data == data && r->Ok_0.header@ == m && r->Ok_0.path is None,
                Result::Err(e) => r == Err::<Rom, RomError>(RomError::Header(e)),
            },
    {
        match RomHeader::parse(data.as_slice()) {
            Result::Ok(header) => Ok(Rom { data, header, path: None }),
            Result::Err(e) => Err(RomError::Header(e)),
        }
    }
}

/// The conventional name of a cartridge type byte.
pub open spec fn spec_cartridge_type_name(code: u8) -> Seq<char> {
    if code == 0x00 {
        "ROM ONLY"@
    } else if code == 0x01 {
        "MBC1"@
    } else if code == 0x02 {
        "MBC1+RAM"@
    } else if code == 0x03 {
        "MBC1+RAM+BATTERY"@
    } else if code == 0x05 {
        "MBC2"@
    } else if code == 0x06 {
        "MBC2+BATTERY"@
    } else if code == 0x08 {
        "ROM+RAM"@
    } else if code == 0x09 {
        "ROM+RAM+BATTERY"@
    } else if code == 0x0B {
        "MMM01"@
    } else if code == 0x0C {
        "MMM01+RAM"@
    } else if code == 0x0D {
        "MMM01+RAM+BATTERY"@
    } else if code == 0x0F {
        "MBC3+TIMER+BATTERY"@
    } else if code == 0x10 {
        "MBC3+TIMER+RAM+BATTERY"@
    } else if code == 0x11 {
        "MBC3"@
    } else if code == 0x12 {
        "MBC3+RAM"@
    } else if code == 0x13 {
        "MBC3+RAM+BATTERY"@
    } else if code == 0x19 {
        "MBC5"@
    } else if code == 0x1A {
        "MBC5+RAM"@
    } else if code == 0x1B {
        "MBC5+RAM+BATTERY"@
    } else if code == 0x1C {
        "MBC5+RUMBLE"@
    } else if code == 0x1D {
        "MBC5+RUMBLE+RAM"@
    } else if code == 0x1E {
        "MBC5+RUMBLE+RAM+BATTERY"@
    } else if code == 0x20 {
        "MBC6"@
    } else if code == 0x22 {
        "MBC7+SENSOR+RUMBLE+RAM+BATTERY"@
    } else if code == 0xFC {
        "POCKET CAMERA"@
    } else if code == 0xFD {
        "BANDAI TAMA5"@
    } else if code == 0xFE {
        "HuC3"@
    } else if code == 0xFF {
        "HuC1+RAM+BATTERY"@
    } else {
        "UNKNOWN"@
    }
}

fn cartridge_type_name(code: u8) -> (r: &'static str)
    ensures
        r@ == spec_cartridge_type_name(code),
{
    if code == 0x00 {
        "ROM ONLY"
    } else if code == 0x01 {
        "MBC1"
    } else if code == 0x02 {
        "MBC1+RAM"
    } else if code == 0x03 {
        "MBC1+RAM+BATTERY"
    } else if code == 0x05 {
        "MBC2"
    } else if code == 0x06 {
        "MBC2+BATTERY"
    } else if code == 0x08 {
        "ROM+RAM"
    } else if code == 0x09 {
        "ROM+RAM+BATTERY"
    } else if code == 0x0B {
        "MMM01"
    } else if code == 0x0C {
        "MMM01+RAM"
    } else if code == 0x0D {
        "MMM01+RAM+BATTERY"
    } else if code == 0x0F {
        "MBC3+TIMER+BATTERY"
    } else if code == 0x10 {
        "MBC3+TIMER+RAM+BATTERY"
    } else if code == 0x11 {
        "MBC3"
    } else if code == 0x12 {
        "MBC3+RAM"
    } else if code == 0x13 {
        "MBC3+RAM+BATTERY"
    } else if code == 0x19 {
        "MBC5"
    } else if code == 0x1A {
        "MBC5+RAM"
    } else if code == 0x1B {
        "MBC5+RAM+BATTERY"
    } else if code == 0x1C {
        "MBC5+RUMBLE"
    } else if code == 0x1D {
        "MBC5+RUMBLE+RAM"
    } else if code == 0x1E {
        "MBC5+RUMBLE+RAM+BATTERY"
    } else if code == 0x20 {
        "MBC6"
    } else if code == 0x22 {
        "MBC7+SENSOR+RUMBLE+RAM+BATTERY"
    } else if code == 0xFC {
        "POCKET CAMERA"
    } else if code == 0xFD {
        "BANDAI TAMA5"
    } else if code == 0xFE {
        "HuC3"
    } else if code == 0xFF {
        "HuC1+RAM+BATTERY"
    } else {
        "UNKNOWN"
    }
}

} // verus!
