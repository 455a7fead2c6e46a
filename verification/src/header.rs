//! Binary-container header detection: recognise ELF and PE images by
//! their signatures and read the fields the editor shows.  The guest
//! only ever sees the read-only projection {bitness, architecture,
//! entry point}; a buffer with no recognised signature projects to
//! {64, Unknown, 0}.

use vstd::prelude::*;

verus! {

/// The machine architectures the editor tells apart.
#[derive(Debug, Clone, Copy, PartialEq, Eq, Structural)]
pub enum Arch {
    Unknown,
    I386,
    X86_64,
    Aarch64,
    Arm,
}

/// Spell an architecture.
pub open spec fn spec_arch_name(a: Arch) -> Seq<char> {
    match a {
        Arch::Unknown => "Unknown"@,
        Arch::I386 => "I386"@,
        Arch::X86_64 => "X86_64"@,
        Arch::Aarch64 => "Aarch64"@,
        Arch::Arm => "Arm"@,
    }
}

/// The architecture's name, as shown to the guest.
pub fn arch_name(a: &Arch) -> (r: String)
    ensures
        r@ == spec_arch_name(*a),
{
    match a {
        Arch::Unknown => String::from_str("Unknown"),
        Arch::I386 => String::from_str("I386"),
        Arch::X86_64 => String::from_str("X86_64"),
        Arch::Aarch64 => String::from_str("Aarch64"),
        Arch::Arm => String::from_str("Arm"),
    }
}

/// Little-endian 16-bit read.
pub open spec fn le16(b: Seq<u8>, i: int) -> nat {
    b[i] as nat + 256 * (b[i + 1] as nat)
}

/// Little-endian 32-bit read.
pub open spec fn le32(b: Seq<u8>, i: int) -> nat {
    le16(b, i) + 0x10000 * le16(b, i + 2)
}

/// Little-endian 64-bit read.
pub open spec fn le64(b: Seq<u8>, i: int) -> nat {
    le32(b, i) + 0x100000000 * le32(b, i + 4)
}

fn read_le16(b: &[u8], i: usize) -> (r: u16)
    requires
        i + 2 <= b@.len(),
        b@.len() <= usize::MAX,
    ensures
        r as nat == le16(b@, i as int),
{
    (b[i] as u16) + 256 * (b[i + 1] as u16)
}

fn read_le32(b: &[u8], i: usize) -> (r: u32)
    requires
        i + 4 <= b@.len(),
        b@.len() <= usize::MAX,
    ensures
        r as nat == le32(b@, i as int),
{
    (read_le16(b, i) as u32) + 0x10000 * (read_le16(b, i + 2) as u32)
}

fn read_le64(b: &[u8], i: usize) -> (r: u64)
    requires
        i + 8 <= b@.len(),
        b@.len() <= usize::MAX,
    ensures
        r as nat == le64(b@, i as int),
{
    (read_le32(b, i) as u64) + 0x100000000 * (read_le32(b, i + 4) as u64)
}

/// A recognised little-endian ELF image header.
#[derive(Debug, Clone, Copy, PartialEq, Eq, Structural)]
pub struct ElfHeader {
    /// True for ELF64 (class 2), false for ELF32 (class 1).
    pub is_64: bool,
    /// The e_machine field.
    pub machine: u16,
    /// The e_entry field.
    pub entry_point: u64,
}

/// A recognised PE image header.
#[derive(Debug, Clone, Copy, PartialEq, Eq, Structural)]
pub struct PEHeader {
    /// The COFF machine field.
    pub machine: u16,
    /// True for PE32+ (magic 0x20b), false for PE32 (magic 0x10b).
    pub is_plus: bool,
    /// The AddressOfEntryPoint field.
    pub address_of_entry_point: u32,
}

/// A recognised binary container header.
#[derive(Debug, Clone, Copy, PartialEq, Eq, Structural)]
pub enum Header {
    Elf(ElfHeader),
    PE(PEHeader),
}

/// The ELF header denoted by a buffer: the magic, a class of 1 or 2,
/// little-endian data, and an entry point wide enough for the class.
pub open spec fn spec_parse_elf(b: Seq<u8>) -> Option<ElfHeader> {
    if b.len() >= 0x14 && b[0] == 0x7f && b[1] == 0x45 && b[2] == 0x4c && b[3] == 0x46 && b[5]
        == 1 {
        if b[4] == 2 && b.len() >= 0x20 {
            Some(
                ElfHeader {
                    is_64: true,
                    machine: le16(b, 0x12) as u16,
                    entry_point: le64(b, 0x18) as u64,
                },
            )
        } else if b[4] == 1 && b.len() >= 0x1c {
            Some(
                ElfHeader {
                    is_64: false,
                    machine: le16(b, 0x12) as u16,
                    entry_point: le32(b, 0x18) as u64,
                },
            )
        } else {
            None
        }
    } else {
        None
    }
}

/// The PE header denoted by a buffer: the MZ stub, the PE signature at
/// the offset named at 0x3c, and an optional-header magic of PE32 or
/// PE32+.
pub open spec fn spec_parse_pe(b: Seq<u8>) -> Option<PEHeader> {
    if b.len() >= 0x40 && b[0] == 0x4d && b[1] == 0x5a {
        let off = le32(b, 0x3c) as int;
        if off + 0x2c <= b.len() && b[off] == 0x50 && b[off + 1] == 0x45 && b[off + 2] == 0 && b[
            off + 3] == 0 {
            let magic = le16(b, off + 0x18);
            if magic == 0x10b || magic == 0x20b {
                Some(
                    PEHeader {
                        machine: le16(b, off + 4) as u16,
                        is_plus: magic == 0x20b,
                        address_of_entry_point: le32(b, off + 0x28) as u32,
                    },
                )
            } else {
                None
            }
        } else {
            None
        }
    } else {
        None
    }
}

/// The header a buffer carries: ELF takes precedence, then PE.
pub open spec fn spec_parse_header(b: Seq<u8>) -> Option<Header> {
    match spec_parse_elf(b) {
        Some(h) => Some(Header::Elf(h)),
        None => match spec_parse_pe(b) {
            Some(h) => Some(Header::PE(h)),
            None => None,
        },
    }
}

impl ElfHeader {
    /// Recognise an ELF image.
    pub fn parse_header(bytes: &[u8]) -> (r: Option<ElfHeader>)
        ensures
            r == spec_parse_elf(bytes@),
    {
        if bytes.len() >= 0x14 && bytes[0] == 0x7f && bytes[1] == 0x45 && bytes[2] == 0x4c
            && bytes[3] == 0x46 && bytes[5] == 1 {
            if bytes[4] == 2 && bytes.len() >= 0x20 {
                Some(
                    ElfHeader {
                        is_64: true,
                        machine: read_le16(bytes, 0x12),
                        entry_point: read_le64(bytes, 0x18),
                    },
                )
            } else if bytes[4] == 1 && bytes.len() >= 0x1c {
                Some(
                    ElfHeader {
                        is_64: false,
                        machine: read_le16(bytes, 0x12),
                        entry_point: read_le32(bytes, 0x18) as u64,
                    },
                )
            } else {
                None
            }
        } else {
            None
        }
    }

    /// 64 for ELF64, 32 for ELF32.
    pub fn bitness(&self) -> (r: u32)
        ensures
            r == if self.is_64 { 64int } else { 32int },
    {
        if self.is_64 {
            64
        } else {
            32
        }
    }
}

impl PEHeader {
    /// Recognise a PE image.
    pub fn parse_header(bytes: &[u8]) -> (r: Option<PEHeader>)
        ensures
            r == spec_parse_pe(bytes@),
    {
        if bytes.len() >= 0x40 && bytes[0] == 0x4d && bytes[1] == 0x5a {
            let off32 = read_le32(bytes, 0x3c);
            let off = off32 as usize;
            if off <= bytes.len() - 0x2c && bytes[off] == 0x50
                && bytes[off + 1] == 0x45 && bytes[off + 2] == 0 && bytes[off + 3] == 0 {
                let magic = read_le16(bytes, off + 0x18);
                if magic == 0x10b || magic == 0x20b {
                    Some(
                        PEHeader {
                            machine: read_le16(bytes, off + 4),
                            is_plus: magic == 0x20b,
                            address_of_entry_point: read_le32(bytes, off + 0x28),
                        },
                    )
                } else {
                    None
                }
            } else {
                None
            }
        } else {
            None
        }
    }

    /// 64 for PE32+, 32 for PE32.
    pub fn bitness(&self) -> (r: u32)
        ensures
            r == if self.is_plus { 64int } else { 32int },
    {
        if self.is_plus {
            64
        } else {
            32
        }
    }
}

impl Header {
    /// Recognise a binary container header: ELF first, then PE.
    pub fn parse_header(bytes: &[u8]) -> (r: Option<Header>)
        ensures
            r == spec_parse_header(bytes@),
    {
        let elf_header = ElfHeader::parse_header(bytes);
        match elf_header {
            Some(header) => {
                return Some(Header::Elf(header));
            },
            None => {},
        };
        let pe_header = PEHeader::parse_header(bytes);
        match pe_header {
            Some(header) => {
                return Some(Header::PE(header));
            },
            None => {},
        };
        None
    }

    /// The container's bitness: 16, 32 or 64.
    pub fn bitness(&self) -> (r: u32)
        ensures
            r == match *self {
                Header::Elf(h) => if h.is_64 { 64int } else { 32int },
                Header::PE(h) => if h.is_plus { 64int } else { 32int },
            },
    {
        match self {
            Header::Elf(header) => header.bitness(),
            Header::PE(header) => header.bitness(),
        }
    }

    /// The container's entry point address.
    pub fn entry_point(&self) -> (r: u64)
        ensures
            r == match *self {
                Header::Elf(h) => h.entry_point as int,
                Header::PE(h) => h.address_of_entry_point as int,
            },
    {
        match self {
            Header::Elf(header) => header.entry_point,
            Header::PE(header) => header.address_of_entry_point as u64,
        }
    }

    /// The container's architecture, from its machine field.
    pub fn architecture(&self) -> (r: Arch)
        ensures
            r == match *self {
                Header::Elf(h) => spec_elf_arch(h.machine as int),
                Header::PE(h) => spec_pe_arch(h.machine as int),
            },
    {
        match self {
            Header::Elf(header) => {
                if header.machine == 0x3e {
                    Arch::X86_64
                } else if header.machine == 0x03 {
                    Arch::I386
                } else if header.machine == 0xb7 {
                    Arch::Aarch64
                } else if header.machine == 0x28 {
                    Arch::Arm
                } else {
                    Arch::Unknown
                }
            },
            Header::PE(header) => {
                if header.machine == 0x8664 {
                    Arch::X86_64
                } else if header.machine == 0x14c {
                    Arch::I386
                } else if header.machine == 0xaa64 {
                    Arch::Aarch64
                } else if header.machine == 0x1c0 {
                    Arch::Arm
                } else {
                    Arch::Unknown
                }
            },
        }
    }
}

/// The architecture an ELF machine code denotes.
pub open spec fn spec_elf_arch(m: int) -> Arch {
    if m == 0x3e { Arch::X86_64 }
    else if m == 0x03 { Arch::I386 }
    else if m == 0xb7 { Arch::Aarch64 }
    else if m == 0x28 { Arch::Arm }
    else { Arch::Unknown }
}

/// The architecture a PE machine code denotes.
pub open spec fn spec_pe_arch(m: int) -> Arch {
    if m == 0x8664 { Arch::X86_64 }
    else if m == 0x14c { Arch::I386 }
    else if m == 0xaa64 { Arch::Aarch64 }
    else if m == 0x1c0 { Arch::Arm }
    else { Arch::Unknown }
}

/// The read-only projection of a detected header that the guest sees.
#[derive(Debug, Clone, Copy, PartialEq, Eq, Structural)]
pub struct HeaderView {
    pub bitness: u32,
    pub architecture: Arch,
    pub entry_point: u64,
}

/// The projection a detection result denotes: an unrecognised buffer
/// projects to {64, Unknown, 0}.
pub open spec fn spec_header_view(h: Option<Header>) -> HeaderView {
    match h {
        None => HeaderView { bitness: 64u32, architecture: Arch::Unknown, entry_point: 0u64 },
        Some(Header::Elf(e)) => HeaderView {
            bitness: if e.is_64 { 64u32 } else { 32u32 },
            architecture: spec_elf_arch(e.machine as int),
            entry_point: e.entry_point,
        },
        Some(Header::PE(p)) => HeaderView {
            bitness: if p.is_plus { 64u32 } else { 32u32 },
            architecture: spec_pe_arch(p.machine as int),
            entry_point: p.address_of_entry_point as u64,
        },
    }
}

impl HeaderView {
    /// Project a detection result; an unrecognised buffer projects to
    /// {64, Unknown, 0}.
    pub fn from_header(h: &Option<Header>) -> (r: HeaderView)
        ensures
            r == spec_header_view(*h),
    {
        match h {
            None => HeaderView { bitness: 64, architecture: Arch::Unknown, entry_point: 0 },
            Some(hd) => HeaderView {
                bitness: hd.bitness(),
                architecture: hd.architecture(),
                entry_point: hd.entry_point(),
            },
        }
    }

    /// Detect and project in one step.
    pub fn from_bytes(bytes: &[u8]) -> (r: HeaderView)
        ensures
            r == spec_header_view(spec_parse_header(bytes@)),
    {
        let h = Header::parse_header(bytes);
        HeaderView::from_header(&h)
    }
}

} // verus!
