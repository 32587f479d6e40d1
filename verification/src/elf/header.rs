//! The 64-byte file header of a 64-bit ELF image.

use vstd::prelude::*;

verus! {

/// How the image's multi-byte values are encoded, as the header declares it.
#[derive(Debug, Clone, Copy)]
pub enum DataEncoding {
    /// Two's complement, least significant byte first.
    Data2Lsb,
    /// Two's complement, most significant byte first.
    Data2Msb,
}

impl DataEncoding {
    /// The byte that the header holds for this encoding.
    pub open spec fn code(self) -> u8 {
        match self {
            Self::Data2Lsb => 1,
            Self::Data2Msb => 2,
        }
    }
}

impl From<DataEncoding> for u8 {
    fn from(value: DataEncoding) -> (code: u8) {
        match value {
            DataEncoding::Data2Lsb => 1,
            DataEncoding::Data2Msb => 2,
        }
    }
}

impl vstd::std_specs::convert::FromSpecImpl<DataEncoding> for u8 {
    open spec fn obeys_from_spec() -> bool {
        true
    }

    open spec fn from_spec(value: DataEncoding) -> u8 {
        value.code()
    }
}

/// The version of the header's identification.
#[derive(Debug, Clone, Copy)]
pub enum Version {
    /// The current version.
    Current,
}

impl Version {
    /// The byte that the header holds for this version.
    pub open spec fn code(self) -> u8 {
        match self {
            Self::Current => 1,
        }
    }
}

impl From<Version> for u8 {
    fn from(value: Version) -> (code: u8) {
        match value {
            Version::Current => 1,
        }
    }
}

impl vstd::std_specs::convert::FromSpecImpl<Version> for u8 {
    open spec fn obeys_from_spec() -> bool {
        true
    }

    open spec fn from_spec(value: Version) -> u8 {
        value.code()
    }
}

/// The operating system and ABI that the image is built for.
#[derive(Debug, Clone, Copy)]
pub enum OsAbi {
    /// No extensions.
    Unspecified,
    /// UNIX System V.
    SystemV,
}

impl OsAbi {
    /// The byte that the header holds for this ABI.
    pub open spec fn code(self) -> u8 {
        match self {
            Self::Unspecified => 0,
            Self::SystemV => 0,
        }
    }
}

impl From<OsAbi> for u8 {
    fn from(value: OsAbi) -> (code: u8) {
        match value {
            OsAbi::Unspecified => 0,
            OsAbi::SystemV => 0,
        }
    }
}

impl vstd::std_specs::convert::FromSpecImpl<OsAbi> for u8 {
    open spec fn obeys_from_spec() -> bool {
        true
    }

    open spec fn from_spec(value: OsAbi) -> u8 {
        value.code()
    }
}

/// The order in which the bytes of a multi-byte header field are written.
#[derive(Debug, Clone, Copy, PartialEq, Eq, Structural)]
pub enum ByteOrder {
    /// Least significant byte first.
    LittleEndian,
    /// Most significant byte first.
    BigEndian,
}

/// The kind of object file.
#[derive(Debug, Clone, Copy)]
pub enum ObjectFileType {
    /// A shared object, or a position-independent executable.
    Dyn,
}

impl ObjectFileType {
    /// The number that the header holds for this kind.
    pub open spec fn code(self) -> u16 {
        match self {
            Self::Dyn => 3,
        }
    }
}

impl From<ObjectFileType> for u16 {
    fn from(value: ObjectFileType) -> (code: u16) {
        match value {
            ObjectFileType::Dyn => 3,
        }
    }
}

impl vstd::std_specs::convert::FromSpecImpl<ObjectFileType> for u16 {
    open spec fn obeys_from_spec() -> bool {
        true
    }

    open spec fn from_spec(value: ObjectFileType) -> u16 {
        value.code()
    }
}

/// The architecture that the image runs on.
#[derive(Debug, Clone, Copy)]
pub enum Machine {
    /// AMD x86-64.
    X86_64,
}

impl Machine {
    /// The number that the header holds for this architecture.
    pub open spec fn code(self) -> u16 {
        match self {
            Self::X86_64 => 62,
        }
    }
}

impl From<Machine> for u16 {
    fn from(value: Machine) -> (code: u16) {
        match value {
            Machine::X86_64 => 62,
        }
    }
}

impl vstd::std_specs::convert::FromSpecImpl<Machine> for u16 {
    open spec fn obeys_from_spec() -> bool {
        true
    }

    open spec fn from_spec(value: Machine) -> u16 {
        value.code()
    }
}

/// The version of the object file format.
#[derive(Debug, Clone, Copy)]
pub enum FileVersion {
    /// The current version.
    Current,
}

impl FileVersion {
    /// The number that the header holds for this version.
    pub open spec fn code(self) -> u32 {
        match self {
            Self::Current => 1,
        }
    }
}

impl From<FileVersion> for u32 {
    fn from(value: FileVersion) -> (code: u32) {
        match value {
            FileVersion::Current => 1,
        }
    }
}

impl vstd::std_specs::convert::FromSpecImpl<FileVersion> for u32 {
    open spec fn obeys_from_spec() -> bool {
        true
    }

    open spec fn from_spec(value: FileVersion) -> u32 {
        value.code()
    }
}

/// Processor-specific flags.
#[derive(Debug, Clone, Copy)]
pub enum Flag {
    /// No flag set.
    Empty,
}

impl Flag {
    /// The number that the header holds for these flags.
    pub open spec fn code(self) -> u32 {
        match self {
            Self::Empty => 0,
        }
    }
}

impl From<Flag> for u32 {
    fn from(value: Flag) -> (code: u32) {
        match value {
            Flag::Empty => 0,
        }
    }
}

impl vstd::std_specs::convert::FromSpecImpl<Flag> for u32 {
    open spec fn obeys_from_spec() -> bool {
        true
    }

    open spec fn from_spec(value: Flag) -> u32 {
        value.code()
    }
}

/// The choices that a header is made from.
#[derive(Debug)]
pub struct Header64Parameter {
    /// The order of the bytes of each multi-byte field.
    pub byte_order: ByteOrder,
    /// The data encoding that the identification declares.
    pub data_encoding: DataEncoding,
    /// The version of the identification.
    pub version: Version,
    /// The operating system and ABI.
    pub os_abi: OsAbi,
    /// The kind of object file.
    pub object_file_type: ObjectFileType,
    /// The architecture.
    pub machine: Machine,
    /// The version of the file format.
    pub file_version: FileVersion,
    /// The processor-specific flags.
    pub flag: Flag,
}

/// The file header of a 64-bit image.
#[derive(Debug)]
pub struct Header64 {
    /// The choices that the header was made from.
    pub param: Header64Parameter,
    /// The address at which execution starts.
    pub entry_address: u64,
    /// The file offset of the section header table.
    pub section_header_offset_address: u64,
    /// The number of program headers.
    pub program_header_num: u16,
    /// The number of section headers.
    pub section_header_num: u16,
    /// The index of the section that holds the section names.
    pub section_string_index: u16,
}

/// The header could not be written to its buffer.
#[derive(Debug, PartialEq, Eq, Clone, Copy, Structural)]
pub struct WriteError;

/// The size of a header, and the file offset of the program header table.
pub const HEADER_SIZE: u16 = 64;

/// The size of one program header.
pub const PROGRAM_HEADER_SIZE: u16 = 56;

/// The size of one section header.
pub const SECTION_HEADER_SIZE: u16 = 64;

/// The `width` low bytes of `value`, least significant first.
pub open spec fn le_bytes(value: nat, width: nat) -> Seq<u8>
    decreases width,
{
    if width == 0 {
        Seq::empty()
    } else {
        seq![(value % 256) as u8] + le_bytes(value / 256, (width - 1) as nat)
    }
}

/// The `width` low bytes of `value`, most significant first.
pub open spec fn be_bytes(value: nat, width: nat) -> Seq<u8>
    decreases width,
{
    if width == 0 {
        Seq::empty()
    } else {
        be_bytes(value / 256, (width - 1) as nat).push((value % 256) as u8)
    }
}

/// The `width` low bytes of `value` in the given order.
pub open spec fn ordered_bytes(order: ByteOrder, value: nat, width: nat) -> Seq<u8> {
    match order {
        ByteOrder::LittleEndian => le_bytes(value, width),
        ByteOrder::BigEndian => be_bytes(value, width),
    }
}

#[verifier::external_type_specification]
#[verifier::external_body]
pub struct ExIoError(std::io::Error);

/// Whether `byteorder::WriteBytesExt::write_u16` returns `Ok` when it is
/// called on a vector that holds `buf`, with `n`, in big-endian order where
/// `big_endian` holds and in little-endian order where it does not.
pub uninterp spec fn write_u16_succeeds(buf: Seq<u8>, n: u16, big_endian: bool) -> bool;

/// Whether `byteorder::WriteBytesExt::write_u32` returns `Ok` when it is
/// called on a vector that holds `buf`, with `n`, in big-endian order where
/// `big_endian` holds and in little-endian order where it does not.
pub uninterp spec fn write_u32_succeeds(buf: Seq<u8>, n: u32, big_endian: bool) -> bool;

/// Whether `byteorder::WriteBytesExt::write_u64` returns `Ok` when it is
/// called on a vector that holds `buf`, with `n`, in big-endian order where
/// `big_endian` holds and in little-endian order where it does not.
pub uninterp spec fn write_u64_succeeds(buf: Seq<u8>, n: u64, big_endian: bool) -> bool;

/// Whether the write of `value` as a field of `width` bytes, in the given
/// order, succeeds on a buffer that holds `buf`. A field is two, four or
/// eight bytes wide.
pub open spec fn field_accepted(order: ByteOrder, buf: Seq<u8>, value: nat, width: nat) -> bool {
    let big_endian = order == ByteOrder::BigEndian;
    if width == 2 {
        write_u16_succeeds(buf, value as u16, big_endian)
    } else if width == 4 {
        write_u32_succeeds(buf, value as u32, big_endian)
    } else {
        write_u64_succeeds(buf, value as u64, big_endian)
    }
}

/// `byteorder::WriteBytesExt::write_u16` with `byteorder::LittleEndian`, on a
/// vector: whether it succeeds is a matter of the vector's bytes and of `n`
/// alone, and where it does, the two bytes of `n` were appended, low byte
/// first. Not proved.
#[verifier::external_body]
fn write_u16_le(buf: &mut Vec<u8>, n: u16) -> (result: Result<(), std::io::Error>)
    ensures
        result is Ok <==> write_u16_succeeds(old(buf)@, n, false),
        result is Ok ==> final(buf)@ == old(buf)@ + le_bytes(n as nat, 2),
{
    byteorder::WriteBytesExt::write_u16::<byteorder::LittleEndian>(buf, n)
}

/// `byteorder::WriteBytesExt::write_u16` with `byteorder::BigEndian`, on a
/// vector: whether it succeeds is a matter of the vector's bytes and of `n`
/// alone, and where it does, the two bytes of `n` were appended, high byte
/// first. Not proved.
#[verifier::external_body]
fn write_u16_be(buf: &mut Vec<u8>, n: u16) -> (result: Result<(), std::io::Error>)
    ensures
        result is Ok <==> write_u16_succeeds(old(buf)@, n, true),
        result is Ok ==> final(buf)@ == old(buf)@ + be_bytes(n as nat, 2),
{
    byteorder::WriteBytesExt::write_u16::<byteorder::BigEndian>(buf, n)
}

/// `byteorder::WriteBytesExt::write_u32` with `byteorder::LittleEndian`, on a
/// vector: whether it succeeds is a matter of the vector's bytes and of `n`
/// alone, and where it does, the four bytes of `n` were appended, low byte
/// first. Not proved.
#[verifier::external_body]
fn write_u32_le(buf: &mut Vec<u8>, n: u32) -> (result: Result<(), std::io::Error>)
    ensures
        result is Ok <==> write_u32_succeeds(old(buf)@, n, false),
        result is Ok ==> final(buf)@ == old(buf)@ + le_bytes(n as nat, 4),
{
    byteorder::WriteBytesExt::write_u32::<byteorder::LittleEndian>(buf, n)
}

/// `byteorder::WriteBytesExt::write_u32` with `byteorder::BigEndian`, on a
/// vector: whether it succeeds is a matter of the vector's bytes and of `n`
/// alone, and where it does, the four bytes of `n` were appended, high byte
/// first. Not proved.
#[verifier::external_body]
fn write_u32_be(buf: &mut Vec<u8>, n: u32) -> (result: Result<(), std::io::Error>)
    ensures
        result is Ok <==> write_u32_succeeds(old(buf)@, n, true),
        result is Ok ==> final(buf)@ == old(buf)@ + be_bytes(n as nat, 4),
{
    byteorder::WriteBytesExt::write_u32::<byteorder::BigEndian>(buf, n)
}

/// `byteorder::WriteBytesExt::write_u64` with `byteorder::LittleEndian`, on a
/// vector: whether it succeeds is a matter of the vector's bytes and of `n`
/// alone, and where it does, the eight bytes of `n` were appended, low byte
/// first. Not proved.
#[verifier::external_body]
fn write_u64_le(buf: &mut Vec<u8>, n: u64) -> (result: Result<(), std::io::Error>)
    ensures
        result is Ok <==> write_u64_succeeds(old(buf)@, n, false),
        result is Ok ==> final(buf)@ == old(buf)@ + le_bytes(n as nat, 8),
{
    byteorder::WriteBytesExt::write_u64::<byteorder::LittleEndian>(buf, n)
}

/// `byteorder::WriteBytesExt::write_u64` with `byteorder::BigEndian`, on a
/// vector: whether it succeeds is a matter of the vector's bytes and of `n`
/// alone, and where it does, the eight bytes of `n` were appended, high byte
/// first. Not proved.
#[verifier::external_body]
fn write_u64_be(buf: &mut Vec<u8>, n: u64) -> (result: Result<(), std::io::Error>)
    ensures
        result is Ok <==> write_u64_succeeds(old(buf)@, n, true),
        result is Ok ==> final(buf)@ == old(buf)@ + be_bytes(n as nat, 8),
{
    byteorder::WriteBytesExt::write_u64::<byteorder::BigEndian>(buf, n)
}

impl WriteError {
    /// What a write into a buffer comes to: it succeeded, or it failed with
    /// this error, whatever the cause was.
    pub fn settle(outcome: Result<(), std::io::Error>) -> (result: Result<(), WriteError>)
        ensures
            result is Ok <==> outcome is Ok,
    {
        match outcome {
            Ok(()) => Ok(()),
            Err(_) => Err(WriteError),
        }
    }
}

/// Appends the two bytes of `n` to `buf` in the given order. It succeeds
/// exactly when the write does.
fn put_u16(buf: &mut Vec<u8>, order: &ByteOrder, n: u16) -> (result: Result<(), WriteError>)
    ensures
        result is Ok <==> field_accepted(*order, old(buf)@, n as nat, 2),
        result is Ok ==> final(buf)@ == old(buf)@ + ordered_bytes(*order, n as nat, 2),
{
    let outcome = match order {
        ByteOrder::LittleEndian => write_u16_le(buf, n),
        ByteOrder::BigEndian => write_u16_be(buf, n),
    };
    WriteError::settle(outcome)
}

/// Appends the four bytes of `n` to `buf` in the given order. It succeeds
/// exactly when the write does.
fn put_u32(buf: &mut Vec<u8>, order: &ByteOrder, n: u32) -> (result: Result<(), WriteError>)
    ensures
        result is Ok <==> field_accepted(*order, old(buf)@, n as nat, 4),
        result is Ok ==> final(buf)@ == old(buf)@ + ordered_bytes(*order, n as nat, 4),
{
    let outcome = match order {
        ByteOrder::LittleEndian => write_u32_le(buf, n),
        ByteOrder::BigEndian => write_u32_be(buf, n),
    };
    WriteError::settle(outcome)
}

/// Appends the eight bytes of `n` to `buf` in the given order. It succeeds
/// exactly when the write does.
fn put_u64(buf: &mut Vec<u8>, order: &ByteOrder, n: u64) -> (result: Result<(), WriteError>)
    ensures
        result is Ok <==> field_accepted(*order, old(buf)@, n as nat, 8),
        result is Ok ==> final(buf)@ == old(buf)@ + ordered_bytes(*order, n as nat, 8),
{
    let outcome = match order {
        ByteOrder::LittleEndian => write_u64_le(buf, n),
        ByteOrder::BigEndian => write_u64_be(buf, n),
    };
    WriteError::settle(outcome)
}

impl Header64 {
    /// The header that `new` makes from `param`.
    pub open spec fn spec_new(param: Header64Parameter) -> Header64 {
        Header64 {
            param,
            entry_address: 0,
            section_header_offset_address: 0,
            program_header_num: 0,
            section_header_num: 0,
            section_string_index: 0,
        }
    }

    /// A header with the given choices, no entry point and no tables.
    pub fn new(param: Header64Parameter) -> (header: Self)
        ensures
            header == Self::spec_new(param),
    {
        Self {
            param,
            entry_address: 0,
            section_header_offset_address: 0,
            program_header_num: 0,
            section_header_num: 0,
            section_string_index: 0,
        }
    }

    /// The sixteen bytes of identification that a header starts with.
    pub open spec fn ident(self) -> Seq<u8> {
        seq![
            0x7Fu8,
            0x45u8,
            0x4Cu8,
            0x46u8,
            2u8,
            self.param.data_encoding.code(),
            self.param.version.code(),
            self.param.os_abi.code(),
            0u8,
            0u8,
            0u8,
            0u8,
            0u8,
            0u8,
            0u8,
            0u8,
        ]
    }

    /// The bytes of field `value`, `width` wide, in this header's byte order.
    pub open spec fn field(self, value: nat, width: nat) -> Seq<u8> {
        ordered_bytes(self.param.byte_order, value, width)
    }

    /// The forty-eight bytes that follow the identification.
    pub open spec fn ordered(self) -> Seq<u8> {
        self.field(self.param.object_file_type.code() as nat, 2)
            + self.field(self.param.machine.code() as nat, 2)
            + self.field(self.param.file_version.code() as nat, 4)
            + self.field(self.entry_address as nat, 8)
            + self.field(HEADER_SIZE as nat, 8)
            + self.field(self.section_header_offset_address as nat, 8)
            + self.field(self.param.flag.code() as nat, 4)
            + self.field(HEADER_SIZE as nat, 2)
            + self.field(PROGRAM_HEADER_SIZE as nat, 2)
            + self.field(self.program_header_num as nat, 2)
            + self.field(SECTION_HEADER_SIZE as nat, 2)
            + self.field(self.section_header_num as nat, 2)
            + self.field(self.section_string_index as nat, 2)
    }

    /// The header as it stands in a file.
    pub open spec fn image(self) -> Seq<u8> {
        self.ident() + self.ordered()
    }

    /// Whether every field after the identification can be written: each
    /// write, made on a buffer that holds the fields before it, succeeds.
    pub open spec fn ordered_accepted(self) -> bool {
        let order = self.param.byte_order;
        let b0 = Seq::<u8>::empty();
        let b1 = b0 + self.field(self.param.object_file_type.code() as nat, 2);
        let b2 = b1 + self.field(self.param.machine.code() as nat, 2);
        let b3 = b2 + self.field(self.param.file_version.code() as nat, 4);
        let b4 = b3 + self.field(self.entry_address as nat, 8);
        let b5 = b4 + self.field(HEADER_SIZE as nat, 8);
        let b6 = b5 + self.field(self.section_header_offset_address as nat, 8);
        let b7 = b6 + self.field(self.param.flag.code() as nat, 4);
        let b8 = b7 + self.field(HEADER_SIZE as nat, 2);
        let b9 = b8 + self.field(PROGRAM_HEADER_SIZE as nat, 2);
        let b10 = b9 + self.field(self.program_header_num as nat, 2);
        let b11 = b10 + self.field(SECTION_HEADER_SIZE as nat, 2);
        let b12 = b11 + self.field(self.section_header_num as nat, 2);
        &&& field_accepted(order, b0, self.param.object_file_type.code() as nat, 2)
        &&& field_accepted(order, b1, self.param.machine.code() as nat, 2)
        &&& field_accepted(order, b2, self.param.file_version.code() as nat, 4)
        &&& field_accepted(order, b3, self.entry_address as nat, 8)
        &&& field_accepted(order, b4, HEADER_SIZE as nat, 8)
        &&& field_accepted(order, b5, self.section_header_offset_address as nat, 8)
        &&& field_accepted(order, b6, self.param.flag.code() as nat, 4)
        &&& field_accepted(order, b7, HEADER_SIZE as nat, 2)
        &&& field_accepted(order, b8, PROGRAM_HEADER_SIZE as nat, 2)
        &&& field_accepted(order, b9, self.program_header_num as nat, 2)
        &&& field_accepted(order, b10, SECTION_HEADER_SIZE as nat, 2)
        &&& field_accepted(order, b11, self.section_header_num as nat, 2)
        &&& field_accepted(order, b12, self.section_string_index as nat, 2)
    }

    /// The fields that follow the identification, in the header's byte
    /// order. The fields are written one after the other into an empty
    /// buffer; the result is `Ok` exactly when every write succeeds.
    pub fn to_ordered_bytes(&self) -> (result: Result<Vec<u8>, WriteError>)
        ensures
            result is Ok <==> self.ordered_accepted(),
            result is Ok ==> result->Ok_0@ == self.ordered(),
    {
        let order = &self.param.byte_order;
        let mut buf: Vec<u8> = Vec::new();
        put_u16(&mut buf, order, u16::from(self.param.object_file_type))?;
        assert(buf@ =~= self.field(self.param.object_file_type.code() as nat, 2));
        put_u16(&mut buf, order, u16::from(self.param.machine))?;
        put_u32(&mut buf, order, u32::from(self.param.file_version))?;
        put_u64(&mut buf, order, self.entry_address)?;
        put_u64(&mut buf, order, HEADER_SIZE as u64)?;
        put_u64(&mut buf, order, self.section_header_offset_address)?;
        put_u32(&mut buf, order, u32::from(self.param.flag))?;
        put_u16(&mut buf, order, HEADER_SIZE)?;
        put_u16(&mut buf, order, PROGRAM_HEADER_SIZE)?;
        put_u16(&mut buf, order, self.program_header_num)?;
        put_u16(&mut buf, order, SECTION_HEADER_SIZE)?;
        put_u16(&mut buf, order, self.section_header_num)?;
        put_u16(&mut buf, order, self.section_string_index)?;
        Ok(buf)
    }

    /// The header as the bytes of a file: the identification, then the
    /// fields in the header's byte order. The result is `Ok` exactly when
    /// every write of a field succeeds.
    pub fn try_into(self) -> (result: Result<Vec<u8>, WriteError>)
        ensures
            result is Ok <==> self.ordered_accepted(),
            result is Ok ==> result->Ok_0@ == self.image(),
    {
        let data_encoding: u8 = u8::from(self.param.data_encoding);
        let version: u8 = u8::from(self.param.version);
        let os_abi: u8 = u8::from(self.param.os_abi);
        let mut buf: Vec<u8> = vec![
            0x7F, 0x45, 0x4C, 0x46,
            2,
            data_encoding,
            version,
            os_abi,
            0,
            0, 0, 0, 0, 0, 0, 0,
        ];
        assert(buf@ =~= self.ident());
        let mut subsequent_buf = self.to_ordered_bytes()?;
        buf.append(&mut subsequent_buf);
        Ok(buf)
    }
}

/// A sequence of `width` bytes, in either order, has `width` bytes.
pub proof fn lemma_ordered_bytes_len(order: ByteOrder, value: nat, width: nat)
    ensures
        ordered_bytes(order, value, width).len() == width,
    decreases width,
{
    if width > 0 {
        lemma_ordered_bytes_len(order, value / 256, (width - 1) as nat);
    }
}

/// The two byte orders write the same bytes, one the reverse of the other.
pub proof fn lemma_big_endian_is_reverse(value: nat, width: nat)
    ensures
        be_bytes(value, width) == le_bytes(value, width).reverse(),
    decreases width,
{
    if width > 0 {
        lemma_big_endian_is_reverse(value / 256, (width - 1) as nat);
        lemma_ordered_bytes_len(ByteOrder::LittleEndian, value / 256, (width - 1) as nat);
        assert(be_bytes(value, width) =~= le_bytes(value, width).reverse());
    } else {
        assert(be_bytes(value, width) =~= le_bytes(value, width).reverse());
    }
}

/// Every header is sixty-four bytes long and starts with the magic number.
pub proof fn lemma_image_len(header: Header64)
    ensures
        header.image().len() == 64,
        header.image().subrange(0, 4) == seq![0x7Fu8, 0x45u8, 0x4Cu8, 0x46u8],
{
    let order = header.param.byte_order;
    lemma_ordered_bytes_len(order, header.param.object_file_type.code() as nat, 2);
    lemma_ordered_bytes_len(order, header.param.machine.code() as nat, 2);
    lemma_ordered_bytes_len(order, header.param.file_version.code() as nat, 4);
    lemma_ordered_bytes_len(order, header.entry_address as nat, 8);
    lemma_ordered_bytes_len(order, HEADER_SIZE as nat, 8);
    lemma_ordered_bytes_len(order, header.section_header_offset_address as nat, 8);
    lemma_ordered_bytes_len(order, header.param.flag.code() as nat, 4);
    lemma_ordered_bytes_len(order, HEADER_SIZE as nat, 2);
    lemma_ordered_bytes_len(order, PROGRAM_HEADER_SIZE as nat, 2);
    lemma_ordered_bytes_len(order, header.program_header_num as nat, 2);
    lemma_ordered_bytes_len(order, SECTION_HEADER_SIZE as nat, 2);
    lemma_ordered_bytes_len(order, header.section_header_num as nat, 2);
    lemma_ordered_bytes_len(order, header.section_string_index as nat, 2);
    assert(header.image().subrange(0, 4) =~= seq![0x7Fu8, 0x45u8, 0x4Cu8, 0x46u8]);
}

} // verus!
