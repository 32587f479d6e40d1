//! The generator for x86-64. It writes the file header of the image; the
//! instructions themselves are not encoded.

use crate::elf::header;
use crate::elf::header::WriteError;
use crate::parser::Symbol;
use vstd::prelude::*;

verus! {

/// The operating system that the executable runs on.
#[derive(Debug, Clone, Copy, PartialEq, Eq, Structural)]
pub enum Os {
    /// Linux.
    Linux,
}

/// The generator of x86-64 executables.
#[derive(Debug)]
pub struct ExecGenerator {
    /// The operating system that it generates for.
    pub os: Os,
}

/// The header choices of an x86-64 executable: little-endian, System V,
/// position-independent.
pub open spec fn header_parameter() -> header::Header64Parameter {
    header::Header64Parameter {
        byte_order: header::ByteOrder::LittleEndian,
        data_encoding: header::DataEncoding::Data2Lsb,
        version: header::Version::Current,
        os_abi: header::OsAbi::SystemV,
        object_file_type: header::ObjectFileType::Dyn,
        machine: header::Machine::X86_64,
        file_version: header::FileVersion::Current,
        flag: header::Flag::Empty,
    }
}

/// The sixty-four bytes of the header of an x86-64 executable.
pub open spec fn header_image() -> Seq<u8> {
    seq![
        0x7Fu8, 0x45u8, 0x4Cu8, 0x46u8, 2u8, 1u8, 1u8, 0u8,
        0u8, 0u8, 0u8, 0u8, 0u8, 0u8, 0u8, 0u8,
        3u8, 0u8, 62u8, 0u8, 1u8, 0u8, 0u8, 0u8,
        0u8, 0u8, 0u8, 0u8, 0u8, 0u8, 0u8, 0u8,
        64u8, 0u8, 0u8, 0u8, 0u8, 0u8, 0u8, 0u8,
        0u8, 0u8, 0u8, 0u8, 0u8, 0u8, 0u8, 0u8,
        0u8, 0u8, 0u8, 0u8, 64u8, 0u8, 56u8, 0u8,
        0u8, 0u8, 64u8, 0u8, 0u8, 0u8, 0u8, 0u8,
    ]
}

impl ExecGenerator {
    /// A generator for the given operating system.
    pub fn new(os: Os) -> (generator: Self)
        ensures
            generator.os == os,
    {
        Self { os }
    }
}

impl super::ExecGenerator for ExecGenerator {
    open spec fn image(&self, code: Seq<Symbol>) -> Seq<u8> {
        header::Header64::spec_new(header_parameter()).image()
    }

    open spec fn writable(&self, code: Seq<Symbol>) -> bool {
        header::Header64::spec_new(header_parameter()).ordered_accepted()
    }

    fn write(&self, code: Vec<Symbol>, f: &mut Vec<u8>) -> (result: Result<(), WriteError>) {
        let header_param = header::Header64Parameter {
            byte_order: header::ByteOrder::LittleEndian,
            data_encoding: header::DataEncoding::Data2Lsb,
            version: header::Version::Current,
            os_abi: header::OsAbi::SystemV,
            object_file_type: header::ObjectFileType::Dyn,
            machine: header::Machine::X86_64,
            file_version: header::FileVersion::Current,
            flag: header::Flag::Empty,
        };
        let hdr = header::Header64::new(header_param);
        let mut header_bytes: Vec<u8> = hdr.try_into()?;
        f.append(&mut header_bytes);
        Ok(())
    }
}

/// A little-endian field of two bytes whose value fits in one byte is that
/// byte and a zero.
proof fn lemma_small_field(value: nat, width: nat)
    requires
        value < 256,
        1 <= width <= 8,
    ensures
        header::le_bytes(value, width) == seq![value as u8] + Seq::new(
            (width - 1) as nat,
            |at: int| 0u8,
        ),
{
    reveal_with_fuel(header::le_bytes, 10);
    assert(header::le_bytes(value, width) =~= seq![value as u8] + Seq::new(
        (width - 1) as nat,
        |at: int| 0u8,
    ));
}

/// The image that the generator writes is the same for every program: the
/// sixty-four bytes of `header_image`.
pub proof fn lemma_image_is_header(generator: ExecGenerator, code: Seq<Symbol>)
    ensures
        super::ExecGenerator::image(&generator, code) == header_image(),
{
    let hdr = header::Header64::spec_new(header_parameter());
    lemma_small_field(3, 2);
    lemma_small_field(62, 2);
    lemma_small_field(1, 4);
    lemma_small_field(0, 8);
    lemma_small_field(64, 8);
    lemma_small_field(0, 4);
    lemma_small_field(64, 2);
    lemma_small_field(56, 2);
    lemma_small_field(0, 2);
    assert(hdr.image() =~= header_image());
}

} // verus!
