//! An executable image in the 64-bit ELF format. So far an image is its
//! file header and nothing else.

pub mod header;

use vstd::prelude::*;

verus! {

/// A 64-bit image.
#[derive(Debug)]
pub struct Elf64 {
    /// The file header.
    pub header: header::Header64,
}

impl Elf64 {
    /// The bytes of the image as it stands in a file.
    pub open spec fn image(self) -> Seq<u8> {
        self.header.image()
    }

    /// An image whose header is made from `hdr_param`.
    pub fn new(hdr_param: header::Header64Parameter) -> (elf: Self)
        ensures
            elf.header == header::Header64::spec_new(hdr_param),
    {
        Self { header: header::Header64::new(hdr_param) }
    }

    /// The image as the bytes of a file. The result is `Ok` exactly when
    /// every write of a header field succeeds.
    pub fn try_into(self) -> (result: Result<Vec<u8>, header::WriteError>)
        ensures
            result is Ok <==> self.header.ordered_accepted(),
            result is Ok ==> result->Ok_0@ == self.image(),
    {
        let buf = self.header.try_into()?;
        Ok(buf)
    }
}

} // verus!
