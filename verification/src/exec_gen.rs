//! Generators of executable images, one per target.

pub mod x86_64;

use crate::elf::header::WriteError;
use crate::parser::Symbol;
use vstd::prelude::*;

verus! {

/// A generator of executable images for one target.
pub trait ExecGenerator {
    /// The bytes of the executable that this generator makes of `code`.
    spec fn image(&self, code: Seq<Symbol>) -> Seq<u8>;

    /// Whether the executable for `code` can be made.
    spec fn writable(&self, code: Seq<Symbol>) -> bool;

    /// Appends the executable for `code` to `f`. Where the image cannot be
    /// made, `f` is left as it was.
    fn write(&self, code: Vec<Symbol>, f: &mut Vec<u8>) -> (result: Result<(), WriteError>)
        ensures
            result is Ok <==> self.writable(code@),
            result is Ok ==> final(f)@ == old(f)@ + self.image(code@),
            result is Err ==> final(f)@ == old(f)@,
    ;
}

/// The target that an executable is built for.
#[derive(Debug, Clone, Copy, PartialEq, Eq, Structural)]
pub enum Target {
    /// The machine that the build runs on.
    Native,
    /// Linux on x86-64.
    LinuxX86_64,
}

/// No generator exists for the target that was asked for.
#[derive(Debug, Clone, Copy, PartialEq, Eq, Structural)]
pub struct UnsupportedTarget;

/// The generator for `target`. `host_is_linux_x86_64` says whether the
/// build runs on Linux on x86-64, the one host whose native target has a
/// generator.
pub fn select_generator(target: Target, host_is_linux_x86_64: bool) -> (result: Result<
    x86_64::ExecGenerator,
    UnsupportedTarget,
>)
    ensures
        result is Ok <==> (target == Target::LinuxX86_64 || host_is_linux_x86_64),
        result is Ok ==> result->Ok_0.os == x86_64::Os::Linux,
{
    match target {
        Target::LinuxX86_64 => Ok(x86_64::ExecGenerator::new(x86_64::Os::Linux)),
        Target::Native => {
            if host_is_linux_x86_64 {
                Ok(x86_64::ExecGenerator::new(x86_64::Os::Linux))
            } else {
                Err(UnsupportedTarget)
            }
        },
    }
}

} // verus!
