//! The byte sink that a cursor writes to.
use vstd::prelude::*;

verus! {

/// std's io::Error, carried through as it is.
#[verifier::external_type_specification]
#[verifier::external_body]
pub struct ExIoError(std::io::Error);

/// Something that takes bytes, such as a terminal or a buffer in memory.
pub trait Sink {
    /// Hands over all of `bytes`.
    fn write_all(&mut self, bytes: &[u8]) -> Result<(), std::io::Error>;

    /// Pushes what the sink holds on to the device.
    fn flush(&mut self) -> Result<(), std::io::Error>;
}

/// A buffer in memory that keeps every byte written to it.
impl Sink for Vec<u8> {
    fn write_all(&mut self, bytes: &[u8]) -> Result<(), std::io::Error> {
        self.extend_from_slice(bytes);
        Ok(())
    }

    fn flush(&mut self) -> Result<(), std::io::Error> {
        Ok(())
    }
}

} // verus!
