//! An interface slot that answers nothing.
use crate::usb::UrbError;
use vstd::prelude::*;

verus! {

/// A placeholder interface: every request to it is refused.
#[derive(Debug)]
pub struct ReservedInterfaceHandler {}

impl ReservedInterfaceHandler {
    pub fn new() -> (r: ReservedInterfaceHandler) {
        ReservedInterfaceHandler {}
    }

    pub fn get_class_specific_descriptor(&self) -> (r: Vec<u8>)
        ensures
            r@ == Seq::<u8>::empty(),
    {
        Vec::new()
    }

    /// Any URB to a reserved interface is unsupported.
    pub fn handle_urb(&self) -> (r: Result<Vec<u8>, UrbError>)
        ensures
            r == Err::<Vec<u8>, UrbError>(UrbError::Unsupported),
    {
        Err(UrbError::Unsupported)
    }
}

} // verus!
