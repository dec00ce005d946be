//! The raw bytes of a WebAssembly module or component, as handed to the runtime.

use vstd::prelude::*;

verus! {

/// The bytes of a wasm binary (or text), with the id under which the
/// control node registered it, if any.
#[derive(Clone, Debug)]
pub struct RawWasm {
    pub id: Option<u64>,
    pub bytes: Vec<u8>,
}

impl View for RawWasm {
    type V = Seq<u8>;

    open spec fn view(&self) -> Seq<u8> {
        self.bytes@
    }
}

impl RawWasm {
    pub fn new(id: Option<u64>, bytes: Vec<u8>) -> (r: RawWasm)
        ensures
            r.id == id,
            r.bytes == bytes,
    {
        RawWasm { id, bytes }
    }

    pub fn as_slice(&self) -> (r: &[u8])
        ensures
            r@ == self@,
    {
        self.bytes.as_slice()
    }
}

impl From<Vec<u8>> for RawWasm {
    /// Bytes with no registered id.
    fn from(bytes: Vec<u8>) -> (r: RawWasm) {
        RawWasm::new(None, bytes)
    }
}

impl vstd::std_specs::convert::FromSpecImpl<Vec<u8>> for RawWasm {
    open spec fn obeys_from_spec() -> bool {
        true
    }

    open spec fn from_spec(bytes: Vec<u8>) -> RawWasm {
        RawWasm { id: None, bytes }
    }
}

} // verus!
