use vstd::prelude::*;

verus! {

/// A program as it was read from a file, ready to be loaded.
#[derive(Debug)]
pub struct Ch8Rom {
    memory: Vec<u8>,
    size: usize,
}

impl View for Ch8Rom {
    type V = Seq<u8>;

    closed spec fn view(&self) -> Seq<u8> {
        self.memory@
    }
}

impl Clone for Ch8Rom {
    fn clone(&self) -> (copy: Ch8Rom)
        ensures
            copy@ == self@,
    {
        proof {
            use_type_invariant(self);
        }
        Ch8Rom { memory: self.memory.clone(), size: self.size }
    }
}

impl Ch8Rom {
    #[verifier::type_invariant]
    spec fn inv(self) -> bool {
        self.size == self.memory@.len()
    }

    /// Wraps the bytes of a program.
    pub fn init(buffer: Vec<u8>) -> (rom: Ch8Rom)
        ensures
            rom@ == buffer@,
    {
        let size = buffer.len();
        Ch8Rom { memory: buffer, size }
    }

    /// The bytes of the program.
    pub fn memory(&self) -> (bytes: &Vec<u8>)
        ensures
            bytes@ == self@,
    {
        &self.memory
    }

    /// How many bytes the program has.
    pub fn size(&self) -> (size: usize)
        ensures
            size == self@.len(),
    {
        proof {
            use_type_invariant(self);
        }
        self.size
    }
}

} // verus!
