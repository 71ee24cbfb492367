use vstd::prelude::*;

use crate::errors::Error;

verus! {

/// A bank of RAM or ROM.
pub struct MemoryBank {
    data: Vec<u8>,
    read_only: bool,
}

impl View for MemoryBank {
    type V = Seq<u8>;

    closed spec fn view(&self) -> Seq<u8> {
        self.data@
    }
}

impl MemoryBank {
    /// Whether writes to the bank are ignored.
    pub closed spec fn is_read_only(&self) -> bool {
        self.read_only
    }

    /// A bank of `size` zero bytes.
    pub fn new(size: usize, read_only: bool) -> (bank: MemoryBank)
        ensures
            bank@ == Seq::new(size as nat, |i: int| 0u8),
            bank.is_read_only() == read_only,
    {
        let mut data: Vec<u8> = Vec::new();
        let mut i: usize = 0;
        while i < size
            invariant
                i <= size,
                data@ == Seq::new(i as nat, |j: int| 0u8),
            decreases size - i,
        {
            data.push(0);
            i += 1;
        }
        MemoryBank { data, read_only }
    }

    /// A bank holding a copy of `data`.
    pub fn new_with_data(data: &[u8], read_only: bool) -> (bank: MemoryBank)
        ensures
            bank@ == data@,
            bank.is_read_only() == read_only,
    {
        MemoryBank { data: vstd::slice::slice_to_vec(data), read_only }
    }

    /// Sets every byte of the bank to zero; the size is unchanged.
    pub fn clear(&mut self)
        ensures
            final(self)@ == Seq::new(old(self)@.len(), |i: int| 0u8),
            final(self).is_read_only() == old(self).is_read_only(),
    {
        let n = self.data.len();
        let mut i: usize = 0;
        while i < n
            invariant
                i <= n,
                n == self.data@.len(),
                self.read_only == old(self).read_only,
                forall|j: int| 0 <= j < i ==> self.data@[j] == 0u8,
            decreases n - i,
        {
            self.data.set(i, 0);
            i += 1;
        }
        assert(self.data@ =~= Seq::new(old(self)@.len(), |i: int| 0u8));
    }

    /// The number of bytes in the bank.
    pub fn size(&self) -> (n: usize)
        ensures
            n == self@.len(),
    {
        self.data.len()
    }

    fn check_bounds(&self, index: usize) -> (r: Result<(), Error>)
        ensures
            r is Ok <==> index < self@.len(),
            r is Err ==> r == Err::<(), Error>(Error::MemoryFault { address: index, size: self@.len() as usize }),
    {
        if index >= self.data.len() {
            Err(Error::MemoryFault { address: index, size: self.data.len() })
        } else {
            Ok(())
        }
    }

    /// The byte at `address`, or a memory fault past the end of the bank.
    pub fn read(&self, address: usize) -> (r: Result<u8, Error>)
        ensures
            address < self@.len() ==> r == Ok::<u8, Error>(self@[address as int]),
            address >= self@.len() ==> r == Err::<u8, Error>(Error::MemoryFault { address, size: self@.len() as usize }),
    {
        match self.check_bounds(address) {
            Ok(()) => Ok(self.data[address]),
            Err(e) => Err(e),
        }
    }

    /// Stores `data` at `address`. A read-only bank ignores the write; a writable bank
    /// reports a memory fault past its end.
    pub fn write(&mut self, address: usize, data: u8) -> (r: Result<(), Error>)
        ensures
            final(self).is_read_only() == old(self).is_read_only(),
            old(self).is_read_only() ==> r is Ok && final(self)@ == old(self)@,
            !old(self).is_read_only() && address < old(self)@.len() ==> r is Ok && final(self)@
                == old(self)@.update(address as int, data),
            !old(self).is_read_only() && address >= old(self)@.len() ==> final(self)@ == old(self)@
                && r == Err::<(), Error>(Error::MemoryFault { address, size: old(self)@.len() as usize }),
    {
        if self.read_only {
            return Ok(());
        }
        match self.check_bounds(address) {
            Ok(()) => {
                self.data.set(address, data);
                Ok(())
            },
            Err(e) => Err(e),
        }
    }

    /// Whether the bank ignores writes.
    pub fn read_only(&self) -> (r: bool)
        ensures
            r == self.is_read_only(),
    {
        self.read_only
    }

    /// "ROM" for a read-only bank, "RAM" otherwise.
    pub fn kind_name(&self) -> (s: &'static str)
        ensures
            s@ == (if self.is_read_only() { "ROM"@ } else { "RAM"@ }),
    {
        if self.read_only {
            "ROM"
        } else {
            "RAM"
        }
    }
}

} // verus!
