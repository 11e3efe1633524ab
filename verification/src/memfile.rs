use crate::blocking::{set_len_spec, VowFile};
use crate::error::Error;
use vstd::prelude::*;

verus! {

/// An in-memory backing store: a [`VowFile`] whose contents are a byte
/// vector, with every operation verified against the trait's contracts.
/// Opening it at any path yields an empty store, like a file that did not
/// exist yet.
#[derive(Debug)]
pub struct MemFile {
    /// The bytes the store holds.
    pub data: Vec<u8>,
}

impl Clone for MemFile {
    /// A clone holds exactly the same bytes.
    fn clone(&self) -> (r: Self)
        ensures
            r.contents() == self.contents(),
    {
        let mut data: Vec<u8> = Vec::new();
        let n = self.data.len();
        let mut i: usize = 0;
        while i < n
            invariant
                i <= n,
                n == self.data.len(),
                data@ == self.data@.take(i as int),
            decreases n - i,
        {
            let b = self.data[i];
            data.push(b);
            i = i + 1;
        }
        proof {
            assert(self.data@.take(n as int) =~= self.data@);
        }
        MemFile { data }
    }
}

impl MemFile {
    /// An empty store.
    pub fn new() -> (r: Self)
        ensures
            r.contents() == Seq::<u8>::empty(),
    {
        MemFile { data: Vec::new() }
    }

    /// A store already holding `data`.
    pub fn from_vec(data: Vec<u8>) -> (r: Self)
        ensures
            r.contents() == data@,
    {
        MemFile { data }
    }

    /// The bytes the store holds.
    pub fn bytes(&self) -> (r: &Vec<u8>)
        ensures
            r@ == self.contents(),
    {
        &self.data
    }
}

impl VowFile for MemFile {
    open spec fn contents(&self) -> Seq<u8> {
        self.data@
    }

    fn open(path: &str) -> (r: Result<Self, Error>)
        ensures
            r matches Ok(f) && f.contents() == Seq::<u8>::empty(),
    {
        Ok(MemFile { data: Vec::new() })
    }

    fn read_to_end(&mut self, buf: &mut Vec<u8>) -> (r: Result<(), Error>)
        ensures
            r is Ok,
    {
        let n = self.data.len();
        let mut i: usize = 0;
        while i < n
            invariant
                i <= n,
                n == self.data.len(),
                self.data@ == old(self).data@,
                buf@ == old(buf)@ + self.data@.take(i as int),
            decreases n - i,
        {
            let b = self.data[i];
            buf.push(b);
            i = i + 1;
        }
        proof {
            assert(self.data@.take(n as int) =~= self.data@);
        }
        Ok(())
    }

    fn write_all(&mut self, buf: &[u8]) -> (r: Result<(), Error>)
        ensures
            r is Ok,
    {
        let n = buf.len();
        let mut i: usize = 0;
        while i < n
            invariant
                i <= n,
                n == buf@.len(),
                self.data@ == old(self).data@ + buf@.take(i as int),
            decreases n - i,
        {
            let b = buf[i];
            self.data.push(b);
            i = i + 1;
        }
        proof {
            assert(buf@.take(n as int) =~= buf@);
        }
        Ok(())
    }

    fn set_len(&mut self, len: u64) -> (r: Result<(), Error>)
        ensures
            len <= usize::MAX as u64 ==> r is Ok,
            r is Err ==> final(self).contents() == old(self).contents(),
    {
        if len <= self.data.len() as u64 {
            self.data.truncate(len as usize);
            proof {
                assert(self.data@ =~= set_len_spec(old(self).data@, len as nat));
            }
            Ok(())
        } else if len <= usize::MAX as u64 {
            let target: usize = len as usize;
            while self.data.len() < target
                invariant
                    old(self).data@.len() < target,
                    old(self).data@.len() <= self.data@.len() <= target,
                    self.data@.take(old(self).data@.len() as int) == old(self).data@,
                    forall|j: int| old(self).data@.len() <= j < self.data@.len()
                        ==> self.data@[j] == 0u8,
                decreases target - self.data.len(),
            {
                self.data.push(0u8);
            }
            proof {
                assert(self.data@ =~= set_len_spec(old(self).data@, len as nat));
            }
            Ok(())
        } else {
            // Growing past the address space cannot be represented here.
            Err(Error::Io)
        }
    }

    fn flush(&mut self) -> (r: Result<(), Error>)
        ensures
            r is Ok,
    {
        Ok(())
    }
}

} // verus!
