use vstd::prelude::*;

use crate::error::TransferError;

verus! {

/// The size of a file as a buffer length: the whole file is held in memory,
/// so a size that `usize` cannot represent is refused before any transfer.
pub fn checked_size(len: u64) -> (r: Result<usize, TransferError>)
    ensures
        r is Ok <==> len <= usize::MAX,
        r matches Ok(n) ==> n == len,
        r is Err ==> r == Err::<usize, TransferError>(TransferError::SizeConversion),
{
    if (len as u128) <= (usize::MAX as u128) {
        Ok(len as usize)
    } else {
        Err(TransferError::SizeConversion)
    }
}

/// Fills a buffer of a file's announced size from successive reads. A short
/// read is expected and only asks for more; the content is complete when the
/// buffer is full or the file ends first.
pub struct FileFill {
    data: Vec<u8>,
    expected: usize,
}

impl FileFill {
    pub closed spec fn data(&self) -> Seq<u8> {
        self.data@
    }

    pub closed spec fn expected(&self) -> nat {
        self.expected as nat
    }

    pub closed spec fn wf(&self) -> bool {
        self.data@.len() <= self.expected
    }

    pub fn new(expected: usize) -> (r: Self)
        ensures
            r.wf(),
            r.data() == Seq::<u8>::empty(),
            r.expected() == expected,
    {
        FileFill { data: Vec::new(), expected }
    }

    /// How many bytes the next read may bring at most.
    pub fn remaining(&self) -> (r: usize)
        requires
            self.wf(),
        ensures
            r == self.expected() - self.data().len(),
    {
        self.expected - self.data.len()
    }

    /// Takes the bytes of one read. The content comes back once the buffer is
    /// full, or at end of file, which is a read of no bytes.
    pub fn on_read(&mut self, chunk: &[u8]) -> (r: Option<Vec<u8>>)
        requires
            old(self).wf(),
            old(self).data().len() + chunk@.len() <= old(self).expected(),
        ensures
            final(self).wf(),
            final(self).expected() == old(self).expected(),
            final(self).data() == old(self).data() + chunk@,
            r is Some <==> chunk@.len() == 0 || final(self).data().len() == final(self).expected(),
            r matches Some(c) ==> c@ == final(self).data(),
    {
        self.data.extend_from_slice(chunk);
        proof {
            assert(self.data@ =~= old(self).data@ + chunk@);
        }
        if chunk.len() == 0 || self.data.len() == self.expected {
            Some(self.data.clone())
        } else {
            None
        }
    }
}

} // verus!
