//! A simulated block device: a finite byte store against which the write and
//! read engines are proved. One low-level call transfers at most `max_chunk`
//! bytes, so short reads and partial writes are part of the model; a write
//! against a full store raises the out-of-space signal, and a read at the end
//! returns zero bytes — the two expected end-of-device signals.

use vstd::prelude::*;

use vstd::math::min;
use vstd::pervasive::VecAdditionalExecFns;

verus! {

/// The tagged outcome of one low-level write call: some bytes were accepted,
/// the device raised the out-of-space signal, or the call faulted otherwise.
#[derive(Debug, Clone, Copy, PartialEq, Eq, Structural)]
pub enum IoOutcome {
    /// The call accepted this many bytes, possibly fewer than offered.
    Progress(usize),
    /// The out-of-space signal: the expected end of the write phase.
    EndOfDevice,
    /// Any other fault of the underlying call; always fatal.
    Failure,
}

/// A simulated device holding `capacity` bytes, with one write cursor and one
/// read cursor, as each engine opens its own handle.
pub struct SimDevice {
    storage: Vec<u8>,
    write_pos: usize,
    read_pos: usize,
    max_chunk: usize,
    synced: bool,
}

impl SimDevice {
    /// The bytes the device currently stores.
    pub closed spec fn contents(&self) -> Seq<u8> {
        self.storage@
    }

    pub closed spec fn capacity(&self) -> int {
        self.storage@.len() as int
    }

    pub closed spec fn write_pos(&self) -> int {
        self.write_pos as int
    }

    pub closed spec fn read_pos(&self) -> int {
        self.read_pos as int
    }

    /// The most bytes one call transfers.
    pub closed spec fn max_chunk(&self) -> int {
        self.max_chunk as int
    }

    /// Whether all accepted writes have been forced to stable storage.
    pub closed spec fn synced(&self) -> bool {
        self.synced
    }

    pub open spec fn wf(&self) -> bool {
        self.write_pos() <= self.capacity() && self.read_pos() <= self.capacity()
            && self.max_chunk() >= 1 && self.capacity() <= usize::MAX
    }

    /// A fresh zero-filled device.
    pub fn new(capacity: usize, max_chunk: usize) -> (r: SimDevice)
        requires
            max_chunk >= 1,
        ensures
            r.wf(),
            r.capacity() == capacity,
            r.write_pos() == 0,
            r.read_pos() == 0,
            r.max_chunk() == max_chunk,
            !r.synced(),
            forall|i: int| 0 <= i < capacity ==> r.contents()[i] == 0u8,
    {
        let mut storage: Vec<u8> = Vec::new();
        let mut i: usize = 0;
        while i < capacity
            invariant
                i <= capacity,
                storage@.len() == i,
                forall|j: int| 0 <= j < i ==> storage@[j] == 0u8,
            decreases capacity - i,
        {
            storage.push(0);
            i = i + 1;
        }
        SimDevice { storage, write_pos: 0, read_pos: 0, max_chunk, synced: false }
    }

    /// Whether all accepted writes have been forced to stable storage.
    pub fn is_synced(&self) -> (r: bool)
        ensures
            r == self.synced(),
    {
        self.synced
    }

    /// The stored byte at `pos`.
    pub fn byte_at(&self, pos: usize) -> (r: u8)
        requires
            pos < self.capacity(),
        ensures
            r == self.contents()[pos as int],
    {
        self.storage[pos]
    }

    /// One raw write call: accepts up to `max_chunk` of the bytes
    /// `data[from..]`, never past capacity, and reports how many; against a
    /// full store it raises the out-of-space signal instead.
    pub fn write(&mut self, data: &Vec<u8>, from: usize) -> (r: IoOutcome)
        requires
            old(self).wf(),
            from < data@.len(),
        ensures
            final(self).wf(),
            final(self).capacity() == old(self).capacity(),
            final(self).max_chunk() == old(self).max_chunk(),
            final(self).read_pos() == old(self).read_pos(),
            final(self).contents().len() == old(self).contents().len(),
            ({
                let remaining = old(self).capacity() - old(self).write_pos();
                let n = min(min(data@.len() - from, remaining), old(self).max_chunk());
                if remaining == 0 {
                    r == IoOutcome::EndOfDevice && *final(self) == *old(self)
                } else {
                    (r matches IoOutcome::Progress(m) && m as int == n)
                        && final(self).write_pos() == old(self).write_pos() + n
                        && !final(self).synced()
                        && (forall|i: int|
                            0 <= i < old(self).capacity() ==> final(self).contents()[i] == (
                            if old(self).write_pos() <= i < old(self).write_pos() + n {
                                data@[from + (i - old(self).write_pos())]
                            } else {
                                old(self).contents()[i]
                            }))
                }
            }),
    {
        let remaining = self.storage.len() - self.write_pos;
        if remaining == 0 {
            return IoOutcome::EndOfDevice;
        }
        let mut n = data.len() - from;
        if remaining < n {
            n = remaining;
        }
        if self.max_chunk < n {
            n = self.max_chunk;
        }
        let mut i: usize = 0;
        while i < n
            invariant
                i <= n,
                n >= 1,
                from + n <= data@.len(),
                data@.len() <= usize::MAX,
                self.storage@.len() <= usize::MAX,
                self.write_pos == old(self).write_pos,
                self.write_pos + n <= self.storage@.len(),
                self.storage@.len() == old(self).contents().len(),
                self.read_pos == old(self).read_pos,
                self.max_chunk == old(self).max_chunk,
                self.synced == old(self).synced,
                forall|j: int|
                    0 <= j < self.storage@.len() ==> self.storage@[j] == (
                    if self.write_pos <= j < self.write_pos + i {
                        data@[from + (j - self.write_pos)]
                    } else {
                        old(self).contents()[j]
                    }),
            decreases n - i,
        {
            self.storage.set(self.write_pos + i, data[from + i]);
            i = i + 1;
        }
        self.write_pos = self.write_pos + n;
        self.synced = false;
        IoOutcome::Progress(n)
    }

    /// The durability sync the write engine performs on the out-of-space
    /// signal: forces all accepted bytes to stable storage.
    pub fn sync(&mut self)
        ensures
            final(self).contents() == old(self).contents(),
            final(self).capacity() == old(self).capacity(),
            final(self).write_pos() == old(self).write_pos(),
            final(self).read_pos() == old(self).read_pos(),
            final(self).max_chunk() == old(self).max_chunk(),
            final(self).synced(),
    {
        self.synced = true;
    }

    /// One raw read call: fills `buf[0..r]` with up to `count` stored bytes
    /// from the read cursor, at most `max_chunk` per call; zero bytes is the
    /// clean end-of-device signal.
    pub fn read(&mut self, buf: &mut Vec<u8>, count: usize) -> (r: usize)
        requires
            old(self).wf(),
            1 <= count,
            count <= old(buf)@.len(),
        ensures
            final(self).wf(),
            final(self).contents() == old(self).contents(),
            final(self).capacity() == old(self).capacity(),
            final(self).write_pos() == old(self).write_pos(),
            final(self).max_chunk() == old(self).max_chunk(),
            final(self).synced() == old(self).synced(),
            r as int == min(
                min(count as int, old(self).capacity() - old(self).read_pos()),
                old(self).max_chunk(),
            ),
            final(self).read_pos() == old(self).read_pos() + r,
            final(buf)@.len() == old(buf)@.len(),
            forall|i: int|
                0 <= i < r ==> final(buf)@[i] == old(self).contents()[old(self).read_pos() + i],
            forall|i: int| r <= i < old(buf)@.len() ==> final(buf)@[i] == old(buf)@[i],
    {
        let remaining = self.storage.len() - self.read_pos;
        let mut n = count;
        if remaining < n {
            n = remaining;
        }
        if self.max_chunk < n {
            n = self.max_chunk;
        }
        let mut i: usize = 0;
        while i < n
            invariant
                i <= n,
                n <= old(buf)@.len(),
                self.read_pos + n <= self.storage@.len(),
                self.storage@.len() <= usize::MAX,
                self.read_pos == old(self).read_pos,
                self.write_pos == old(self).write_pos,
                self.max_chunk == old(self).max_chunk,
                self.synced == old(self).synced,
                self.storage@ == old(self).contents(),
                buf@.len() == old(buf)@.len(),
                forall|j: int| 0 <= j < i ==> buf@[j] == self.storage@[self.read_pos + j],
                forall|j: int| i <= j < old(buf)@.len() ==> buf@[j] == old(buf)@[j],
            decreases n - i,
        {
            let value = self.storage[self.read_pos + i];
            buf.set(i, value);
            i = i + 1;
        }
        self.read_pos = self.read_pos + n;
        n
    }

    /// Overwrites one stored byte in place, modelling a device that failed to
    /// keep what was written, without moving either cursor.
    pub fn corrupt(&mut self, pos: usize, value: u8)
        requires
            old(self).wf(),
            pos < old(self).capacity(),
        ensures
            final(self).wf(),
            final(self).contents() == old(self).contents().update(pos as int, value),
            final(self).capacity() == old(self).capacity(),
            final(self).write_pos() == old(self).write_pos(),
            final(self).read_pos() == old(self).read_pos(),
            final(self).max_chunk() == old(self).max_chunk(),
            final(self).synced() == old(self).synced(),
    {
        self.storage.set(pos, value);
    }
}

} // verus!
