//! The write and read/verify engines.
//!
//! The write engine drains the keyed stream into the device block by block,
//! resuming partially written blocks, until the device raises the out-of-space
//! signal — the expected, successful end of the write phase. The read engine
//! re-derives the same stream from a second, independently constructed
//! generator and compares it byte for byte against what the device returns,
//! locating the exact offset of the first mismatch.

use vstd::prelude::*;

use crate::device::{IoOutcome, SimDevice};
use crate::stream::{keystream_block, lemma_stream_byte_decompose, stream_byte, KeyedStream};

verus! {

/// The decision the write engine takes after one low-level write call.
#[derive(Debug, Clone, Copy, PartialEq, Eq, Structural)]
pub enum WriteStep {
    /// Part of the block was accepted: offer the rest of the same block,
    /// never skipping or re-generating bytes.
    Continue,
    /// The whole block is on the device: generate the next one.
    BlockDone,
    /// Out of space: sync and finish successfully with the count so far.
    DeviceFull,
    /// A call accepted zero bytes: no further progress can be made; fatal.
    NoProgress,
    /// Any other fault of the write call: fatal.
    IoError,
}

/// The write engine's decision function. Given the outcome of one write call
/// that offered bytes `block_off..block_size` of the current block, it
/// advances the byte counters and says what to do next. The loop around the
/// real device and the verified loop over the simulated one both follow it.
pub fn write_step(
    written: &mut usize,
    block_off: &mut usize,
    block_size: usize,
    outcome: IoOutcome,
) -> (r: WriteStep)
    requires
        *old(block_off) < block_size,
        outcome matches IoOutcome::Progress(n) ==> n <= block_size - *old(block_off)
            && *old(written) + n <= usize::MAX,
    ensures
        match outcome {
            IoOutcome::Progress(n) => {
                if n == 0 {
                    r == WriteStep::NoProgress && *final(written) == *old(written)
                        && *final(block_off) == *old(block_off)
                } else {
                    *final(written) == *old(written) + n
                        && *final(block_off) == *old(block_off) + n
                        && r == (if *old(block_off) + n == block_size {
                        WriteStep::BlockDone
                    } else {
                        WriteStep::Continue
                    })
                }
            },
            IoOutcome::EndOfDevice => r == WriteStep::DeviceFull && *final(written) == *old(written)
                && *final(block_off) == *old(block_off),
            IoOutcome::Failure => r == WriteStep::IoError && *final(written) == *old(written)
                && *final(block_off) == *old(block_off),
        },
{
    match outcome {
        IoOutcome::Progress(n) => {
            if n == 0 {
                WriteStep::NoProgress
            } else {
                *written = *written + n;
                *block_off = *block_off + n;
                if *block_off == block_size {
                    WriteStep::BlockDone
                } else {
                    WriteStep::Continue
                }
            }
        },
        IoOutcome::EndOfDevice => WriteStep::DeviceFull,
        IoOutcome::Failure => WriteStep::IoError,
    }
}

/// Scans `chunk[0..n]` against `expected[at..at + n]` and returns the first
/// index whose bytes differ, with the device's byte and the expected byte.
pub fn find_first_mismatch(chunk: &Vec<u8>, expected: &Vec<u8>, n: usize, at: usize) -> (r: Option<
    (usize, u8, u8),
>)
    requires
        n <= chunk@.len(),
        at + n <= expected@.len(),
    ensures
        match r {
            None => forall|j: int| 0 <= j < n ==> chunk@[j] == expected@[at + j],
            Some((i, db, eb)) => i < n && db == chunk@[i as int] && eb == expected@[at + i] && db
                != eb && (forall|j: int| 0 <= j < i ==> chunk@[j] == expected@[at + j]),
        },
{
    let explen = expected.len();
    let mut i: usize = 0;
    while i < n
        invariant
            i <= n,
            n <= chunk@.len(),
            at + n <= explen,
            explen == expected@.len(),
            forall|j: int| 0 <= j < i ==> chunk@[j] == expected@[at + j],
        decreases n - i,
    {
        let db = chunk[i];
        let eb = expected[at + i];
        if db != eb {
            return Some((i, db, eb));
        }
        i = i + 1;
    }
    None
}

/// A block-sized scratch buffer; its initial contents are never read.
fn block_buffer(n: usize) -> (r: Vec<u8>)
    ensures
        r@.len() == n,
{
    let mut buf: Vec<u8> = Vec::new();
    let mut i: usize = 0;
    while i < n
        invariant
            i <= n,
            buf@.len() == i,
        decreases n - i,
    {
        buf.push(0);
        i = i + 1;
    }
    buf
}

/// The write phase: drains the keyed stream into the device until the device
/// raises the out-of-space signal, looping on partial writes so that every
/// block's bytes land in order, then syncs. Returns the bytes written, which
/// always equal the device's capacity — capacity is discovered by attempting
/// to overrun it, not assumed.
pub fn write_device(stream: &mut KeyedStream, dev: &mut SimDevice) -> (written: usize)
    requires
        old(stream).wf(),
        old(stream).blocks() == 0,
        old(dev).wf(),
        old(dev).write_pos() == 0,
    ensures
        written == old(dev).capacity(),
        final(dev).wf(),
        final(dev).capacity() == old(dev).capacity(),
        final(dev).read_pos() == old(dev).read_pos(),
        final(dev).max_chunk() == old(dev).max_chunk(),
        final(dev).write_pos() == old(dev).capacity(),
        final(dev).synced(),
        final(stream).seed() == old(stream).seed(),
        final(stream).block_size() == old(stream).block_size(),
        forall|i: int|
            0 <= i < old(dev).capacity() ==> final(dev).contents()[i] == stream_byte(
                old(stream).seed(),
                old(stream).block_size(),
                i,
            ),
{
    let bs = stream.size();
    let ghost seed = stream.seed();
    let ghost bsi = stream.block_size();
    let mut buf = block_buffer(bs);
    let mut written: usize = 0;
    loop
        invariant
            stream.wf(),
            dev.wf(),
            bs >= 1,
            bsi == bs as int,
            stream.seed() == seed,
            stream.block_size() == bsi,
            seed == old(stream).seed(),
            bsi == old(stream).block_size(),
            dev.capacity() == old(dev).capacity(),
            dev.read_pos() == old(dev).read_pos(),
            dev.max_chunk() == old(dev).max_chunk(),
            buf@.len() == bs,
            written == dev.write_pos(),
            written <= dev.capacity(),
            written == stream.blocks() * bsi,
            forall|i: int|
                0 <= i < written ==> dev.contents()[i] == stream_byte(seed, bsi, i),
        decreases dev.capacity() - written,
    {
        let ghost k = stream.blocks();
        stream.fill(&mut buf);
        let mut block_off: usize = 0;
        while block_off < bs
            invariant
                stream.wf(),
                dev.wf(),
                bs >= 1,
                bsi == bs as int,
                stream.seed() == seed,
                stream.block_size() == bsi,
                seed == old(stream).seed(),
                bsi == old(stream).block_size(),
                stream.blocks() == k + 1,
                k >= 0,
                dev.capacity() == old(dev).capacity(),
                dev.read_pos() == old(dev).read_pos(),
                dev.max_chunk() == old(dev).max_chunk(),
                buf@.len() == bs,
                buf@ == keystream_block(seed, bsi, k),
                block_off <= bs,
                written == dev.write_pos(),
                written <= dev.capacity(),
                written == k * bsi + block_off,
                forall|i: int|
                    0 <= i < written ==> dev.contents()[i] == stream_byte(seed, bsi, i),
            decreases bs - block_off,
        {
            let ghost pre_written = written as int;
            let ghost pre_off = block_off as int;
            let outcome = dev.write(&buf, block_off);
            let step = write_step(&mut written, &mut block_off, bs, outcome);
            match step {
                WriteStep::Continue | WriteStep::BlockDone => {
                    proof {
                        assert forall|i: int| 0 <= i < written implies dev.contents()[i]
                            == stream_byte(seed, bsi, i) by {
                            if i >= pre_written {
                                let o = i - k * bsi;
                                lemma_stream_byte_decompose(seed, bsi, k, o);
                            }
                        }
                    }
                },
                WriteStep::DeviceFull => {
                    dev.sync();
                    return written;
                },
                WriteStep::NoProgress => {
                    // A call that made progress accepted at least one byte:
                    // the device takes min(offered, remaining, max_chunk),
                    // each at least 1 here.
                    proof {
                        assert(false);
                    }
                    return written;
                },
                WriteStep::IoError => {
                    // The simulated device never faults.
                    proof {
                        assert(false);
                    }
                    return written;
                },
            }
        }
        proof {
            assert((k + 1) * bsi == k * bsi + bsi) by (nonlinear_arith);
        }
    }
}

/// A verification mismatch: the first device byte that differs from the
/// expected keyed stream, with both conflicting values — the tool's primary
/// positive-detection outcome.
#[derive(Debug, Clone, Copy, PartialEq, Eq, Structural)]
pub struct Mismatch {
    /// Absolute device offset of the first differing byte.
    pub offset: usize,
    /// What the device returned at that offset.
    pub device_byte: u8,
    /// What the keyed stream holds at that offset.
    pub expected_byte: u8,
}

/// The read/verify phase: reads the device from the start, re-derives the
/// keyed stream from a freshly constructed generator, and compares byte for
/// byte. A zero-length read is the clean end-of-device signal and ends the
/// phase successfully with the bytes read; the first differing byte ends it
/// with its exact offset and the two conflicting values.
pub fn read_device(stream: &mut KeyedStream, dev: &mut SimDevice) -> (r: Result<usize, Mismatch>)
    requires
        old(stream).wf(),
        old(stream).blocks() == 0,
        old(dev).wf(),
        old(dev).read_pos() == 0,
    ensures
        final(dev).wf(),
        final(dev).contents() == old(dev).contents(),
        final(dev).capacity() == old(dev).capacity(),
        final(dev).write_pos() == old(dev).write_pos(),
        final(dev).max_chunk() == old(dev).max_chunk(),
        final(dev).synced() == old(dev).synced(),
        final(stream).seed() == old(stream).seed(),
        final(stream).block_size() == old(stream).block_size(),
        match r {
            Ok(read) => read == old(dev).capacity() && forall|i: int|
                0 <= i < old(dev).capacity() ==> old(dev).contents()[i] == stream_byte(
                    old(stream).seed(),
                    old(stream).block_size(),
                    i,
                ),
            Err(m) => m.offset < old(dev).capacity() && m.device_byte == old(dev).contents()[
                m.offset as int
            ] && m.expected_byte == stream_byte(
                old(stream).seed(),
                old(stream).block_size(),
                m.offset as int,
            ) && m.device_byte != m.expected_byte && (forall|j: int|
                0 <= j < m.offset ==> old(dev).contents()[j] == stream_byte(
                    old(stream).seed(),
                    old(stream).block_size(),
                    j,
                )),
        },
{
    let bs = stream.size();
    let ghost seed = stream.seed();
    let ghost bsi = stream.block_size();
    let mut expected = block_buffer(bs);
    let mut chunk = block_buffer(bs);
    let mut read_total: usize = 0;
    let mut block_off: usize = bs;
    loop
        invariant
            stream.wf(),
            dev.wf(),
            bs >= 1,
            bsi == bs as int,
            stream.seed() == seed,
            stream.block_size() == bsi,
            seed == old(stream).seed(),
            bsi == old(stream).block_size(),
            dev.contents() == old(dev).contents(),
            dev.capacity() == old(dev).capacity(),
            dev.write_pos() == old(dev).write_pos(),
            dev.max_chunk() == old(dev).max_chunk(),
            dev.synced() == old(dev).synced(),
            expected@.len() == bs,
            chunk@.len() == bs,
            block_off <= bs,
            read_total == dev.read_pos(),
            read_total <= dev.capacity(),
            stream.blocks() >= 0,
            if stream.blocks() == 0 {
                read_total == 0 && block_off == bs
            } else {
                read_total == (stream.blocks() - 1) * bsi + block_off && expected@
                    == keystream_block(seed, bsi, stream.blocks() - 1)
            },
            forall|i: int|
                0 <= i < read_total ==> dev.contents()[i] == stream_byte(seed, bsi, i),
        decreases dev.capacity() - read_total,
    {
        if block_off == bs {
            let ghost pre_blocks = stream.blocks();
            stream.fill(&mut expected);
            block_off = 0;
            proof {
                if pre_blocks > 0 {
                    assert((pre_blocks - 1) * bsi + bsi == pre_blocks * bsi) by (nonlinear_arith);
                }
            }
        }
        let ghost k = stream.blocks() - 1;
        let n = dev.read(&mut chunk, bs - block_off);
        if n == 0 {
            // The clean end-of-device signal: nothing short of the full
            // capacity can return zero bytes here.
            return Ok(read_total);
        }
        match find_first_mismatch(&chunk, &expected, n, block_off) {
            Some((i, db, eb)) => {
                proof {
                    lemma_stream_byte_decompose(seed, bsi, k, block_off + i);
                    assert forall|j: int| 0 <= j < read_total + i implies dev.contents()[j]
                        == stream_byte(seed, bsi, j) by {
                        if j >= read_total {
                            let t = j - read_total;
                            assert(chunk@[t] == dev.contents()[read_total + t]);
                            assert(chunk@[t] == expected@[block_off + t]);
                            lemma_stream_byte_decompose(seed, bsi, k, block_off + t);
                        }
                    }
                }
                return Err(Mismatch { offset: read_total + i, device_byte: db, expected_byte: eb });
            },
            None => {
                proof {
                    assert forall|j: int| 0 <= j < read_total + n implies dev.contents()[j]
                        == stream_byte(seed, bsi, j) by {
                        if j >= read_total {
                            let t = j - read_total;
                            assert(chunk@[t] == dev.contents()[read_total + t]);
                            assert(chunk@[t] == expected@[block_off + t]);
                            lemma_stream_byte_decompose(seed, bsi, k, block_off + t);
                        }
                    }
                }
                read_total = read_total + n;
                block_off = block_off + n;
            },
        }
    }
}

} // verus!
