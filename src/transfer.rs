//! The chunked transfer engine: an image is read in target-specific chunks,
//! and each non-empty read becomes one write-memory command at the running
//! address.

use vstd::prelude::*;
use vstd::arithmetic::div_mod::lemma_fundamental_div_mod_converse;
use crate::commands::{MAX_WRITE_DATA, write_chunk, write_memory_bytes};
use crate::frame::{frame_of, report_of};
use crate::protocol::AP2Target;

verus! {

/// Bytes per write-memory command: the BLE MCU's bootloader has a smaller
/// receive buffer than the others.
pub open spec fn chunk_size_of(target: AP2Target) -> nat {
    if target == AP2Target::McuBle {
        32
    } else {
        48
    }
}

pub fn chunk_size(target: AP2Target) -> (r: usize)
    ensures
        r == chunk_size_of(target),
{
    match target {
        AP2Target::McuBle => 32,
        _ => 48,
    }
}

/// The report that writes `data` to `target` at `address`.
pub open spec fn chunk_report(target: AP2Target, address: u32, data: Seq<u8>) -> Seq<u8> {
    report_of(frame_of(target, write_memory_bytes(address, data)))
}

/// One write-memory command: where it writes, how many bytes, and the report
/// that carries it.
#[derive(Debug, Clone, PartialEq, Eq)]
pub struct ChunkWrite {
    pub address: u32,
    pub size: usize,
    pub report: Vec<u8>,
}

/// The state of one transfer: the running address and what has been written.
#[derive(Debug, Clone, Copy, PartialEq, Eq)]
pub struct TransferSession {
    pub target: AP2Target,
    pub base: u32,
    pub current_address: u32,
    pub chunk_size: usize,
    pub bytes_written: u32,
    pub finished: bool,
}

impl TransferSession {
    pub open spec fn wf(&self) -> bool {
        &&& self.chunk_size == chunk_size_of(self.target)
        &&& self.base <= self.current_address
        &&& self.bytes_written == self.current_address - self.base
    }

    /// A session that starts writing to `target` at `base`.
    pub fn new(target: AP2Target, base: u32) -> (r: Self)
        ensures
            r.wf(),
            r.target == target,
            r.base == base,
            r.current_address == base,
            r.bytes_written == 0,
            !r.finished,
    {
        TransferSession {
            target,
            base,
            current_address: base,
            chunk_size: chunk_size(target),
            bytes_written: 0,
            finished: false,
        }
    }

    /// Takes the bytes of one read from the image. A non-empty read becomes a
    /// write at the running address, which then advances past it whatever
    /// becomes of the write; a read shorter than a chunk ends the transfer.
    pub fn on_read(&mut self, data: &[u8]) -> (r: Option<ChunkWrite>)
        requires
            old(self).wf(),
            !old(self).finished,
            data@.len() <= old(self).chunk_size,
            old(self).current_address + data@.len() <= u32::MAX,
        ensures
            final(self).wf(),
            final(self).target == old(self).target,
            final(self).base == old(self).base,
            final(self).current_address == old(self).current_address + data@.len(),
            final(self).finished == (data@.len() < old(self).chunk_size),
            r is None <==> data@.len() == 0,
            match r {
                Some(w) => w.address == old(self).current_address && w.size == data@.len()
                    && w.report@ == chunk_report(old(self).target, old(self).current_address, data@),
                None => true,
            },
    {
        let size = data.len();
        let mut r: Option<ChunkWrite> = None;
        if size > 0 {
            let address = self.current_address;
            match write_chunk(self.target, address, data) {
                Ok(report) => {
                    r = Some(ChunkWrite { address, size, report });
                },
                Err(_) => {
                    // A chunk never exceeds what one write frame carries.
                    assert(data@.len() <= MAX_WRITE_DATA);
                    assert(false);
                },
            }
            self.current_address = self.current_address + size as u32;
            self.bytes_written = self.bytes_written + size as u32;
        }
        if size < self.chunk_size {
            self.finished = true;
        }
        r
    }
}

/// The writes of a whole image, with the number of reads that the transfer
/// made and where it ended.
#[derive(Debug, Clone, PartialEq, Eq)]
pub struct TransferPlan {
    pub writes: Vec<ChunkWrite>,
    pub reads: usize,
    pub end_address: u32,
    pub bytes_written: u32,
}

pub open spec fn min_nat(a: nat, b: nat) -> nat {
    if a <= b {
        a
    } else {
        b
    }
}

/// `a / b`, rounded up.
pub open spec fn ceil_div(a: int, b: int) -> int {
    (a + b - 1) / b
}

/// The `i`-th write of `image` to `target` from `base`, in chunks of `c`.
pub open spec fn planned_write(
    target: AP2Target,
    base: u32,
    image: Seq<u8>,
    c: nat,
    i: int,
    w: ChunkWrite,
) -> bool {
    let start = (i * c) as nat;
    let size = min_nat(c, (image.len() - start) as nat);
    &&& w.address == base + start
    &&& w.size == size
    &&& w.report@ == chunk_report(target, w.address, image.subrange(start as int, (start + size) as int))
}

/// Runs a transfer of `image` to `target` from `base`, each read taking a
/// full chunk or what is left of the image, and returns the writes in order.
pub fn flash_file(target: AP2Target, base: u32, image: &[u8]) -> (r: TransferPlan)
    requires
        base + image@.len() <= u32::MAX,
    ensures
        ({
            let c = chunk_size_of(target);
            let len = image@.len();
            &&& r.writes@.len() == ceil_div(len as int, c as int)
            &&& len % c != 0 ==> r.writes@.len() == len / c + 1
            &&& len % c == 0 ==> r.writes@.len() == len / c
            &&& r.reads == len / c + 1
            &&& forall|i: int|
                0 <= i < r.writes@.len() ==> #[trigger] planned_write(
                    target,
                    base,
                    image@,
                    c,
                    i,
                    r.writes@[i],
                )
        }),
        r.end_address == base + image@.len(),
        r.bytes_written == image@.len(),
{
    let ghost c = chunk_size_of(target);
    let ghost len = image@.len();
    let mut session = TransferSession::new(target, base);
    let mut writes: Vec<ChunkWrite> = Vec::new();
    let mut reads: usize = 0;
    let mut pos: usize = 0;
    while !session.finished
        invariant
            session.wf(),
            session.target == target,
            session.base == base,
            c == chunk_size_of(target),
            len == image@.len(),
            base + len <= u32::MAX,
            pos <= len,
            session.current_address == base + pos,
            !session.finished ==> pos == writes@.len() * c && reads == writes@.len(),
            session.finished ==> pos == len && reads == len / c + 1 && writes@.len() == ceil_div(len as int, c as int)
                && (len % c != 0 ==> writes@.len() == len / c + 1) && (len % c == 0
                ==> writes@.len() == len / c),
            forall|i: int|
                0 <= i < writes@.len() ==> #[trigger] planned_write(
                    target,
                    base,
                    image@,
                    c,
                    i,
                    writes@[i],
                ),
        decreases len - pos + (if session.finished { 0int } else { 1int }),
    {
        let rest = image.len() - pos;
        let n = if rest < session.chunk_size { rest } else { session.chunk_size };
        let data = slice_part(image, pos, pos + n);
        let ghost k = writes@.len();
        let w = session.on_read(data);
        match w {
            Some(w) => {
                writes.push(w);
            },
            None => {},
        }
        proof {
            let ghost ci = c as int;
            let ghost ki = k as int;
            let ghost ni = n as int;
            assert((ki + 1) * ci == ki * ci + ci) by (nonlinear_arith);
            if n < c {
                lemma_fundamental_div_mod_converse(len as int, ci, ki, ni);
                if n > 0 {
                    lemma_fundamental_div_mod_converse(len + ci - 1, ci, ki + 1, ni - 1);
                } else {
                    lemma_fundamental_div_mod_converse(len + ci - 1, ci, ki, ci - 1);
                }
            }
            assert forall|i: int| 0 <= i < writes@.len() implies #[trigger] planned_write(
                target,
                base,
                image@,
                c,
                i,
                writes@[i],
            ) by {
                if i == k {
                    assert(min_nat(c, (len - k * c) as nat) == n);
                }
            }
        }
        pos = pos + n;
        reads = reads + 1;
    }
    TransferPlan {
        writes,
        reads,
        end_address: session.current_address,
        bytes_written: session.bytes_written,
    }
}

fn slice_part(data: &[u8], start: usize, end: usize) -> (r: &[u8])
    requires
        start <= end <= data@.len(),
    ensures
        r@ == data@.subrange(start as int, end as int),
{
    &data[start..end]
}

} // verus!
