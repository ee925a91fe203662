//! UDS download sequencing (services 0x34, 0x36, 0x37): request download,
//! chunked transfer data with the block sequence counter, and transfer exit
//! with the checksum seal.

use vstd::prelude::*;
use crate::flash::{
    erase_result, range_in_app, seal_result, splice, Flash, APP_START, FLASH_END,
};
use crate::frame::{resp_bytes, resp_new, resp_push};
use crate::uds::{
    create_negative_response, negative_response, UDS_NRC_GENERAL_PROGRAMMING_FAILURE,
    UDS_NRC_INCORRECT_MESSAGE_LENGTH_OR_INVALID_FORMAT, UDS_NRC_REQUEST_OUT_OF_RANGE,
    UDS_NRC_REQUEST_SEQUENCE_ERROR, UDS_NRC_WRONG_BLOCK_SEQUENCE_COUNTER, UDS_RSP_POSITIVE,
    UDS_SID_REQUEST_DOWNLOAD, UDS_SID_REQUEST_TRANSFER_EXIT, UDS_SID_TRANSFER_DATA,
};

verus! {

/// Largest size a tester may declare in a request download, in bytes.
pub const MAX_MEMORY_SIZE: u32 = 0x10_0000;

/// Largest transfer-data payload advertised to the tester, in bytes.
pub const MAX_BLOCK_SIZE: u32 = 1024;

/// Mirror of the transfer state for specifications.
pub struct TransferView {
    pub download_address: u32,
    pub download_size: u32,
    pub block_counter: u8,
    pub transfer_active: bool,
}

/// The well-formed transfer states: an active download stays inside the
/// application zone.
pub open spec fn transfer_wf(t: TransferView) -> bool {
    t.transfer_active ==> t.download_address >= APP_START
        && t.download_address + t.download_size <= FLASH_END
}

/// 256 to the power `n`.
pub open spec fn pow256(n: int) -> int
    decreases n,
{
    if n <= 0 {
        1
    } else {
        256 * pow256(n - 1)
    }
}

/// The big-endian value of the `n` bytes of `data` starting at `start`.
pub open spec fn be_value(data: Seq<u8>, start: int, n: int) -> int
    decreases n,
{
    if n <= 0 {
        0
    } else {
        be_value(data, start, n - 1) * 0x100 + data[start + n - 1]
    }
}

/// The values of `pow256` up to four bytes.
proof fn lemma_pow256_small(n: int)
    requires
        0 <= n <= 4,
    ensures
        pow256(n) == if n == 0 { 1int } else if n == 1 { 0x100int } else if n == 2 {
            0x1_0000int
        } else if n == 3 {
            0x100_0000int
        } else {
            0x1_0000_0000int
        },
    decreases n,
{
    if n > 0 {
        lemma_pow256_small(n - 1);
    }
}

/// A big-endian field of `n` bytes is below `pow256(n)`.
pub proof fn lemma_be_value_bound(data: Seq<u8>, start: int, n: int)
    requires
        0 <= start,
        start + n <= data.len(),
    ensures
        0 <= be_value(data, start, n) < pow256(n),
    decreases n,
{
    if n > 0 {
        lemma_be_value_bound(data, start, n - 1);
    }
}

/// One request download exchange: the transfer state, device contents and
/// response after handling `data` (the payload without the service
/// identifier).  The payload carries the data format byte, the
/// address-and-size format byte whose nibbles give the field widths, and
/// then the big-endian address and size.
pub open spec fn download_step(t: TransferView, mem: Seq<u8>, data: Seq<u8>) -> (TransferView, Seq<u8>, Seq<u8>) {
    if data.len() < 3 {
        (t, mem, negative_response(UDS_SID_REQUEST_DOWNLOAD, UDS_NRC_INCORRECT_MESSAGE_LENGTH_OR_INVALID_FORMAT))
    } else {
        let addr_len = data[1] / 16;
        let size_len = data[1] % 16;
        if !(1 <= addr_len <= 4 && 1 <= size_len <= 4) {
            (t, mem, negative_response(UDS_SID_REQUEST_DOWNLOAD, UDS_NRC_INCORRECT_MESSAGE_LENGTH_OR_INVALID_FORMAT))
        } else if data.len() < 2 + addr_len + size_len {
            (t, mem, negative_response(UDS_SID_REQUEST_DOWNLOAD, UDS_NRC_INCORRECT_MESSAGE_LENGTH_OR_INVALID_FORMAT))
        } else {
            let address = be_value(data, 2, addr_len as int) as u32;
            let size = be_value(data, 2 + addr_len, size_len as int) as u32;
            if !(size <= MAX_MEMORY_SIZE && range_in_app(address, size as int)) {
                (t, mem, negative_response(UDS_SID_REQUEST_DOWNLOAD, UDS_NRC_REQUEST_OUT_OF_RANGE))
            } else {
                (
                    TransferView {
                        download_address: address,
                        download_size: size,
                        block_counter: 0,
                        transfer_active: true,
                    },
                    erase_result(mem, address, size),
                    seq![
                        (UDS_SID_REQUEST_DOWNLOAD + UDS_RSP_POSITIVE) as u8,
                        0x10u8,
                        ((MAX_BLOCK_SIZE / 0x100) % 0x100) as u8,
                        (MAX_BLOCK_SIZE % 0x100) as u8,
                    ],
                )
            }
        }
    }
}

/// One transfer data exchange: the transfer state, device contents and
/// response after handling `data`.
pub open spec fn transfer_data_step(t: TransferView, mem: Seq<u8>, data: Seq<u8>) -> (TransferView, Seq<u8>, Seq<u8>) {
    if !t.transfer_active {
        (t, mem, negative_response(UDS_SID_TRANSFER_DATA, UDS_NRC_REQUEST_SEQUENCE_ERROR))
    } else if data.len() == 0 {
        (t, mem, negative_response(UDS_SID_TRANSFER_DATA, UDS_NRC_INCORRECT_MESSAGE_LENGTH_OR_INVALID_FORMAT))
    } else if data[0] != t.block_counter.wrapping_add(1) {
        (t, mem, negative_response(UDS_SID_TRANSFER_DATA, UDS_NRC_WRONG_BLOCK_SEQUENCE_COUNTER))
    } else if data.len() - 1 > t.download_size {
        (t, mem, negative_response(UDS_SID_TRANSFER_DATA, UDS_NRC_REQUEST_OUT_OF_RANGE))
    } else {
        let payload = data.subrange(1, data.len() as int);
        (
            TransferView {
                download_address: (t.download_address + payload.len()) as u32,
                download_size: (t.download_size - payload.len()) as u32,
                block_counter: data[0],
                transfer_active: true,
            },
            splice(mem, t.download_address as int, payload),
            seq![(UDS_SID_TRANSFER_DATA + UDS_RSP_POSITIVE) as u8, data[0]],
        )
    }
}

/// One transfer exit exchange: any buffered data is flushed and the image is
/// sealed with its checksum.
pub open spec fn transfer_exit_step(t: TransferView, mem: Seq<u8>) -> (TransferView, Seq<u8>, Seq<u8>) {
    if !t.transfer_active {
        (t, mem, negative_response(UDS_SID_REQUEST_TRANSFER_EXIT, UDS_NRC_REQUEST_SEQUENCE_ERROR))
    } else {
        (
            TransferView { transfer_active: false, ..t },
            seal_result(mem, APP_START as int),
            seq![(UDS_SID_REQUEST_TRANSFER_EXIT + UDS_RSP_POSITIVE) as u8],
        )
    }
}

/// UDS transfer manager.
pub struct TransferManager {
    download_address: u32,
    download_size: u32,
    block_counter: u8,
    transfer_active: bool,
}

impl View for TransferManager {
    type V = TransferView;

    closed spec fn view(&self) -> TransferView {
        TransferView {
            download_address: self.download_address,
            download_size: self.download_size,
            block_counter: self.block_counter,
            transfer_active: self.transfer_active,
        }
    }
}

impl TransferManager {
    /// Create a new transfer manager with no download in progress.
    pub fn new() -> (r: TransferManager)
        ensures
            r@ == (TransferView {
                download_address: 0u32,
                download_size: 0u32,
                block_counter: 0u8,
                transfer_active: false,
            }),
            transfer_wf(r@),
    {
        TransferManager {
            download_address: 0,
            download_size: 0,
            block_counter: 0,
            transfer_active: false,
        }
    }

    /// Clear any download in progress.
    pub fn init(&mut self)
        ensures
            final(self)@ == (TransferView {
                download_address: 0u32,
                download_size: 0u32,
                block_counter: 0u8,
                transfer_active: false,
            }),
            transfer_wf(final(self)@),
    {
        self.download_address = 0;
        self.download_size = 0;
        self.block_counter = 0;
        self.transfer_active = false;
    }

    /// Abort any download in progress: the tester dropped back to the
    /// default session.  The cursor and counter keep their values; only the
    /// transfer is no longer active.
    pub fn abort(&mut self)
        ensures
            final(self)@ == (TransferView { transfer_active: false, ..old(self)@ }),
    {
        self.transfer_active = false;
    }

    /// Whether `(address, size)` may be declared for download: within the
    /// size cap, free of address overflow, and inside the application zone.
    pub fn validate_memory_range(&self, address: u32, size: u32) -> (r: bool)
        ensures
            r == (size <= MAX_MEMORY_SIZE && range_in_app(address, size as int)),
    {
        if size > MAX_MEMORY_SIZE {
            return false;
        }
        match address.checked_add(size) {
            None => false,
            Some(end_address) => address >= APP_START && end_address <= FLASH_END,
        }
    }

    /// Handle a request download (0x34): validate the declared range, erase
    /// it, and open the transfer.
    pub fn handle_request_download(&mut self, data: &[u8], flash: &mut Flash) -> (r: heapless::Vec<u8, 64>)
        requires
            transfer_wf(old(self)@),
            old(flash)@.len() == FLASH_END,
        ensures
            transfer_wf(final(self)@),
            final(flash)@.len() == FLASH_END,
            final(self)@ == download_step(old(self)@, old(flash)@, data@).0,
            final(flash)@ == download_step(old(self)@, old(flash)@, data@).1,
            resp_bytes(r) == download_step(old(self)@, old(flash)@, data@).2,
    {
        if data.len() < 3 {
            return create_negative_response(
                UDS_SID_REQUEST_DOWNLOAD,
                UDS_NRC_INCORRECT_MESSAGE_LENGTH_OR_INVALID_FORMAT,
            );
        }
        // data[0] is the data format identifier; the field widths follow.
        let format = data[1];
        let addr_len = format >> 4;
        let size_len = format & 0x0F;
        proof {
            assert(format >> 4 == format / 16) by (bit_vector);
            assert(format & 0x0F == format % 16) by (bit_vector);
        }
        if !(1 <= addr_len && addr_len <= 4 && 1 <= size_len && size_len <= 4) {
            return create_negative_response(
                UDS_SID_REQUEST_DOWNLOAD,
                UDS_NRC_INCORRECT_MESSAGE_LENGTH_OR_INVALID_FORMAT,
            );
        }
        if data.len() < 2 + addr_len as usize + size_len as usize {
            return create_negative_response(
                UDS_SID_REQUEST_DOWNLOAD,
                UDS_NRC_INCORRECT_MESSAGE_LENGTH_OR_INVALID_FORMAT,
            );
        }

        // Extract the memory address, big-endian.
        let mut address: u32 = 0;
        let mut i: usize = 0;
        while i < addr_len as usize
            invariant
                i <= addr_len,
                addr_len <= 4,
                2 + addr_len + size_len <= data@.len(),
                address == be_value(data@, 2, i as int),
                address < pow256(i as int),
            decreases addr_len - i,
        {
            proof {
                lemma_be_value_bound(data@, 2, (i + 1) as int);
                lemma_pow256_small(i as int);
                lemma_pow256_small(i + 1 as int);
            }
            address = address * 0x100 + (data[2 + i] as u32);
            i = i + 1;
        }

        // Extract the memory size, big-endian.
        let mut size: u32 = 0;
        let mut j: usize = 0;
        while j < size_len as usize
            invariant
                j <= size_len,
                addr_len <= 4,
                size_len <= 4,
                2 + addr_len + size_len <= data@.len(),
                size == be_value(data@, 2 + addr_len as int, j as int),
                size < pow256(j as int),
            decreases size_len - j,
        {
            proof {
                lemma_be_value_bound(data@, 2 + addr_len as int, (j + 1) as int);
                lemma_pow256_small(j as int);
                lemma_pow256_small(j + 1 as int);
            }
            size = size * 0x100 + (data[2 + addr_len as usize + j] as u32);
            j = j + 1;
        }

        if !self.validate_memory_range(address, size) {
            return create_negative_response(UDS_SID_REQUEST_DOWNLOAD, UDS_NRC_REQUEST_OUT_OF_RANGE);
        }

        // Erase the declared range before accepting any data for it.
        match flash.erase(address, size) {
            Ok(()) => {}
            Err(_) => {
                return create_negative_response(
                    UDS_SID_REQUEST_DOWNLOAD,
                    UDS_NRC_GENERAL_PROGRAMMING_FAILURE,
                );
            }
        }

        self.download_address = address;
        self.download_size = size;
        self.block_counter = 0;
        self.transfer_active = true;

        let mut response = resp_new();
        resp_push(&mut response, UDS_SID_REQUEST_DOWNLOAD + UDS_RSP_POSITIVE);
        // Length format of the max-block-size parameter, then its two bytes.
        resp_push(&mut response, 0x10);
        resp_push(&mut response, ((MAX_BLOCK_SIZE / 0x100) % 0x100) as u8);
        resp_push(&mut response, (MAX_BLOCK_SIZE % 0x100) as u8);
        proof {
            assert(resp_bytes(response) =~= download_step(old(self)@, old(flash)@, data@).2);
        }
        response
    }

    /// Handle a transfer data frame (0x36): check the block sequence
    /// counter, program the payload at the cursor, and advance.
    pub fn handle_transfer_data(&mut self, data: &[u8], flash: &mut Flash) -> (r: heapless::Vec<u8, 64>)
        requires
            transfer_wf(old(self)@),
            old(flash)@.len() == FLASH_END,
        ensures
            transfer_wf(final(self)@),
            final(flash)@.len() == FLASH_END,
            final(self)@ == transfer_data_step(old(self)@, old(flash)@, data@).0,
            final(flash)@ == transfer_data_step(old(self)@, old(flash)@, data@).1,
            resp_bytes(r) == transfer_data_step(old(self)@, old(flash)@, data@).2,
    {
        if !self.transfer_active {
            return create_negative_response(UDS_SID_TRANSFER_DATA, UDS_NRC_REQUEST_SEQUENCE_ERROR);
        }
        if data.len() == 0 {
            return create_negative_response(
                UDS_SID_TRANSFER_DATA,
                UDS_NRC_INCORRECT_MESSAGE_LENGTH_OR_INVALID_FORMAT,
            );
        }
        let block_counter = data[0];
        if block_counter != self.block_counter.wrapping_add(1) {
            return create_negative_response(
                UDS_SID_TRANSFER_DATA,
                UDS_NRC_WRONG_BLOCK_SEQUENCE_COUNTER,
            );
        }
        let (_, program_data) = data.split_at(1);
        if program_data.len() as u64 > self.download_size as u64 {
            return create_negative_response(UDS_SID_TRANSFER_DATA, UDS_NRC_REQUEST_OUT_OF_RANGE);
        }
        match flash.write(self.download_address, program_data) {
            Ok(()) => {}
            Err(_) => {
                return create_negative_response(
                    UDS_SID_TRANSFER_DATA,
                    UDS_NRC_GENERAL_PROGRAMMING_FAILURE,
                );
            }
        }
        self.download_address = self.download_address + program_data.len() as u32;
        self.download_size = self.download_size - program_data.len() as u32;
        self.block_counter = block_counter;

        let mut response = resp_new();
        resp_push(&mut response, UDS_SID_TRANSFER_DATA + UDS_RSP_POSITIVE);
        resp_push(&mut response, block_counter);
        proof {
            assert(resp_bytes(response) =~= transfer_data_step(old(self)@, old(flash)@, data@).2);
        }
        response
    }

    /// Handle a request transfer exit (0x37): flush any buffered block, seal
    /// the image with its checksum, and close the transfer.
    pub fn handle_transfer_exit(&mut self, data: &[u8], flash: &mut Flash) -> (r: heapless::Vec<u8, 64>)
        requires
            transfer_wf(old(self)@),
            old(flash)@.len() == FLASH_END,
        ensures
            transfer_wf(final(self)@),
            final(flash)@.len() == FLASH_END,
            final(self)@ == transfer_exit_step(old(self)@, old(flash)@).0,
            final(flash)@ == transfer_exit_step(old(self)@, old(flash)@).1,
            resp_bytes(r) == transfer_exit_step(old(self)@, old(flash)@).2,
    {
        let _ = data;
        if !self.transfer_active {
            return create_negative_response(
                UDS_SID_REQUEST_TRANSFER_EXIT,
                UDS_NRC_REQUEST_SEQUENCE_ERROR,
            );
        }
        match flash.finalize() {
            Ok(()) => {}
            Err(_) => {
                return create_negative_response(
                    UDS_SID_REQUEST_TRANSFER_EXIT,
                    UDS_NRC_GENERAL_PROGRAMMING_FAILURE,
                );
            }
        }
        match flash.write_checksum() {
            Ok(()) => {}
            Err(_) => {
                return create_negative_response(
                    UDS_SID_REQUEST_TRANSFER_EXIT,
                    UDS_NRC_GENERAL_PROGRAMMING_FAILURE,
                );
            }
        }
        self.transfer_active = false;
        let mut response = resp_new();
        resp_push(&mut response, UDS_SID_REQUEST_TRANSFER_EXIT + UDS_RSP_POSITIVE);
        proof {
            assert(resp_bytes(response) =~= transfer_exit_step(old(self)@, old(flash)@).2);
        }
        response
    }
}

/// A transfer data frame whose counter is not the successor of the last
/// accepted one changes neither the transfer state nor the device, and is
/// refused with `wrong block sequence counter`.
pub proof fn lemma_wrong_sequence_rejected(t: TransferView, mem: Seq<u8>, data: Seq<u8>)
    requires
        t.transfer_active,
        data.len() >= 1,
        data[0] != t.block_counter.wrapping_add(1),
    ensures
        transfer_data_step(t, mem, data).0 == t,
        transfer_data_step(t, mem, data).1 == mem,
        transfer_data_step(t, mem, data).2 == negative_response(
            UDS_SID_TRANSFER_DATA,
            UDS_NRC_WRONG_BLOCK_SEQUENCE_COUNTER,
        ),
{
}

/// Writing `d1` at `addr` and then `d2` right after it writes their
/// concatenation at `addr`.
proof fn lemma_splice_adjacent(mem: Seq<u8>, addr: int, d1: Seq<u8>, d2: Seq<u8>)
    requires
        0 <= addr,
        addr + d1.len() + d2.len() <= mem.len(),
    ensures
        splice(splice(mem, addr, d1), addr + d1.len(), d2) == splice(mem, addr, d1 + d2),
{
    assert(splice(splice(mem, addr, d1), addr + d1.len(), d2) =~= splice(mem, addr, d1 + d2));
}

/// The transfer-data frames of a complete download: each carries a counter
/// one above its predecessor's, starting from `counter`.
pub open spec fn frames_in_sequence(frames: Seq<Seq<u8>>, counter: u8) -> bool
    decreases frames.len(),
{
    frames.len() == 0 || (frames[0].len() >= 1 && frames[0][0] == counter.wrapping_add(1)
        && frames_in_sequence(frames.drop_first(), counter.wrapping_add(1)))
}

/// The concatenation of the payloads of a run of transfer-data frames.
pub open spec fn concat_payloads(frames: Seq<Seq<u8>>) -> Seq<u8>
    decreases frames.len(),
{
    if frames.len() == 0 {
        Seq::<u8>::empty()
    } else {
        frames[0].subrange(1, frames[0].len() as int) + concat_payloads(frames.drop_first())
    }
}

/// The transfer state and device contents after a run of transfer-data
/// frames, or `None` if any frame of the run was refused.
pub open spec fn run_transfer_data(t: TransferView, mem: Seq<u8>, frames: Seq<Seq<u8>>) -> Option<(TransferView, Seq<u8>)>
    decreases frames.len(),
{
    if frames.len() == 0 {
        Some((t, mem))
    } else {
        let step = transfer_data_step(t, mem, frames[0]);
        if step.2 =~= negative_response(UDS_SID_TRANSFER_DATA, UDS_NRC_REQUEST_SEQUENCE_ERROR)
            || step.2[0] == 0x7F {
            None
        } else {
            run_transfer_data(step.0, step.1, frames.drop_first())
        }
    }
}

/// A run of transfer-data frames in sequence from the opened transfer,
/// totalling exactly the declared size, succeeds, exhausts the declared
/// range, and leaves the device holding the concatenation of the payloads
/// at the declared address, everything else unchanged.
pub proof fn lemma_complete_download_programs_range(t: TransferView, mem: Seq<u8>, frames: Seq<Seq<u8>>)
    requires
        transfer_wf(t),
        t.transfer_active,
        mem.len() == FLASH_END,
        frames_in_sequence(frames, t.block_counter),
        concat_payloads(frames).len() == t.download_size,
    ensures
        run_transfer_data(t, mem, frames) is Some,
        ({
            let (t2, mem2) = run_transfer_data(t, mem, frames)->Some_0;
            &&& t2.transfer_active
            &&& t2.download_size == 0
            &&& t2.download_address == t.download_address + t.download_size
            &&& mem2 == splice(mem, t.download_address as int, concat_payloads(frames))
        }),
    decreases frames.len(),
{
    if frames.len() == 0 {
        assert(splice(mem, t.download_address as int, concat_payloads(frames)) =~= mem);
    } else {
        let frame0 = frames[0];
        let payload0 = frame0.subrange(1, frame0.len() as int);
        assert(concat_payloads(frames) == payload0 + concat_payloads(frames.drop_first()));
        assert(payload0.len() <= t.download_size);
        let step = transfer_data_step(t, mem, frame0);
        assert(step.2[0] == UDS_SID_TRANSFER_DATA + UDS_RSP_POSITIVE);
        let t1 = step.0;
        let mem1 = step.1;
        assert(t1.block_counter == t.block_counter.wrapping_add(1));
        lemma_complete_download_programs_range(t1, mem1, frames.drop_first());
        lemma_splice_adjacent(mem, t.download_address as int, payload0, concat_payloads(frames.drop_first()));
    }
}

} // verus!
