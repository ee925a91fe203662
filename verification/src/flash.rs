//! Flash engine: address-range policing, block-buffered programming, sector
//! erase, and the checksum seal over the application vector table.
//!
//! The flash device is modelled as owned memory covering the whole part,
//! `[0, FLASH_END)`.  The device command sequences (program phrase, erase
//! sector) are platform work; their effect on the array of bytes is what the
//! engine states and proves.  The bootloader zone `[0, APP_START)` is never
//! written: every write and erase is policed against the application zone
//! first.

use vstd::prelude::*;

verus! {

/// First byte of the application zone; the bootloader owns `[0, APP_START)`.
pub const APP_START: u32 = 0x0000_8000;

/// One past the last byte of device flash.
pub const FLASH_END: u32 = 0x0008_0000;

/// Size of the buffered write unit, a power of two.
pub const WRITE_BLOCK_SIZE: u32 = 1024;

/// Erase granularity: one device sector.
pub const ERASE_BLOCK_SIZE: u32 = 4096;

/// Offset of the stored checksum word inside the application vector table.
pub const CHECKSUM_OFFSET: u32 = 0x3F8;

/// Number of vector-table words covered by the checksum.
pub const CHECKSUM_WORDS: u32 = 7;

/// Value of an erased flash byte.
pub const ERASED_BYTE: u8 = 0xFF;

/// An address range lies inside the application zone: at or above
/// `APP_START` and ending at or before `FLASH_END`.
pub open spec fn range_in_app(address: u32, length: int) -> bool {
    address >= APP_START && address + length <= FLASH_END
}

/// `mem` with `data` written at `addr` and every other byte unchanged.
pub open spec fn splice(mem: Seq<u8>, addr: int, data: Seq<u8>) -> Seq<u8> {
    Seq::new(mem.len(), |i: int| if addr <= i < addr + data.len() { data[i - addr] } else { mem[i] })
}

/// First byte of the inclusive sector span erased for `(address, length)`.
pub open spec fn erase_span_lo(address: u32) -> int {
    (address as int / ERASE_BLOCK_SIZE as int) * ERASE_BLOCK_SIZE
}

/// One past the last byte of the inclusive sector span erased for
/// `(address, length)`: the span covers sectors `address / ERASE_BLOCK_SIZE`
/// through `(address + length - 1) / ERASE_BLOCK_SIZE`.
pub open spec fn erase_span_hi(address: u32, length: u32) -> int {
    ((address + length - 1) / (ERASE_BLOCK_SIZE as int) + 1) * ERASE_BLOCK_SIZE
}

/// `mem` with the sector span of `(address, length)` erased.
pub open spec fn erase_result(mem: Seq<u8>, address: u32, length: u32) -> Seq<u8> {
    Seq::new(
        mem.len(),
        |i: int|
            if erase_span_lo(address) <= i < erase_span_hi(address, length) {
                ERASED_BYTE
            } else {
                mem[i]
            },
    )
}

/// The little-endian 32-bit word stored at byte offset `addr`.
pub open spec fn word_at(mem: Seq<u8>, addr: int) -> u32 {
    (mem[addr] + mem[addr + 1] * 0x100 + mem[addr + 2] * 0x1_0000 + mem[addr + 3] * 0x100_0000) as u32
}

/// The four bytes of `x` in little-endian order.
pub open spec fn le_bytes(x: u32) -> Seq<u8> {
    seq![
        (x % 0x100) as u8,
        ((x / 0x100) % 0x100) as u8,
        ((x / 0x1_0000) % 0x100) as u8,
        ((x / 0x100_0000) % 0x100) as u8,
    ]
}

/// Wrapping sum of the first `n` little-endian words at `base`.
pub open spec fn sum_words(mem: Seq<u8>, base: int, n: nat) -> u32
    decreases n,
{
    if n == 0 {
        0u32
    } else {
        sum_words(mem, base, (n - 1) as nat).wrapping_add(word_at(mem, base + 4 * (n - 1)))
    }
}

/// The two's-complement checksum of the image whose vector table starts at
/// `app`: the negation, with 32-bit wrap, of the sum of its first seven
/// words.
pub open spec fn checksum_for(mem: Seq<u8>, app: int) -> u32 {
    0u32.wrapping_sub(sum_words(mem, app, CHECKSUM_WORDS as nat))
}

/// Validity of the image at `app`: the wrapping sum of its first seven
/// vector-table words plus the stored checksum word is zero.
pub open spec fn app_valid_at(mem: Seq<u8>, app: int) -> bool {
    sum_words(mem, app, CHECKSUM_WORDS as nat).wrapping_add(word_at(mem, app + CHECKSUM_OFFSET)) == 0
}

/// Validity of the application image at `APP_START`.
pub open spec fn app_valid(mem: Seq<u8>) -> bool {
    app_valid_at(mem, APP_START as int)
}

/// Device contents after sealing the image at `app`: its checksum written in
/// the reserved slot.
pub open spec fn seal_result(mem: Seq<u8>, app: int) -> Seq<u8> {
    splice(mem, app + CHECKSUM_OFFSET, le_bytes(checksum_for(mem, app)))
}

/// Two memories that agree on `[base, base + 4n)` have the same word sum
/// there.
proof fn lemma_sum_words_agree(m1: Seq<u8>, m2: Seq<u8>, base: int, n: nat)
    requires
        0 <= base,
        base + 4 * n <= m1.len(),
        m1.len() == m2.len(),
        forall|i: int| base <= i < base + 4 * n ==> m1[i] == m2[i],
    ensures
        sum_words(m1, base, n) == sum_words(m2, base, n),
    decreases n,
{
    if n > 0 {
        lemma_sum_words_agree(m1, m2, base, (n - 1) as nat);
        assert(m1[base + 4 * (n - 1)] == m2[base + 4 * (n - 1)]);
        assert(m1[base + 4 * (n - 1) + 1] == m2[base + 4 * (n - 1) + 1]);
        assert(m1[base + 4 * (n - 1) + 2] == m2[base + 4 * (n - 1) + 2]);
        assert(m1[base + 4 * (n - 1) + 3] == m2[base + 4 * (n - 1) + 3]);
    }
}

/// Reading back the little-endian bytes of `x` yields `x`.
proof fn lemma_word_at_le_bytes(mem: Seq<u8>, addr: int, x: u32)
    requires
        0 <= addr,
        addr + 4 <= mem.len(),
        mem[addr] == le_bytes(x)[0],
        mem[addr + 1] == le_bytes(x)[1],
        mem[addr + 2] == le_bytes(x)[2],
        mem[addr + 3] == le_bytes(x)[3],
    ensures
        word_at(mem, addr) == x,
{
    assert(x % 0x100 + ((x / 0x100) % 0x100) * 0x100 + ((x / 0x1_0000) % 0x100) * 0x1_0000 + ((x
        / 0x100_0000) % 0x100) * 0x100_0000 == x) by {
        assert(x == 0x100 * (x / 0x100) + x % 0x100);
        assert(x / 0x100 == 0x100 * ((x / 0x100) / 0x100) + (x / 0x100) % 0x100);
        assert((x / 0x100) / 0x100 == x / 0x1_0000);
        assert(x / 0x1_0000 == 0x100 * ((x / 0x1_0000) / 0x100) + (x / 0x1_0000) % 0x100);
        assert((x / 0x1_0000) / 0x100 == x / 0x100_0000);
        assert(x / 0x100_0000 < 0x100);
        assert((x / 0x100_0000) % 0x100 == x / 0x100_0000);
    }
}

/// Sealing an image makes it verify: writing the checksum of the first seven
/// vector-table words into the reserved slot leaves those words unchanged,
/// and their sum plus the stored word wraps to zero.
pub proof fn lemma_seal_valid(mem: Seq<u8>, app: int)
    requires
        0 <= app,
        app + CHECKSUM_OFFSET + 4 <= mem.len(),
        4 * CHECKSUM_WORDS <= CHECKSUM_OFFSET,
    ensures
        app_valid_at(seal_result(mem, app), app),
        sum_words(seal_result(mem, app), app, CHECKSUM_WORDS as nat)
            == sum_words(mem, app, CHECKSUM_WORDS as nat),
{
    let sealed = seal_result(mem, app);
    let s = sum_words(mem, app, CHECKSUM_WORDS as nat);
    let cs = checksum_for(mem, app);
    lemma_sum_words_agree(sealed, mem, app, CHECKSUM_WORDS as nat);
    lemma_word_at_le_bytes(sealed, app + CHECKSUM_OFFSET, cs);
    assert(s.wrapping_add(cs) == 0);
}

/// One buffered write unit: the line being assembled for the device, holding
/// `WRITE_BLOCK_SIZE` bytes starting at an aligned base address.
struct FlashBlock {
    base_address: u32,
    data: Vec<u8>,
}

/// Flash memory controller.  Its view is the contents of the device,
/// `FLASH_END` bytes.
pub struct Flash {
    mem: Vec<u8>,
}

impl View for Flash {
    type V = Seq<u8>;

    closed spec fn view(&self) -> Seq<u8> {
        self.mem@
    }
}

impl Flash {
    /// Create a flash controller over an erased device.
    pub fn new() -> (r: Flash)
        ensures
            r@.len() == FLASH_END,
            r@ == Seq::new(FLASH_END as nat, |i: int| ERASED_BYTE),
    {
        let mem: Vec<u8> = vec![ERASED_BYTE; FLASH_END as usize];
        proof {
            assert(mem@ =~= Seq::new(FLASH_END as nat, |i: int| ERASED_BYTE));
        }
        Flash { mem }
    }

    /// Initialize the flash controller.  The device command interface needs
    /// no setup in this model; the contents do not change.
    pub fn init(&mut self)
        ensures
            *final(self) == *old(self),
    {
    }

    /// The address where the application image begins.
    pub fn get_app_address(&self) -> (r: u32)
        ensures
            r == APP_START,
    {
        APP_START
    }

    /// Whether `(address, length)` lies inside the application zone.
    pub fn is_valid_address_range(&self, address: u32, length: u32) -> (r: bool)
        ensures
            r == range_in_app(address, length as int),
    {
        address >= APP_START && (address as u64) + (length as u64) <= (FLASH_END as u64)
    }

    /// Read `length` bytes of device content starting at `address`.
    pub fn read_at(&self, address: u32, length: u32) -> (r: Vec<u8>)
        requires
            self@.len() == FLASH_END,
            address + length <= FLASH_END,
        ensures
            r@ == self@.subrange(address as int, address as int + length as int),
    {
        let mut out: Vec<u8> = Vec::new();
        let mut i: u32 = 0;
        while i < length
            invariant
                self@.len() == FLASH_END,
                address + length <= FLASH_END,
                i <= length,
                out@ == self@.subrange(address as int, address as int + i as int),
            decreases length - i,
        {
            out.push(self.mem[(address + i) as usize]);
            proof {
                assert(out@ =~= self@.subrange(address as int, address as int + (i + 1) as int));
            }
            i = i + 1;
        }
        out
    }

    /// Read the little-endian word at `address`.
    pub fn read_word(&self, address: u32) -> (r: u32)
        requires
            self@.len() == FLASH_END,
            address + 4 <= FLASH_END,
        ensures
            r == word_at(self@, address as int),
    {
        let b0 = self.mem[address as usize] as u32;
        let b1 = self.mem[(address + 1) as usize] as u32;
        let b2 = self.mem[(address + 2) as usize] as u32;
        let b3 = self.mem[(address + 3) as usize] as u32;
        b0 + b1 * 0x100 + b2 * 0x1_0000 + b3 * 0x100_0000
    }

    /// Write `data` at `address`.  The range must lie inside the application
    /// zone, else nothing changes and `InvalidAddress` is returned; on
    /// success exactly the addressed bytes change, through the block-buffered
    /// read-modify-write path.
    pub fn write(&mut self, address: u32, data: &[u8]) -> (r: Result<(), FlashError>)
        requires
            old(self)@.len() == FLASH_END,
        ensures
            final(self)@.len() == FLASH_END,
            r is Ok <==> range_in_app(address, data@.len() as int),
            r is Ok ==> final(self)@ == splice(old(self)@, address as int, data@),
            r is Err ==> r == Err::<(), FlashError>(FlashError::InvalidAddress)
                && final(self)@ == old(self)@,
    {
        if data.len() > FLASH_END as usize {
            return Err(FlashError::InvalidAddress);
        }
        if !(address >= APP_START && (address as u64) + (data.len() as u64) <= (FLASH_END as u64)) {
            return Err(FlashError::InvalidAddress);
        }
        self.write_with_block_manager(address, data)
    }

    /// Erase the inclusive sector span covering `(address, length)`.  The
    /// range must lie inside the application zone, else nothing changes and
    /// `InvalidAddress` is returned.
    pub fn erase(&mut self, address: u32, length: u32) -> (r: Result<(), FlashError>)
        requires
            old(self)@.len() == FLASH_END,
        ensures
            final(self)@.len() == FLASH_END,
            r is Ok <==> range_in_app(address, length as int),
            r is Ok ==> final(self)@ == erase_result(old(self)@, address, length),
            r is Err ==> r == Err::<(), FlashError>(FlashError::InvalidAddress)
                && final(self)@ == old(self)@,
    {
        if !self.is_valid_address_range(address, length) {
            return Err(FlashError::InvalidAddress);
        }
        let start_sector: u32 = address / ERASE_BLOCK_SIZE;
        let end_sector: u32 = (address + length - 1) / ERASE_BLOCK_SIZE;
        let ghost orig = self@;
        let mut sector: u32 = start_sector;
        if start_sector <= end_sector {
            while sector <= end_sector
                invariant
                    self@.len() == FLASH_END,
                    orig.len() == FLASH_END,
                    start_sector <= sector <= end_sector + 1,
                    end_sector == (address + length - 1) / (ERASE_BLOCK_SIZE as int),
                    start_sector == address as int / (ERASE_BLOCK_SIZE as int),
                    range_in_app(address, length as int),
                    self@ == Seq::new(
                        orig.len(),
                        |i: int|
                            if erase_span_lo(address) <= i < sector * ERASE_BLOCK_SIZE {
                                ERASED_BYTE
                            } else {
                                orig[i]
                            },
                    ),
                decreases end_sector + 1 - sector,
            {
                proof {
                    assert((sector + 1) * ERASE_BLOCK_SIZE <= FLASH_END) by {
                        assert(sector <= end_sector);
                        assert(address + length - 1 < FLASH_END);
                        assert(end_sector <= (FLASH_END - 1) as int / (ERASE_BLOCK_SIZE as int));
                    };
                }
                let ghost before = self@;
                match self.erase_sector(sector) {
                    Ok(()) => {}
                    Err(e) => {
                        return Err(e);
                    }
                }
                proof {
                    assert(self@ =~= Seq::new(
                        orig.len(),
                        |i: int|
                            if erase_span_lo(address) <= i < (sector + 1) * ERASE_BLOCK_SIZE {
                                ERASED_BYTE
                            } else {
                                orig[i]
                            },
                    ));
                }
                sector = sector + 1;
            }
        }
        proof {
            assert(self@ =~= erase_result(orig, address, length));
        }
        Ok(())
    }

    /// Erase one sector: its bytes take the erased value.
    fn erase_sector(&mut self, sector: u32) -> (r: Result<(), FlashError>)
        requires
            old(self)@.len() == FLASH_END,
            (sector + 1) * ERASE_BLOCK_SIZE <= FLASH_END,
        ensures
            r is Ok,
            final(self)@ == Seq::new(
                old(self)@.len(),
                |i: int|
                    if sector * ERASE_BLOCK_SIZE <= i < (sector + 1) * ERASE_BLOCK_SIZE {
                        ERASED_BYTE
                    } else {
                        old(self)@[i]
                    },
            ),
    {
        let sector_address: u32 = sector * ERASE_BLOCK_SIZE;
        let ghost orig = self@;
        let mut k: u32 = 0;
        while k < ERASE_BLOCK_SIZE
            invariant
                self@.len() == FLASH_END,
                orig.len() == FLASH_END,
                k <= ERASE_BLOCK_SIZE,
                sector_address == sector * ERASE_BLOCK_SIZE,
                sector_address + ERASE_BLOCK_SIZE <= FLASH_END,
                self@ == Seq::new(
                    orig.len(),
                    |i: int|
                        if sector_address <= i < sector_address + k {
                            ERASED_BYTE
                        } else {
                            orig[i]
                        },
                ),
            decreases ERASE_BLOCK_SIZE - k,
        {
            self.mem[(sector_address + k) as usize] = ERASED_BYTE;
            proof {
                assert(self@ =~= Seq::new(
                    orig.len(),
                    |i: int|
                        if sector_address <= i < sector_address + (k + 1) {
                            ERASED_BYTE
                        } else {
                            orig[i]
                        },
                ));
            }
            k = k + 1;
        }
        proof {
            assert(self@ =~= Seq::new(
                orig.len(),
                |i: int|
                    if sector * ERASE_BLOCK_SIZE <= i < (sector + 1) * ERASE_BLOCK_SIZE {
                        ERASED_BYTE
                    } else {
                        orig[i]
                    },
            ));
        }
        Ok(())
    }

    /// Flush any residual buffered block.  Every write flushes its final
    /// window before returning, so nothing is pending; finalize remains the
    /// sealing point of the protocol and is idempotent.
    pub fn finalize(&mut self) -> (r: Result<(), FlashError>)
        ensures
            r is Ok,
            *final(self) == *old(self),
    {
        Ok(())
    }

    /// Compute the checksum of the application vector table and write it to
    /// the reserved slot, sealing the image so that verification succeeds.
    pub fn write_checksum(&mut self) -> (r: Result<(), FlashError>)
        requires
            old(self)@.len() == FLASH_END,
        ensures
            final(self)@.len() == FLASH_END,
            r is Ok,
            final(self)@ == seal_result(old(self)@, APP_START as int),
            app_valid(final(self)@),
    {
        let mut checksum: u32 = 0;
        let mut i: u32 = 0;
        while i < CHECKSUM_WORDS
            invariant
                self@.len() == FLASH_END,
                i <= CHECKSUM_WORDS,
                checksum == sum_words(self@, APP_START as int, i as nat),
            decreases CHECKSUM_WORDS - i,
        {
            let word = self.read_word(APP_START + 4 * i);
            checksum = checksum.wrapping_add(word);
            i = i + 1;
        }
        // Two's complement of the sum.
        let cs: u32 = (!checksum).wrapping_add(1);
        proof {
            assert(!checksum == 0xffff_ffffu32 - checksum) by (bit_vector);
            assert(cs == checksum_for(self@, APP_START as int));
        }
        let mut bytes: Vec<u8> = Vec::new();
        bytes.push((cs % 0x100) as u8);
        bytes.push(((cs / 0x100) % 0x100) as u8);
        bytes.push(((cs / 0x1_0000) % 0x100) as u8);
        bytes.push(((cs / 0x100_0000) % 0x100) as u8);
        proof {
            assert(bytes@ =~= le_bytes(cs));
        }
        let ghost orig = self@;
        let r = self.write(APP_START + CHECKSUM_OFFSET, bytes.as_slice());
        proof {
            lemma_seal_valid(orig, APP_START as int);
        }
        r
    }

    /// Recompute the image sum and report whether the application is valid.
    pub fn verify_checksum(&self) -> (r: bool)
        requires
            self@.len() == FLASH_END,
        ensures
            r == app_valid(self@),
    {
        let mut sum: u32 = 0;
        let mut i: u32 = 0;
        while i < CHECKSUM_WORDS
            invariant
                self@.len() == FLASH_END,
                i <= CHECKSUM_WORDS,
                sum == sum_words(self@, APP_START as int, i as nat),
            decreases CHECKSUM_WORDS - i,
        {
            let word = self.read_word(APP_START + 4 * i);
            sum = sum.wrapping_add(word);
            i = i + 1;
        }
        let stored = self.read_word(APP_START + CHECKSUM_OFFSET);
        sum = sum.wrapping_add(stored);
        sum == 0
    }

    /// Materialize the write buffer for the window at `block_address` by
    /// reading the device bytes there: read-modify-write semantics.
    fn load_block(&self, block_address: u32) -> (r: FlashBlock)
        requires
            self@.len() == FLASH_END,
            block_address + WRITE_BLOCK_SIZE <= FLASH_END,
        ensures
            r.base_address == block_address,
            r.data@ == self@.subrange(block_address as int, block_address as int + WRITE_BLOCK_SIZE),
    {
        let data = self.read_at(block_address, WRITE_BLOCK_SIZE);
        FlashBlock { base_address: block_address, data }
    }

    /// Program one buffered block into the device.  The device command
    /// sequence is platform work; its effect is that the window takes the
    /// buffer's bytes.
    fn flush_block(&mut self, block: &FlashBlock) -> (r: Result<(), FlashError>)
        requires
            old(self)@.len() == FLASH_END,
            block.base_address + WRITE_BLOCK_SIZE <= FLASH_END,
            block.data@.len() == WRITE_BLOCK_SIZE,
        ensures
            r is Ok,
            final(self)@.len() == FLASH_END,
            final(self)@ == splice(old(self)@, block.base_address as int, block.data@),
    {
        let ghost orig = self@;
        let base: u32 = block.base_address;
        let mut k: u32 = 0;
        while k < WRITE_BLOCK_SIZE
            invariant
                self@.len() == FLASH_END,
                orig.len() == FLASH_END,
                k <= WRITE_BLOCK_SIZE,
                base + WRITE_BLOCK_SIZE <= FLASH_END,
                block.data@.len() == WRITE_BLOCK_SIZE,
                self@ == splice(orig, base as int, block.data@.subrange(0, k as int)),
            decreases WRITE_BLOCK_SIZE - k,
        {
            self.mem[(base + k) as usize] = block.data[k as usize];
            proof {
                assert(self@ =~= splice(orig, base as int, block.data@.subrange(0, (k + 1) as int)));
            }
            k = k + 1;
        }
        proof {
            assert(block.data@.subrange(0, WRITE_BLOCK_SIZE as int) =~= block.data@);
        }
        Ok(())
    }

    /// Write `data` at `address` window by window.  Each step materializes
    /// the buffer for the window of the next byte, overwrites the addressed
    /// part, and flushes when the window fills or the input is exhausted.
    fn write_with_block_manager(&mut self, address: u32, data: &[u8]) -> (r: Result<(), FlashError>)
        requires
            old(self)@.len() == FLASH_END,
            range_in_app(address, data@.len() as int),
        ensures
            r is Ok,
            final(self)@.len() == FLASH_END,
            final(self)@ == splice(old(self)@, address as int, data@),
    {
        let ghost orig = self@;
        let mut offset: usize = 0;
        while offset < data.len()
            invariant
                self@.len() == FLASH_END,
                orig.len() == FLASH_END,
                range_in_app(address, data@.len() as int),
                offset <= data@.len(),
                self@ == splice(orig, address as int, data@.subrange(0, offset as int)),
            decreases data@.len() - offset,
        {
            let cur: u32 = address + offset as u32;
            let block_address: u32 = (cur / WRITE_BLOCK_SIZE) * WRITE_BLOCK_SIZE;
            let block_offset: usize = (cur - block_address) as usize;
            proof {
                assert(block_address + WRITE_BLOCK_SIZE <= FLASH_END) by {
                    assert(cur < FLASH_END);
                    assert(cur as int / (WRITE_BLOCK_SIZE as int)
                        <= (FLASH_END - 1) as int / (WRITE_BLOCK_SIZE as int));
                };
            }
            let avail: usize = WRITE_BLOCK_SIZE as usize - block_offset;
            let rem: usize = data.len() - offset;
            let bytes_to_copy: usize = if avail < rem { avail } else { rem };

            let data_len: usize = data.len();
            let mut block = self.load_block(block_address);
            let ghost mem1 = self@;
            let ghost window0 = block.data@;

            let mut j: usize = 0;
            while j < bytes_to_copy
                invariant
                    j <= bytes_to_copy,
                    block.data@.len() == WRITE_BLOCK_SIZE,
                    block.base_address == block_address,
                    block_offset + bytes_to_copy <= WRITE_BLOCK_SIZE,
                    offset + bytes_to_copy <= data_len,
                    data_len == data@.len(),
                    window0.len() == WRITE_BLOCK_SIZE,
                    block.data@ == splice(
                        window0,
                        block_offset as int,
                        data@.subrange(offset as int, offset as int + j as int),
                    ),
                decreases bytes_to_copy - j,
            {
                block.data[block_offset + j] = data[offset + j];
                proof {
                    assert(block.data@ =~= splice(
                        window0,
                        block_offset as int,
                        data@.subrange(offset as int, offset as int + (j + 1) as int),
                    ));
                }
                j = j + 1;
            }

            match self.flush_block(&block) {
                Ok(()) => {}
                Err(e) => {
                    return Err(e);
                }
            }
            proof {
                let n = bytes_to_copy as int;
                let off = offset as int;
                let a = address as int;
                let base = block_address as int;
                let bo = block_offset as int;
                assert forall|i: int| 0 <= i < FLASH_END implies self@[i] == splice(
                    orig,
                    a,
                    data@.subrange(0, off + n),
                )[i] by {
                    if base <= i < base + WRITE_BLOCK_SIZE {
                        if a + off <= i < a + off + n {
                            assert(self@[i] == data@[i - a]);
                        } else {
                            assert(self@[i] == window0[i - base]);
                            assert(window0[i - base] == mem1[i]);
                        }
                    } else {
                        assert(self@[i] == mem1[i]);
                    }
                }
                assert(self@ =~= splice(orig, a, data@.subrange(0, off + n)));
            }
            offset = offset + bytes_to_copy;
        }
        proof {
            assert(data@.subrange(0, data@.len() as int) =~= data@);
        }
        Ok(())
    }
}

/// Flash operation error kinds.
#[derive(Debug, Clone, Copy, PartialEq, Eq, Structural)]
pub enum FlashError {
    InvalidAddress,
    WriteError,
    EraseError,
    VerificationError,
}

} // verus!
