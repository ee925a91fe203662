//! Firmware integrity checks over a memory range: the additive checksum with
//! 32-bit wrap, its verification against the stored word, and the sealing of
//! an image at an arbitrary application base.
//!
//! The same arithmetic drives the flash engine's own seal; this component
//! exposes it for an image whose base address is chosen by the caller.

use vstd::prelude::*;
use crate::flash::{
    app_valid_at, checksum_for, le_bytes, range_in_app, seal_result, sum_words, Flash,
    CHECKSUM_OFFSET, CHECKSUM_WORDS, FLASH_END,
};

verus! {

/// The checksum of a range: the two's complement, with 32-bit wrap, of the
/// sum of its full little-endian words.
pub open spec fn range_checksum(mem: Seq<u8>, start: int, length: u32) -> u32 {
    0u32.wrapping_sub(sum_words(mem, start, (length as int / 4) as nat))
}

/// Firmware verification methods.
pub struct FirmwareVerification {
    /// Offset into the vector table where the checksum word is stored.
    checksum_offset: u32,
}

impl FirmwareVerification {
    /// Create a new firmware verification instance over the reserved
    /// checksum slot.
    pub fn new() -> (r: FirmwareVerification)
        ensures
            r.checksum_offset_spec() == CHECKSUM_OFFSET,
    {
        FirmwareVerification { checksum_offset: CHECKSUM_OFFSET }
    }

    /// The configured checksum slot offset.
    pub closed spec fn checksum_offset_spec(&self) -> u32 {
        self.checksum_offset
    }

    /// Calculate the checksum of `length` bytes of device content at
    /// `start_address`, processing the range in full 4-byte words.
    pub fn calculate_checksum(&self, flash: &Flash, start_address: u32, length: u32) -> (r: u32)
        requires
            flash@.len() == FLASH_END,
            start_address + length <= FLASH_END,
        ensures
            r == range_checksum(flash@, start_address as int, length),
    {
        let words: u32 = length / 4;
        let mut checksum: u32 = 0;
        let mut i: u32 = 0;
        while i < words
            invariant
                flash@.len() == FLASH_END,
                start_address + length <= FLASH_END,
                words == length / 4,
                i <= words,
                checksum == sum_words(flash@, start_address as int, i as nat),
            decreases words - i,
        {
            proof {
                assert(4 * (i + 1) <= length);
            }
            let word = flash.read_word(start_address + 4 * i);
            checksum = checksum.wrapping_add(word);
            i = i + 1;
        }
        // Two's complement.
        checksum = !checksum;
        let r = checksum.wrapping_add(1);
        proof {
            let s = sum_words(flash@, start_address as int, words as nat);
            assert(!s == 0xffff_ffffu32 - s) by (bit_vector);
        }
        r
    }

    /// Verify the image whose vector table starts at `app_address`: the
    /// wrapping sum of its first seven words plus the stored checksum word
    /// must be zero.
    pub fn verify_application_checksum(&self, flash: &Flash, app_address: u32) -> (r: bool)
        requires
            flash@.len() == FLASH_END,
            self.checksum_offset_spec() == CHECKSUM_OFFSET,
            app_address + CHECKSUM_OFFSET + 4 <= FLASH_END,
        ensures
            r == app_valid_at(flash@, app_address as int),
    {
        let mut sum: u32 = 0;
        let mut i: u32 = 0;
        while i < CHECKSUM_WORDS
            invariant
                flash@.len() == FLASH_END,
                app_address + CHECKSUM_OFFSET + 4 <= FLASH_END,
                i <= CHECKSUM_WORDS,
                sum == sum_words(flash@, app_address as int, i as nat),
            decreases CHECKSUM_WORDS - i,
        {
            let word = flash.read_word(app_address + 4 * i);
            sum = sum.wrapping_add(word);
            i = i + 1;
        }
        let stored = flash.read_word(app_address + self.checksum_offset);
        sum = sum.wrapping_add(stored);
        sum == 0
    }

    /// Seal the image whose vector table starts at `app_address`: compute
    /// the checksum of its first seven words and write it to the reserved
    /// slot through the flash engine.  Fails with `WriteError` exactly when
    /// the slot lies outside the application zone.
    pub fn write_application_checksum(&self, flash: &mut Flash, app_address: u32) -> (r: Result<
        (),
        VerificationError,
    >)
        requires
            old(flash)@.len() == FLASH_END,
            self.checksum_offset_spec() == CHECKSUM_OFFSET,
            app_address + CHECKSUM_OFFSET + 4 <= FLASH_END,
        ensures
            final(flash)@.len() == FLASH_END,
            r is Ok <==> range_in_app((app_address + CHECKSUM_OFFSET) as u32, 4),
            r is Ok ==> final(flash)@ == seal_result(old(flash)@, app_address as int)
                && app_valid_at(final(flash)@, app_address as int),
            r is Err ==> r == Err::<(), VerificationError>(VerificationError::WriteError)
                && final(flash)@ == old(flash)@,
    {
        let mut signature_checksum: u32 = 0;
        let mut i: u32 = 0;
        while i < CHECKSUM_WORDS
            invariant
                flash@.len() == FLASH_END,
                app_address + CHECKSUM_OFFSET + 4 <= FLASH_END,
                i <= CHECKSUM_WORDS,
                signature_checksum == sum_words(flash@, app_address as int, i as nat),
            decreases CHECKSUM_WORDS - i,
        {
            let word = flash.read_word(app_address + 4 * i);
            signature_checksum = signature_checksum.wrapping_add(word);
            i = i + 1;
        }
        // Two's complement.
        signature_checksum = !signature_checksum;
        let cs = signature_checksum.wrapping_add(1);
        proof {
            let s = sum_words(flash@, app_address as int, CHECKSUM_WORDS as nat);
            assert(!s == 0xffff_ffffu32 - s) by (bit_vector);
            assert(cs == checksum_for(flash@, app_address as int));
        }
        let mut bytes: Vec<u8> = Vec::new();
        bytes.push((cs % 0x100) as u8);
        bytes.push(((cs / 0x100) % 0x100) as u8);
        bytes.push(((cs / 0x1_0000) % 0x100) as u8);
        bytes.push(((cs / 0x100_0000) % 0x100) as u8);
        proof {
            assert(bytes@ =~= le_bytes(cs));
        }
        let ghost orig = flash@;
        match flash.write(app_address + self.checksum_offset, bytes.as_slice()) {
            Ok(()) => {
                proof {
                    crate::flash::lemma_seal_valid(orig, app_address as int);
                }
                Ok(())
            }
            Err(_) => Err(VerificationError::WriteError),
        }
    }
}

/// Verification error kinds.
#[derive(Debug, Clone, Copy, PartialEq, Eq, Structural)]
pub enum VerificationError {
    ChecksumError,
    WriteError,
}

} // verus!
