//! The image loader: a program image is a byte stream whose first two bytes
//! give the origin address (big-endian) and whose remaining byte pairs are
//! big-endian words installed contiguously from that origin. A malformed
//! stream is rejected before anything is written.

use vstd::prelude::*;
use crate::arch::MEM_SIZE;
use crate::memory::Memory;

verus! {

/// Why an image was rejected: too short to hold an origin word, an odd
/// number of program bytes, or a program that would run past the top of
/// memory.
#[derive(Clone, Copy, PartialEq, Eq, Structural, Debug)]
pub enum ImageError {
    Truncated,
    OddLength,
    Overflow,
}

/// The origin address in the first two bytes of an image, big-endian.
pub open spec fn image_origin(file: Seq<u8>) -> u16 {
    (file[0] as int * 256 + file[1] as int) as u16
}

/// How many program words follow the origin word.
pub open spec fn image_word_count(file: Seq<u8>) -> int {
    (file.len() - 2) / 2
}

/// The `i`-th program word of an image, big-endian.
pub open spec fn image_word(file: Seq<u8>, i: int) -> u16 {
    (file[2 + 2 * i] as int * 256 + file[3 + 2 * i] as int) as u16
}

/// A well-formed image: it holds an origin word, its program bytes pair up
/// into words, and the program fits below the top of memory.
pub open spec fn image_wf(file: Seq<u8>) -> bool {
    &&& file.len() >= 2
    &&& (file.len() - 2) % 2 == 0
    &&& image_origin(file) + image_word_count(file) <= MEM_SIZE
}

/// Installs a program image: checks the byte stream, then writes its words
/// into memory from the origin up, one address per word, and returns the
/// origin. A malformed stream is reported without touching memory, each
/// defect by its own error.
pub fn read_image_file(file: Vec<u8>, memory: &mut Memory) -> (r: Result<u16, ImageError>)
    requires
        old(memory).wf(),
    ensures
        final(memory).wf(),
        r == Ok::<u16, ImageError>(image_origin(file@)) <==> image_wf(file@),
        r == Err::<u16, ImageError>(ImageError::Truncated) <==> file@.len() < 2,
        r == Err::<u16, ImageError>(ImageError::OddLength) <==> file@.len() >= 2 && (file@.len()
            - 2) % 2 != 0,
        r == Err::<u16, ImageError>(ImageError::Overflow) <==> file@.len() >= 2 && (file@.len()
            - 2) % 2 == 0 && image_origin(file@) + image_word_count(file@) > MEM_SIZE,
        image_wf(file@) ==> forall|a: int|
            0 <= a < MEM_SIZE ==> final(memory)@[a] == (if image_origin(file@) <= a
                < image_origin(file@) + image_word_count(file@) {
                image_word(file@, a - image_origin(file@))
            } else {
                old(memory)@[a]
            }),
        !image_wf(file@) ==> final(memory)@ == old(memory)@,
{
    let len = file.len();
    if len < 2 {
        return Err(ImageError::Truncated);
    }
    if (len - 2) % 2 != 0 {
        return Err(ImageError::OddLength);
    }
    let hi0 = file[0];
    let lo0 = file[1];
    let origin: u16 = ((hi0 as u16) << 8) | (lo0 as u16);
    proof {
        let h = hi0 as u16;
        let l = lo0 as u16;
        assert(h < 256 && l < 256 ==> ((h << 8) | l) == h * 256 + l) by (bit_vector);
    }
    let n_words = (len - 2) / 2;
    if origin as usize + n_words > MEM_SIZE {
        return Err(ImageError::Overflow);
    }
    let mut i: usize = 0;
    while i < n_words
        invariant
            memory.wf(),
            i <= n_words,
            file@.len() >= 2,
            n_words == image_word_count(file@),
            origin == image_origin(file@),
            origin + n_words <= MEM_SIZE,
            forall|a: int|
                0 <= a < MEM_SIZE ==> memory@[a] == (if origin <= a < origin + i {
                    image_word(file@, a - origin)
                } else {
                    old(memory)@[a]
                }),
        decreases n_words - i,
    {
        let hi = file[2 + 2 * i];
        let lo = file[3 + 2 * i];
        let w: u16 = ((hi as u16) << 8) | (lo as u16);
        proof {
            let h = hi as u16;
            let l = lo as u16;
            assert(h < 256 && l < 256 ==> ((h << 8) | l) == h * 256 + l) by (bit_vector);
        }
        memory.write((origin as usize + i) as u16, w);
        i = i + 1;
    }
    Ok(origin)
}

} // verus!
