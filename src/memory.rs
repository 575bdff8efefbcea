//! The 65,536-word memory, its keyboard registers and the image loader.

use vstd::prelude::*;
use crate::error::VmError;

verus! {

/// The keyboard status register: bit 15 is set while a character is ready.
pub const KBSR: u16 = 0xFE00;

/// The keyboard data register: the last character read from the keyboard.
pub const KBDR: u16 = 0xFE02;

/// The number of words in memory.
pub const MEMORY_SIZE: usize = 65536;

/// What a memory holds: its words, and the byte that the keyboard has ready,
/// if any.
pub struct MemState {
    pub data: Seq<u16>,
    pub key: Option<u8>,
}

/// The state after a read of `addr`. A read of KBSR while a key is ready sets
/// KBSR to 0x8000 and puts the key in KBDR, which consumes it; a read of KBSR
/// with no key ready changes nothing. A read of any other address clears KBSR.
pub open spec fn read_effect(m: MemState, addr: u16) -> MemState {
    if addr == KBSR {
        match m.key {
            Some(b) => MemState {
                data: m.data.update(KBSR as int, 0x8000u16).update(KBDR as int, b as u16),
                key: None,
            },
            None => m,
        }
    } else {
        MemState { data: m.data.update(KBSR as int, 0u16), key: m.key }
    }
}

/// The word that a read of `addr` returns: the word at `addr` once the read's
/// effect has taken place.
pub open spec fn read_value(m: MemState, addr: u16) -> u16 {
    read_effect(m, addr).data[addr as int]
}

/// The origin of an image: its first big-endian word.
pub open spec fn image_origin(img: Seq<u8>) -> int {
    img[0] as int * 256 + img[1] as int
}

/// The number of payload words of an image, an odd last byte padded with zero.
pub open spec fn image_word_count(img: Seq<u8>) -> int {
    (img.len() - 1) / 2
}

/// Payload word `i` of an image, big-endian, a missing low byte read as zero.
pub open spec fn image_word(img: Seq<u8>, i: int) -> u16 {
    let lo: int = if 3 + 2 * i < img.len() { img[3 + 2 * i] as int } else { 0 };
    (img[2 + 2 * i] as int * 256 + lo) as u16
}

/// The words of memory after `img` is loaded over `data`: payload word `i` at
/// origin + i, up to the end of memory; every other word as it was.
pub open spec fn loaded(data: Seq<u16>, img: Seq<u8>) -> Seq<u16> {
    Seq::new(
        data.len(),
        |a: int|
            if image_origin(img) <= a < image_origin(img) + image_word_count(img) {
                image_word(img, a - image_origin(img))
            } else {
                data[a]
            },
    )
}

/// The memory: 65,536 words, all zero at first, and the keyboard's ready byte.
pub struct Memory {
    data: Vec<u16>,
    key: Option<u8>,
}

impl View for Memory {
    type V = MemState;

    closed spec fn view(&self) -> MemState {
        MemState { data: self.data@, key: self.key }
    }
}

impl Memory {
    /// The memory holds exactly [`MEMORY_SIZE`] words.
    pub open spec fn wf(&self) -> bool {
        self@.data.len() == MEMORY_SIZE
    }

    /// A memory whose words are all zero, with no key ready.
    pub fn new() -> (r: Memory)
        ensures
            r.wf(),
            r@.data == Seq::new(MEMORY_SIZE as nat, |a: int| 0u16),
            r@.key is None,
    {
        let r = Memory { data: vec![0u16; MEMORY_SIZE], key: None };
        assert(r@.data =~= Seq::new(MEMORY_SIZE as nat, |a: int| 0u16));
        r
    }

    /// Stores `value` at `addr`.
    pub fn write(&mut self, addr: u16, value: u16)
        requires
            old(self).wf(),
        ensures
            final(self).wf(),
            final(self)@.data == old(self)@.data.update(addr as int, value),
            final(self)@.key == old(self)@.key,
    {
        self.data.set(addr as usize, value);
    }

    /// Reads the word at `addr`, servicing the keyboard registers as
    /// [`read_effect`] says.
    pub fn read(&mut self, addr: u16) -> (r: u16)
        requires
            old(self).wf(),
        ensures
            final(self).wf(),
            final(self)@ == read_effect(old(self)@, addr),
            r == read_value(old(self)@, addr),
    {
        if addr == KBSR {
            match self.key {
                Some(b) => {
                    self.write(KBSR, 0x8000u16);
                    self.write(KBDR, b as u16);
                    self.key = None;
                },
                None => {},
            }
        } else {
            self.write(KBSR, 0);
        }
        proof {
            assert(self@.data =~= read_effect(old(self)@, addr).data);
        }
        self.data[addr as usize]
    }

    /// Whether the keyboard has a byte ready that no read has consumed yet.
    pub fn key_ready(&self) -> (r: bool)
        ensures
            r == self@.key is Some,
    {
        self.key.is_some()
    }

    /// Hands the memory a byte that the keyboard has ready.
    pub fn press_key(&mut self, byte: u8)
        requires
            old(self).wf(),
            old(self)@.key is None,
        ensures
            final(self).wf(),
            final(self)@ == (MemState { data: old(self)@.data, key: Some(byte) }),
    {
        self.key = Some(byte);
    }

    /// Takes the byte that the keyboard has ready, if any.
    pub fn take_key(&mut self) -> (r: Option<u8>)
        requires
            old(self).wf(),
        ensures
            final(self).wf(),
            r == old(self)@.key,
            final(self)@ == (MemState { data: old(self)@.data, key: None }),
    {
        let k = self.key;
        self.key = None;
        k
    }

    /// Loads an image: a big-endian origin word, then the payload words, which
    /// go to origin, origin + 1, and so on, stopping at the end of memory.
    /// An odd payload is padded with a zero byte. An image of fewer than two
    /// bytes is refused.
    pub fn load_img(&mut self, image: &[u8]) -> (r: Result<(), VmError>)
        requires
            old(self).wf(),
        ensures
            final(self).wf(),
            final(self)@.key == old(self)@.key,
            r is Err <==> image@.len() < 2,
            r is Err ==> r == Err::<(), VmError>(VmError::InvalidImage) && final(self)@ == old(self)@,
            r is Ok ==> final(self)@.data == loaded(old(self)@.data, image@),
    {
        if image.len() < 2 {
            return Err(VmError::InvalidImage);
        }
        let origin: usize = image[0] as usize * 256 + image[1] as usize;
        if origin >= MEMORY_SIZE {
            return Err(VmError::InvalidImage);
        }
        let count: usize = (image.len() - 1) / 2;
        let ghost d0 = self@.data;
        let ghost img = image@;
        let mut i: usize = 0;
        while i < count && origin + i < MEMORY_SIZE
            invariant
                self.wf(),
                self@.key == old(self)@.key,
                d0 == old(self)@.data,
                img == image@,
                img.len() >= 2,
                origin as int == image_origin(img),
                origin < MEMORY_SIZE,
                count as int == image_word_count(img),
                i <= count,
                origin + i <= MEMORY_SIZE,
                forall|a: int|
                    0 <= a < MEMORY_SIZE ==> #[trigger] self@.data[a] == if origin <= a < origin + i {
                        image_word(img, a - origin)
                    } else {
                        d0[a]
                    },
            decreases count - i,
        {
            let hi: u16 = image[2 + 2 * i] as u16;
            let lo: u16 = if 3 + 2 * i < image.len() {
                image[3 + 2 * i] as u16
            } else {
                0
            };
            let word: u16 = hi * 256 + lo;
            assert(word == image_word(img, i as int));
            self.data.set(origin + i, word);
            i = i + 1;
        }
        assert(self@.data =~= loaded(d0, img));
        Ok(())
    }
}

/// After an image is loaded, a read of any address returns the image's word
/// for it when the address lies in the loaded range, else the word that was
/// there before. KBSR is left out while a key is ready, since that read
/// returns the keyboard's status instead.
pub proof fn lemma_load_then_read(m: MemState, img: Seq<u8>, a: u16)
    requires
        m.data.len() == MEMORY_SIZE,
        img.len() >= 2,
        a != KBSR || m.key is None,
    ensures
        read_value(MemState { data: loaded(m.data, img), key: m.key }, a) == if image_origin(img) <= a
            < image_origin(img) + image_word_count(img) {
            image_word(img, a - image_origin(img))
        } else {
            m.data[a as int]
        },
{
}

/// A read of any address but KBSR leaves KBSR zero.
pub proof fn lemma_read_clears_status(m: MemState, a: u16)
    requires
        m.data.len() == MEMORY_SIZE,
        a != KBSR,
    ensures
        read_effect(m, a).data[KBSR as int] == 0,
{
}

} // verus!
