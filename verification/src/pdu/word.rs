//! Word-packed register data: a borrowed byte slice seen as a sequence of
//! big-endian 16-bit words.

use crate::wire::{spec_u16_be, spec_u16_from_be, u16_from_be, write_u16_be};
use vstd::prelude::*;

verus! {

/// Ghost image of a [`DataWords`] view: the packed bytes and the word count.
pub struct SpecDataWords {
    pub data: Seq<u8>,
    pub quantity: int,
}

/// The word sequence that packed bytes spell: word `i` is the big-endian pair
/// at bytes `2 * i` and `2 * i + 1`.
pub open spec fn spec_unpacked_words(data: Seq<u8>, quantity: int) -> Seq<u16> {
    Seq::new(quantity as nat, |i: int| spec_u16_from_be(data[2 * i], data[2 * i + 1]))
}

/// The packed bytes of a word sequence: each word as its big-endian pair.
pub open spec fn spec_packed_words(words: Seq<u16>) -> Seq<u8> {
    Seq::new((2 * words.len()) as nat, |i: int| spec_u16_be(words[i / 2])[i % 2])
}

/// Unpacking packed words gives the word sequence back.
pub proof fn lemma_words_pack_round_trip(words: Seq<u16>)
    ensures
        spec_unpacked_words(spec_packed_words(words), words.len() as int) == words,
{
    let unpacked = spec_unpacked_words(spec_packed_words(words), words.len() as int);
    assert forall|i: int| 0 <= i < words.len() implies unpacked[i] == words[i] by {
        assert((2 * i) / 2 == i && (2 * i) % 2 == 0);
        assert((2 * i + 1) / 2 == i && (2 * i + 1) % 2 == 1);
    }
    assert(unpacked =~= words);
}

/// A borrowed byte slice holding `quantity` big-endian 16-bit words.
#[derive(Debug, PartialEq, Eq, Clone, Copy)]
pub struct DataWords<'a> {
    data: &'a [u8],
    quantity: usize,
}

impl View for DataWords<'_> {
    type V = SpecDataWords;

    closed spec fn view(&self) -> SpecDataWords {
        SpecDataWords { data: self.data@, quantity: self.quantity as int }
    }
}

impl SpecDataWords {
    /// The word sequence this view spells.
    pub open spec fn words(self) -> Seq<u16> {
        spec_unpacked_words(self.data, self.quantity)
    }
}

impl<'a> DataWords<'a> {
    /// Binds a byte slice to a word count without further checks.
    pub fn new(data: &'a [u8], quantity: usize) -> (r: Self)
        ensures
            r@ == (SpecDataWords { data: data@, quantity: quantity as int }),
    {
        Self { data, quantity }
    }

    /// The packed bytes.
    pub fn data(&self) -> (d: &'a [u8])
        ensures
            d@ == self@.data,
    {
        self.data
    }

    /// The word count.
    pub fn quantity(&self) -> (q: usize)
        ensures
            q == self@.quantity,
    {
        self.quantity
    }

    /// Packs a word array into the front of `buf` and returns a view over the
    /// written prefix.  Needs a buffer of at least two bytes per word.
    pub fn from_words(words: &[u16], buf: &'a mut [u8]) -> (r: Self)
        requires
            2 * words.len() <= old(buf).len(),
        ensures
            r@.quantity == words.len(),
            r@.data == spec_packed_words(words@),
            final(buf)@ == spec_packed_words(words@) + old(buf)@.skip(2 * words.len()),
            r@.words() == words@,
    {
        let data_len = words.len() * 2;
        let mut i: usize = 0;
        while i < words.len()
            invariant
                data_len == 2 * words.len(),
                data_len <= buf.len(),
                i <= words.len(),
                buf@.len() == old(buf)@.len(),
                forall|k: int| 0 <= k < 2 * i ==> buf@[k] == spec_packed_words(words@)[k],
                forall|k: int| 2 * i <= k < buf@.len() ==> buf@[k] == old(buf)@[k],
            decreases words.len() - i,
        {
            write_u16_be(buf, i * 2, words[i]);
            assert forall|k: int| 0 <= k < 2 * (i + 1) implies buf@[k] == spec_packed_words(
                words@,
            )[k] by {
                assert((2 * i as int) / 2 == i as int && (2 * i as int) % 2 == 0);
                assert((2 * i as int + 1) / 2 == i as int && (2 * i as int + 1) % 2 == 1);
            }
            i = i + 1;
        }
        assert(buf@.take(data_len as int) =~= spec_packed_words(words@));
        assert(buf@ =~= spec_packed_words(words@) + old(buf)@.skip(data_len as int));
        proof {
            lemma_words_pack_round_trip(words@);
        }
        Self { data: &buf[0..data_len], quantity: words.len() }
    }

    /// Unpacks the first `quantity` words into `words` and returns the filled
    /// prefix; the rest of `words` keeps its old values.
    pub fn copy_words_to<'b>(&self, words: &'b mut [u16]) -> (r: &'b [u16])
        requires
            self@.quantity <= old(words).len(),
            2 * self@.quantity <= self@.data.len(),
        ensures
            final(words)@ == self@.words() + old(words)@.skip(self@.quantity),
            r@ == self@.words(),
    {
        let data_len = self.data.len();
        let mut i: usize = 0;
        while i < self.quantity
            invariant
                self@.quantity <= words@.len(),
                2 * self@.quantity <= data_len == self@.data.len(),
                i <= self@.quantity,
                words@.len() == old(words)@.len(),
                forall|k: int| 0 <= k < i ==> words@[k] == self@.words()[k],
                forall|k: int| i <= k < words@.len() ==> words@[k] == old(words)@[k],
            decreases self.quantity - i,
        {
            words[i] = u16_from_be(self.data[i * 2], self.data[i * 2 + 1]);
            i = i + 1;
        }
        assert(words@ =~= self@.words() + old(words)@.skip(self@.quantity));
        let r = &words[0..self.quantity];
        assert(r@ =~= self@.words());
        r
    }

    /// The word sequence as a freshly allocated vector.
    pub fn to_vec(&self) -> (r: Vec<u16>)
        requires
            2 * self@.quantity <= self@.data.len(),
        ensures
            r@ == self@.words(),
    {
        let data_len = self.data.len();
        let mut r: Vec<u16> = Vec::new();
        let mut i: usize = 0;
        while i < self.quantity
            invariant
                2 * self@.quantity <= data_len,
                data_len == self@.data.len(),
                i <= self@.quantity,
                r@.len() == i,
                forall|k: int| 0 <= k < i ==> r@[k] == self@.words()[k],
            decreases self.quantity - i,
        {
            r.push(u16_from_be(self.data[i * 2], self.data[i * 2 + 1]));
            i = i + 1;
        }
        assert(r@ =~= self@.words());
        r
    }
}

} // verus!
