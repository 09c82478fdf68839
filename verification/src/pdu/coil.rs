//! Bit-packed coil data: a borrowed byte slice seen as a sequence of
//! single-bit values.  Coil `i` is bit `i % 8` (least significant first) of
//! byte `i / 8`.

use vstd::prelude::*;

verus! {

/// Ghost image of a [`DataCoils`] view: the packed bytes and the coil count.
pub struct SpecDataCoils {
    pub data: Seq<u8>,
    pub quantity: int,
}

/// Whether bit `i` (least significant first) of `byte` is set.
pub open spec fn spec_bit(byte: u8, i: u8) -> bool {
    (byte >> i) & 1 == 1
}

/// The coil sequence that packed bytes spell: coil `i` is bit `i % 8` of
/// byte `i / 8`.
pub open spec fn spec_unpacked_coils(data: Seq<u8>, quantity: int) -> Seq<bool> {
    Seq::new(quantity as nat, |i: int| spec_bit(data[i / 8], (i % 8) as u8))
}

/// The bit of the packed encoding that position `k` of `coils` contributes:
/// one for a set coil, zero for a clear coil or a position past the end.
pub open spec fn spec_coil_bit(coils: Seq<bool>, k: int) -> u8 {
    if 0 <= k < coils.len() && coils[k] {
        1
    } else {
        0
    }
}

/// The packed byte holding coils `base` to `base + 7`; absent trailing coils
/// pack as clear bits.
pub open spec fn spec_pack_byte(coils: Seq<bool>, base: int) -> u8 {
    (spec_coil_bit(coils, base) + 2 * spec_coil_bit(coils, base + 1) + 4 * spec_coil_bit(
        coils,
        base + 2,
    ) + 8 * spec_coil_bit(coils, base + 3) + 16 * spec_coil_bit(coils, base + 4) + 32
        * spec_coil_bit(coils, base + 5) + 64 * spec_coil_bit(coils, base + 6) + 128
        * spec_coil_bit(coils, base + 7)) as u8
}

/// The packed bytes of a coil sequence: one byte per eight coils, the last
/// byte padded with clear bits.
pub open spec fn spec_packed_coils(coils: Seq<bool>) -> Seq<u8> {
    Seq::new(((coils.len() + 7) / 8) as nat, |i: int| spec_pack_byte(coils, 8 * i))
}

/// Bit `j` of a packed byte is exactly the coil at `base + j`.
proof fn lemma_pack_byte_bit(coils: Seq<bool>, base: int, j: u8)
    requires
        j < 8,
    ensures
        spec_bit(spec_pack_byte(coils, base), j) == (spec_coil_bit(coils, base + j) == 1),
{
    let b0 = spec_coil_bit(coils, base);
    let b1 = spec_coil_bit(coils, base + 1);
    let b2 = spec_coil_bit(coils, base + 2);
    let b3 = spec_coil_bit(coils, base + 3);
    let b4 = spec_coil_bit(coils, base + 4);
    let b5 = spec_coil_bit(coils, base + 5);
    let b6 = spec_coil_bit(coils, base + 6);
    let b7 = spec_coil_bit(coils, base + 7);
    let packed = (b0 + 2 * b1 + 4 * b2 + 8 * b3 + 16 * b4 + 32 * b5 + 64 * b6 + 128 * b7) as u8;
    assert(((packed >> j) & 1 == 1) == (if j == 0 {
        b0 == 1
    } else if j == 1 {
        b1 == 1
    } else if j == 2 {
        b2 == 1
    } else if j == 3 {
        b3 == 1
    } else if j == 4 {
        b4 == 1
    } else if j == 5 {
        b5 == 1
    } else if j == 6 {
        b6 == 1
    } else {
        b7 == 1
    })) by (bit_vector)
        requires
            j < 8,
            b0 < 2,
            b1 < 2,
            b2 < 2,
            b3 < 2,
            b4 < 2,
            b5 < 2,
            b6 < 2,
            b7 < 2,
            packed == (b0 + 2 * b1 + 4 * b2 + 8 * b3 + 16 * b4 + 32 * b5 + 64 * b6 + 128 * b7) as u8,
    ;
}

/// Unpacking packed coils gives the coil sequence back.
pub proof fn lemma_coils_pack_round_trip(coils: Seq<bool>)
    ensures
        spec_unpacked_coils(spec_packed_coils(coils), coils.len() as int) == coils,
{
    let unpacked = spec_unpacked_coils(spec_packed_coils(coils), coils.len() as int);
    assert forall|i: int| 0 <= i < coils.len() implies unpacked[i] == coils[i] by {
        lemma_pack_byte_bit(coils, 8 * (i / 8), (i % 8) as u8);
        assert(8 * (i / 8) + (i % 8) == i);
    }
    assert(unpacked =~= coils);
}

/// A borrowed byte slice holding `quantity` bit-packed coils.
#[derive(Debug, PartialEq, Eq, Clone, Copy)]
pub struct DataCoils<'a> {
    data: &'a [u8],
    quantity: usize,
}

impl View for DataCoils<'_> {
    type V = SpecDataCoils;

    closed spec fn view(&self) -> SpecDataCoils {
        SpecDataCoils { data: self.data@, quantity: self.quantity as int }
    }
}

impl SpecDataCoils {
    /// The coil sequence this view spells.
    pub open spec fn coils(self) -> Seq<bool> {
        spec_unpacked_coils(self.data, self.quantity)
    }
}

impl<'a> DataCoils<'a> {
    /// Binds a byte slice to a coil count without further checks.
    pub fn new(data: &'a [u8], quantity: usize) -> (r: Self)
        ensures
            r@ == (SpecDataCoils { data: data@, quantity: quantity as int }),
    {
        Self { data, quantity }
    }

    /// The coil at position `k` of `coils`, a clear coil past the end.
    fn coil_bit(coils: &[bool], k: usize) -> (b: u8)
        ensures
            b == spec_coil_bit(coils@, k as int),
    {
        if k < coils.len() && coils[k] {
            1
        } else {
            0
        }
    }

    /// Packs a coil array into the front of `buf` and returns a view over the
    /// written prefix.  Needs a buffer of at least one byte per eight coils.
    pub fn from_coils(coils: &[bool], buf: &'a mut [u8]) -> (r: Self)
        requires
            coils.len() + 7 <= usize::MAX,
            (coils.len() + 7) / 8 <= old(buf).len(),
        ensures
            r@.quantity == coils.len(),
            r@.data == spec_packed_coils(coils@),
            final(buf)@ == spec_packed_coils(coils@) + old(buf)@.skip((coils.len() + 7) as int / 8),
            r@.coils() == coils@,
    {
        let data_len = (coils.len() + 7) / 8;
        let mut i: usize = 0;
        while i < data_len
            invariant
                data_len == (coils.len() + 7) / 8,
                data_len <= buf.len(),
                i <= data_len,
                buf@.len() == old(buf)@.len(),
                forall|k: int| 0 <= k < i ==> buf@[k] == spec_packed_coils(coils@)[k],
                forall|k: int| i <= k < buf@.len() ==> buf@[k] == old(buf)@[k],
            decreases data_len - i,
        {
            let base = i * 8;
            let byte = Self::coil_bit(coils, base) + 2 * Self::coil_bit(coils, base + 1) + 4
                * Self::coil_bit(coils, base + 2) + 8 * Self::coil_bit(coils, base + 3) + 16
                * Self::coil_bit(coils, base + 4) + 32 * Self::coil_bit(coils, base + 5) + 64
                * Self::coil_bit(coils, base + 6) + 128 * Self::coil_bit(coils, base + 7);
            assert(byte == spec_pack_byte(coils@, 8 * i));
            buf[i] = byte;
            i = i + 1;
        }
        assert(buf@.take(data_len as int) =~= spec_packed_coils(coils@));
        assert(buf@ =~= spec_packed_coils(coils@) + old(buf)@.skip(data_len as int));
        proof {
            lemma_coils_pack_round_trip(coils@);
        }
        Self { data: &buf[0..data_len], quantity: coils.len() }
    }

    /// The packed bytes.
    pub fn data(&self) -> (d: &'a [u8])
        ensures
            d@ == self@.data,
    {
        self.data
    }

    /// The coil count.
    pub fn quantity(&self) -> (q: usize)
        ensures
            q == self@.quantity,
    {
        self.quantity
    }

    /// The coil count, under the name callers of bit data expect.
    pub fn coils_len(&self) -> (q: usize)
        ensures
            q == self@.quantity,
    {
        self.quantity
    }

    /// The packed byte count.
    pub fn data_len(&self) -> (n: usize)
        ensures
            n == self@.data.len(),
    {
        self.data.len()
    }

    /// Unpacks the first `quantity` coils into `coils` and returns the filled
    /// prefix; the rest of `coils` keeps its old values.
    pub fn copy_coils_to<'b>(&self, coils: &'b mut [bool]) -> (r: &'b [bool])
        requires
            self@.quantity <= old(coils).len(),
            self@.quantity <= 8 * self@.data.len(),
        ensures
            final(coils)@ == self@.coils() + old(coils)@.skip(self@.quantity),
            r@ == self@.coils(),
    {
        let mut i: usize = 0;
        while i < self.quantity
            invariant
                self@.quantity <= coils@.len(),
                self@.quantity <= 8 * self@.data.len(),
                i <= self@.quantity,
                coils@.len() == old(coils)@.len(),
                forall|k: int| 0 <= k < i ==> coils@[k] == self@.coils()[k],
                forall|k: int| i <= k < coils@.len() ==> coils@[k] == old(coils)@[k],
            decreases self.quantity - i,
        {
            let byte = self.data[i / 8];
            let bit_pos = (i % 8) as u8;
            coils[i] = (byte >> bit_pos) & 1 == 1;
            i = i + 1;
        }
        assert(coils@ =~= self@.coils() + old(coils)@.skip(self@.quantity));
        let r = &coils[0..self.quantity];
        assert(r@ =~= self@.coils());
        r
    }

    /// The coil sequence as a freshly allocated vector.
    pub fn to_vec(&self) -> (r: Vec<bool>)
        requires
            self@.quantity <= 8 * self@.data.len(),
        ensures
            r@ == self@.coils(),
    {
        let data_len = self.data.len();
        let mut r: Vec<bool> = Vec::new();
        let mut i: usize = 0;
        while i < self.quantity
            invariant
                self@.quantity <= 8 * data_len,
                data_len == self@.data.len(),
                i <= self@.quantity,
                r@.len() == i,
                forall|k: int| 0 <= k < i ==> r@[k] == self@.coils()[k],
            decreases self.quantity - i,
        {
            let byte = self.data[i / 8];
            let bit_pos = (i % 8) as u8;
            r.push((byte >> bit_pos) & 1 == 1);
            i = i + 1;
        }
        assert(r@ =~= self@.coils());
        r
    }
}

} // verus!
