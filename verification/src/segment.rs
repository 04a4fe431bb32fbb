//! Application image segments and the merge that folds them into one
//! contiguous byte region.

use vstd::prelude::*;

verus! {

/// A contiguous byte region of the application image, tagged with the base
/// address it was linked to load at.
pub struct CodeSegment {
    /// Base address of the region in the image's own address space.
    pub addr: u32,
    /// The bytes of the region.
    pub data: Vec<u8>,
}

/// An addressed byte region destined for flash: `data` is written starting at
/// flash address `addr`.
pub struct RomSegment {
    /// Flash address at which `data` is written.
    pub addr: u32,
    /// The bytes to write.
    pub data: Vec<u8>,
}

/// The loadable segments of a parsed application image, in the order the
/// image yields them. Only segments that carry an explicit load address
/// belong here; producers are expected to yield them in ascending address
/// order.
pub struct FirmwareImage {
    /// The segments that carry a load address, in image order.
    pub segments: Vec<CodeSegment>,
}

/// The payload obtained by folding the given segments left to right into an
/// accumulator that starts empty: the payloads concatenated in sequence
/// order.
pub open spec fn merged_data(segs: Seq<CodeSegment>) -> Seq<u8>
    decreases segs.len(),
{
    if segs.len() == 0 {
        Seq::empty()
    } else {
        merged_data(segs.drop_last()) + segs.last().data@
    }
}

/// The base address obtained by the same fold: an accumulator whose payload
/// is still empty takes the address of the segment merged into it, and keeps
/// its own address afterwards. With segments in ascending address order this
/// is the address of the first segment that contributes any bytes.
pub open spec fn merged_addr(segs: Seq<CodeSegment>) -> u32
    decreases segs.len(),
{
    if segs.len() == 0 {
        0u32
    } else if merged_data(segs.drop_last()).len() == 0 {
        segs.last().addr
    } else {
        merged_addr(segs.drop_last())
    }
}

/// The smallest multiple of `align` that is at least `len`.
pub open spec fn round_up(len: int, align: int) -> int
    recommends
        align > 0,
{
    if len % align == 0 {
        len
    } else {
        len + align - len % align
    }
}

/// `data` extended with zero bytes up to the next multiple of `align`.
pub open spec fn pad_data(data: Seq<u8>, align: int) -> Seq<u8>
    recommends
        align > 0,
{
    data + Seq::new((round_up(data.len() as int, align) - data.len()) as nat, |i: int| 0u8)
}

/// `round_up` names the smallest multiple of `align` at or above `len`.
pub proof fn lemma_round_up(len: int, align: int)
    requires
        len >= 0,
        align > 0,
    ensures
        round_up(len, align) >= len,
        round_up(len, align) < len + align,
        round_up(len, align) % align == 0,
        forall|m: int| #[trigger] (m % align) == 0 && m >= len ==> m >= round_up(len, align),
{
    vstd::arithmetic::div_mod::lemma_fundamental_div_mod(len, align);
    vstd::arithmetic::div_mod::lemma_mod_bound(len, align);
    let q: int = len / align;
    let r: int = len % align;
    if r != 0 {
        assert(len + align - r == align * (q + 1)) by (nonlinear_arith)
            requires
                len == align * q + r,
        ;
        vstd::arithmetic::div_mod::lemma_mod_multiples_basic(q + 1, align);
        assert(align * (q + 1) == (q + 1) * align) by (nonlinear_arith);
        assert(round_up(len, align) % align == 0);
    }
    assert forall|m: int| #[trigger] (m % align) == 0 && m >= len implies m >= round_up(
        len,
        align,
    ) by {
        if r != 0 {
            vstd::arithmetic::div_mod::lemma_fundamental_div_mod(m, align);
            let k: int = m / align;
            assert(m == align * k);
            assert(k >= q + 1) by (nonlinear_arith)
                requires
                    align > 0,
                    align * k >= align * q + r,
                    0 < r < align,
            ;
            assert(align * k >= align * (q + 1)) by (nonlinear_arith)
                requires
                    align > 0,
                    k >= q + 1,
            ;
        }
    }
}

/// Padding law: the padded payload has the smallest length that is a multiple
/// of `align` and at least the original length, and it consists of the
/// original bytes followed by zero filler.
pub proof fn lemma_pad_data(data: Seq<u8>, align: int)
    requires
        align > 0,
    ensures
        pad_data(data, align).len() as int % align == 0,
        pad_data(data, align).len() >= data.len(),
        forall|m: int| #[trigger] (m % align) == 0 && m >= data.len() ==> m >= pad_data(
            data,
            align,
        ).len(),
        pad_data(data, align).subrange(0, data.len() as int) == data,
        forall|i: int|
            data.len() <= i < pad_data(data, align).len() ==> pad_data(data, align)[i] == 0u8,
{
    lemma_round_up(data.len() as int, align);
    assert(pad_data(data, align).subrange(0, data.len() as int) =~= data);
}

/// Extends `dst` with the bytes of `src`, in order.
fn append_bytes(dst: &mut Vec<u8>, src: &Vec<u8>)
    ensures
        final(dst)@ == old(dst)@ + src@,
{
    proof {
        assert(old(dst)@ + src@.subrange(0, 0) =~= old(dst)@);
    }
    let mut i: usize = 0;
    while i < src.len()
        invariant
            i <= src@.len(),
            dst@ == old(dst)@ + src@.subrange(0, i as int),
        decreases src@.len() - i,
    {
        dst.push(src[i]);
        proof {
            assert(src@.subrange(0, i as int + 1)
                =~= src@.subrange(0, i as int).push(src@[i as int]));
            assert(dst@ =~= old(dst)@ + src@.subrange(0, i as int + 1));
        }
        i = i + 1;
    }
    proof {
        assert(src@.subrange(0, src@.len() as int) =~= src@);
    }
}

/// Returns a copy of the given bytes.
pub(crate) fn copy_bytes(src: &Vec<u8>) -> (r: Vec<u8>)
    ensures
        r@ == src@,
{
    let mut r: Vec<u8> = Vec::new();
    append_bytes(&mut r, src);
    proof {
        assert(Seq::<u8>::empty() + src@ =~= src@);
    }
    r
}

impl Default for CodeSegment {
    /// The empty accumulator the merge starts from: address zero, no bytes.
    fn default() -> (r: Self)
        ensures
            r.addr == 0,
            r.data@ == Seq::<u8>::empty(),
    {
        CodeSegment { addr: 0, data: Vec::new() }
    }
}

impl CodeSegment {
    /// Builds a segment from its base address and bytes.
    pub fn new(addr: u32, data: Vec<u8>) -> (r: Self)
        ensures
            r.addr == addr,
            r.data@ == data@,
    {
        CodeSegment { addr, data }
    }

    /// Merges `other` into this accumulator: appends `other`'s bytes to the
    /// payload; while the payload is still empty the accumulator takes
    /// `other`'s address, afterwards the address is kept unchanged.
    pub fn append(&mut self, other: &CodeSegment)
        ensures
            final(self).data@ == old(self).data@ + other.data@,
            final(self).addr == if old(self).data@.len() == 0 {
                other.addr
            } else {
                old(self).addr
            },
    {
        if self.data.len() == 0 {
            self.addr = other.addr;
        }
        append_bytes(&mut self.data, &other.data);
    }

    /// Pads the payload with zero bytes to the next multiple of `align`; the
    /// address and the bytes already present are unchanged.
    pub fn pad_align(&mut self, align: usize)
        requires
            align > 0,
        ensures
            final(self).addr == old(self).addr,
            final(self).data@ == pad_data(old(self).data@, align as int),
    {
        proof {
            lemma_round_up(old(self).data@.len() as int, align as int);
            assert(self.data@.subrange(0, old(self).data@.len() as int) =~= old(self).data@);
        }
        while self.data.len() % align != 0
            invariant
                align > 0,
                self.addr == old(self).addr,
                old(self).data@.len() <= self.data@.len(),
                self.data@.len() <= round_up(old(self).data@.len() as int, align as int),
                self.data@.subrange(0, old(self).data@.len() as int) == old(self).data@,
                forall|i: int|
                    old(self).data@.len() <= i < self.data@.len() ==> self.data@[i] == 0u8,
                round_up(old(self).data@.len() as int, align as int) % (align as int) == 0,
            decreases round_up(old(self).data@.len() as int, align as int) - self.data@.len(),
        {
            proof {
                assert(self.data@.len()
                    < round_up(old(self).data@.len() as int, align as int));
            }
            self.data.push(0);
            proof {
                assert(self.data@.subrange(0, old(self).data@.len() as int)
                    =~= old(self).data@);
            }
        }
        proof {
            lemma_round_up(old(self).data@.len() as int, align as int);
            assert(self.data@.len() == round_up(old(self).data@.len() as int, align as int));
            assert(self.data@ =~= pad_data(old(self).data@, align as int));
        }
    }
}

impl RomSegment {
    /// A copy of this segment, as handed out by the two flash views.
    pub fn borrow(&self) -> (r: RomSegment)
        ensures
            r.addr == self.addr,
            r.data@ == self.data@,
    {
        RomSegment { addr: self.addr, data: copy_bytes(&self.data) }
    }
}

impl FirmwareImage {
    /// Builds an image from its loadable segments, given in image order.
    pub fn new(segments: Vec<CodeSegment>) -> (r: Self)
        ensures
            r.segments@ == segments@,
    {
        FirmwareImage { segments }
    }

    /// The segments that carry a load address, in the order the image yields
    /// them.
    pub fn segments_with_load_addresses(&self) -> (r: &Vec<CodeSegment>)
        ensures
            r@ == self.segments@,
    {
        &self.segments
    }
}

} // verus!
