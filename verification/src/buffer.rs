//! Describing the layout of data interleaved in one graphics buffer. The
//! buffer objects themselves belong to the graphics backend; here is only
//! the arithmetic that packs typed elements into a record: each element's
//! byte offset, and the record's total byte size (the stride).

use vstd::prelude::*;

use crate::shader::ShaderDataType;

verus! {

/// One kind of datum interleaved in a buffer, for example a vertex attribute
/// presented to a shader.
#[derive(Debug, Clone, Copy, PartialEq)]
pub struct BufferElement {
    pub name: &'static str,
    pub data_type: ShaderDataType,
    pub count: u32,
    pub offset: u32,
    pub normalised: bool,
}

impl BufferElement {
    pub fn new(data_type: ShaderDataType, name: &'static str) -> (r: Self)
        ensures
            r.name == name,
            r.data_type == data_type,
            r.count == data_type.spec_element_count(),
            r.offset == 0,
            r.normalised == false,
    {
        let count = data_type.element_count();
        Self { name, data_type, count, offset: 0, normalised: false }
    }
}

/// The byte offset of element `i` in a tightly packed record of the first
/// `i` elements: the sum of the byte sizes before it.
pub open spec fn packed_offset(s: Seq<BufferElement>, i: int) -> int
    decreases i,
{
    if i <= 0 {
        0
    } else {
        packed_offset(s, i - 1) + 4 * s[i - 1].data_type.spec_element_count()
    }
}

/// Packs the elements tightly: assigns each element the byte offset of its
/// position in the record and returns the record's total byte size, the
/// stride. Only the offsets change.
pub fn interleave_offsets(elements: &mut Vec<BufferElement>) -> (stride: u32)
    requires
        packed_offset(old(elements)@, old(elements)@.len() as int) <= u32::MAX,
    ensures
        final(elements)@.len() == old(elements)@.len(),
        stride == packed_offset(old(elements)@, old(elements)@.len() as int),
        forall|i: int|
            0 <= i < old(elements)@.len() ==> {
                let e = #[trigger] final(elements)@[i];
                &&& e.offset == packed_offset(old(elements)@, i)
                &&& e.name == old(elements)@[i].name
                &&& e.data_type == old(elements)@[i].data_type
                &&& e.count == old(elements)@[i].count
                &&& e.normalised == old(elements)@[i].normalised
            },
{
    let ghost orig = elements@;
    proof {
        lemma_packed_offset_monotonic(orig, 0, orig.len() as int);
    }
    let mut off: u32 = 0;
    let mut i: usize = 0;
    while i < elements.len()
        invariant
            elements@.len() == orig.len(),
            i <= orig.len(),
            packed_offset(orig, orig.len() as int) <= u32::MAX,
            off == packed_offset(orig, i as int),
            forall|j: int| i <= j < orig.len() ==> #[trigger] elements@[j] == orig[j],
            forall|j: int|
                0 <= j < i ==> {
                    let e = #[trigger] elements@[j];
                    &&& e.offset == packed_offset(orig, j)
                    &&& e.name == orig[j].name
                    &&& e.data_type == orig[j].data_type
                    &&& e.count == orig[j].count
                    &&& e.normalised == orig[j].normalised
                },
        decreases orig.len() - i,
    {
        proof {
            lemma_packed_offset_monotonic(orig, i as int + 1, orig.len() as int);
        }
        let mut e = elements[i];
        e.offset = off;
        off = off + e.data_type.size_bytes();
        elements.set(i, e);
        i = i + 1;
    }
    off
}

/// Packed offsets never decrease as the record grows.
proof fn lemma_packed_offset_monotonic(s: Seq<BufferElement>, j1: int, j2: int)
    requires
        0 <= j1 <= j2,
    ensures
        packed_offset(s, j1) <= packed_offset(s, j2),
    decreases j2 - j1,
{
    if j1 < j2 {
        lemma_packed_offset_monotonic(s, j1, j2 - 1);
    }
}

} // verus!
