//! Layout of a columnar array in a sample: the buffers of the array and
//! of its children laid end to end, depth first, each found again by its
//! offset and length.

use vstd::prelude::*;

verus! {

/// Where one buffer of an array lies in the sample.
#[derive(Debug, Clone, Copy, PartialEq, Eq, Structural)]
pub struct BufferOffset {
    pub offset: usize,
    pub len: usize,
}

/// A columnar array: the number of its elements, its own buffers and its
/// child arrays.
#[derive(Debug, PartialEq, Eq)]
pub struct ColumnarArray {
    pub len: usize,
    pub buffers: Vec<Vec<u8>>,
    pub children: Vec<ColumnarArray>,
}

/// The layout of an array in its sample: for each buffer its place, and
/// for each child its own layout.
#[derive(Debug, PartialEq, Eq)]
pub struct ArrowTypeInfo {
    pub len: usize,
    pub buffer_offsets: Vec<BufferOffset>,
    pub child_data: Vec<ArrowTypeInfo>,
}

/// The buffers laid end to end.
pub open spec fn flattened(buffers: Seq<Vec<u8>>) -> Seq<u8>
    decreases buffers.len(),
{
    if buffers.len() == 0 {
        Seq::empty()
    } else {
        flattened(buffers.drop_last()) + buffers.last()@
    }
}

/// For each buffer, where it lies when the first of them starts at
/// `base`.
pub open spec fn offsets_from(buffers: Seq<Vec<u8>>, base: int) -> Seq<BufferOffset>
    decreases buffers.len(),
{
    if buffers.len() == 0 {
        Seq::empty()
    } else {
        offsets_from(buffers.drop_last(), base).push(
            BufferOffset {
                offset: (base + flattened(buffers.drop_last()).len()) as usize,
                len: buffers.last().len(),
            },
        )
    }
}

/// The bytes of an array: its own buffers, then the bytes of its
/// children in order.
pub open spec fn array_bytes(array: ColumnarArray) -> Seq<u8>
    decreases array,
{
    flattened(array.buffers@) + children_bytes(array.children@)
}

/// The bytes of some arrays, one after the other.
pub open spec fn children_bytes(children: Seq<ColumnarArray>) -> Seq<u8>
    decreases children,
{
    if children.len() == 0 {
        Seq::empty()
    } else {
        children_bytes(children.drop_last()) + array_bytes(children.last())
    }
}

/// True if `info` is the layout of `array` where the array's bytes start
/// at `base`: the same number of elements, every buffer at its place,
/// and every child laid out behind the buffers and the children before
/// it.
pub open spec fn lays_out(info: ArrowTypeInfo, array: ColumnarArray, base: int) -> bool
    decreases array,
{
    &&& info.len == array.len
    &&& info.buffer_offsets@ == offsets_from(array.buffers@, base)
    &&& lay_out_all(info.child_data@, array.children@, base + flattened(array.buffers@).len())
}

/// True if `infos` are the layouts of `children`, the first of which
/// starts at `base`.
pub open spec fn lay_out_all(
    infos: Seq<ArrowTypeInfo>,
    children: Seq<ColumnarArray>,
    base: int,
) -> bool
    decreases children,
{
    &&& infos.len() == children.len()
    &&& children.len() > 0 ==> {
        &&& lay_out_all(infos.drop_last(), children.drop_last(), base)
        &&& lays_out(
            infos.last(),
            children.last(),
            base + children_bytes(children.drop_last()).len(),
        )
    }
}

/// The flattened bytes only grow as buffers are added.
pub proof fn lemma_flattened_grows(buffers: Seq<Vec<u8>>, n: int)
    requires
        0 <= n <= buffers.len(),
    ensures
        flattened(buffers.take(n)).len() <= flattened(buffers).len(),
    decreases buffers.len(),
{
    if n == buffers.len() {
        assert(buffers.take(n) == buffers);
    } else {
        assert(buffers.drop_last().take(n) == buffers.take(n));
        lemma_flattened_grows(buffers.drop_last(), n);
    }
}

/// The bytes of children only grow as children are added.
pub proof fn lemma_children_grow(children: Seq<ColumnarArray>, n: int)
    requires
        0 <= n <= children.len(),
    ensures
        children_bytes(children.take(n)).len() <= children_bytes(children).len(),
    decreases children.len(),
{
    if n == children.len() {
        assert(children.take(n) == children);
    } else {
        assert(children.drop_last().take(n) == children.take(n));
        lemma_children_grow(children.drop_last(), n);
    }
}

/// Every offset points at its buffer: the bytes of the array from
/// `offset` on, `len` of them, are the bytes of the buffer.
pub proof fn law_offsets_find_buffers(buffers: Seq<Vec<u8>>, i: int)
    requires
        0 <= i < buffers.len(),
        flattened(buffers).len() <= usize::MAX,
    ensures
        offsets_from(buffers, 0).len() == buffers.len(),
        offsets_from(buffers, 0)[i].len == buffers[i]@.len(),
        offsets_from(buffers, 0)[i].offset + offsets_from(buffers, 0)[i].len <= flattened(
            buffers,
        ).len(),
        flattened(buffers).subrange(
            offsets_from(buffers, 0)[i].offset as int,
            offsets_from(buffers, 0)[i].offset + offsets_from(buffers, 0)[i].len,
        ) == buffers[i]@,
    decreases buffers.len(),
{
    let front = buffers.drop_last();
    lemma_offsets_len(buffers, 0);
    lemma_offsets_len(front, 0);
    if i == buffers.len() - 1 {
        assert(flattened(buffers).subrange(
            flattened(front).len() as int,
            (flattened(front).len() + buffers.last()@.len()) as int,
        ) =~= buffers.last()@);
    } else {
        law_offsets_find_buffers(front, i);
        let o = offsets_from(front, 0)[i];
        assert(offsets_from(buffers, 0)[i] == o);
        assert(front[i] == buffers[i]);
        assert(flattened(buffers).subrange(o.offset as int, o.offset + o.len) =~= flattened(
            front,
        ).subrange(o.offset as int, o.offset + o.len));
    }
}

/// One offset is recorded for each buffer.
pub proof fn lemma_offsets_len(buffers: Seq<Vec<u8>>, base: int)
    ensures
        offsets_from(buffers, base).len() == buffers.len(),
    decreases buffers.len(),
{
    if buffers.len() > 0 {
        lemma_offsets_len(buffers.drop_last(), base);
    }
}

/// The number of bytes that the array needs in a sample: the sum of the
/// lengths of its buffers and of those of its children. `None` if that
/// sum does not fit the machine.
pub fn required_data_size(array: &ColumnarArray) -> (size: Option<usize>)
    ensures
        match size {
            Some(n) => n == array_bytes(*array).len(),
            None => array_bytes(*array).len() > usize::MAX,
        },
    decreases array,
{
    let mut size: usize = 0;
    let mut i: usize = 0;
    while i < array.buffers.len()
        invariant
            i <= array.buffers@.len(),
            size == flattened(array.buffers@.take(i as int)).len(),
        decreases array.buffers@.len() - i,
    {
        proof {
            assert(array.buffers@.take(i + 1).drop_last() == array.buffers@.take(i as int));
            assert(array.buffers@.take(i + 1).last() == array.buffers@[i as int]);
            lemma_flattened_grows(array.buffers@, i + 1);
        }
        match size.checked_add(array.buffers[i].len()) {
            Some(next) => {
                size = next;
            },
            None => {
                return None;
            },
        }
        i += 1;
    }
    proof {
        assert(array.buffers@.take(i as int) == array.buffers@);
    }
    let mut k: usize = 0;
    while k < array.children.len()
        invariant
            k <= array.children@.len(),
            size == flattened(array.buffers@).len() + children_bytes(
                array.children@.take(k as int),
            ).len(),
        decreases array.children@.len() - k,
    {
        proof {
            assert(array.children@.take(k + 1).drop_last() == array.children@.take(k as int));
            assert(array.children@.take(k + 1).last() == array.children@[k as int]);
            lemma_children_grow(array.children@, k + 1);
        }
        let child = match required_data_size(&array.children[k]) {
            Some(child) => child,
            None => {
                return None;
            },
        };
        match size.checked_add(child) {
            Some(next) => {
                size = next;
            },
            None => {
                return None;
            },
        }
        k += 1;
    }
    proof {
        assert(array.children@.take(k as int) == array.children@);
    }
    Some(size)
}

/// Serializes the array behind the bytes already in `bytes`: appends the
/// bytes of its buffers and of its children, depth first, and returns
/// the layout that finds each of them again.
pub fn copy_array_into(array: &ColumnarArray, bytes: &mut Vec<u8>) -> (info: ArrowTypeInfo)
    requires
        old(bytes)@.len() + array_bytes(*array).len() <= usize::MAX,
    ensures
        final(bytes)@ == old(bytes)@ + array_bytes(*array),
        lays_out(info, *array, old(bytes)@.len() as int),
    decreases array,
{
    let ghost start = bytes@;
    let ghost base = bytes@.len() as int;
    let mut buffer_offsets: Vec<BufferOffset> = Vec::new();
    let mut i: usize = 0;
    while i < array.buffers.len()
        invariant
            i <= array.buffers@.len(),
            base == start.len(),
            base + array_bytes(*array).len() <= usize::MAX,
            bytes@ == start + flattened(array.buffers@.take(i as int)),
            buffer_offsets@ == offsets_from(array.buffers@.take(i as int), base),
        decreases array.buffers@.len() - i,
    {
        proof {
            assert(array.buffers@.take(i + 1).drop_last() == array.buffers@.take(i as int));
            assert(array.buffers@.take(i + 1).last() == array.buffers@[i as int]);
            lemma_flattened_grows(array.buffers@, i + 1);
        }
        let buffer = &array.buffers[i];
        buffer_offsets.push(BufferOffset { offset: bytes.len(), len: buffer.len() });
        let ghost before = bytes@;
        let mut j: usize = 0;
        while j < buffer.len()
            invariant
                j <= buffer@.len(),
                bytes@ == before + buffer@.take(j as int),
            decreases buffer@.len() - j,
        {
            bytes.push(buffer[j]);
            assert(buffer@.take(j + 1) == buffer@.take(j as int).push(buffer@[j as int]));
            assert(bytes@ == before + buffer@.take(j + 1));
            j += 1;
        }
        assert(buffer@.take(j as int) == buffer@);
        assert(bytes@ == start + flattened(array.buffers@.take(i + 1)));
        i += 1;
    }
    proof {
        assert(array.buffers@.take(i as int) == array.buffers@);
    }
    let ghost inner = base + flattened(array.buffers@).len();
    let mut child_data: Vec<ArrowTypeInfo> = Vec::new();
    let mut k: usize = 0;
    while k < array.children.len()
        invariant
            k <= array.children@.len(),
            base == start.len(),
            inner == base + flattened(array.buffers@).len(),
            base + array_bytes(*array).len() <= usize::MAX,
            bytes@ == start + flattened(array.buffers@) + children_bytes(
                array.children@.take(k as int),
            ),
            lay_out_all(child_data@, array.children@.take(k as int), inner),
        decreases array.children@.len() - k,
    {
        proof {
            assert(array.children@.take(k + 1).drop_last() == array.children@.take(k as int));
            assert(array.children@.take(k + 1).last() == array.children@[k as int]);
            lemma_children_grow(array.children@, k + 1);
        }
        let ghost before = bytes@;
        let ghost infos = child_data@;
        let info = copy_array_into(&array.children[k], bytes);
        child_data.push(info);
        proof {
            assert(child_data@.drop_last() == infos);
            assert(child_data@.last() == info);
            assert(bytes@ == start + flattened(array.buffers@) + children_bytes(
                array.children@.take(k + 1),
            ));
        }
        k += 1;
    }
    proof {
        assert(array.children@.take(k as int) == array.children@);
        assert(bytes@ == start + array_bytes(*array));
    }
    ArrowTypeInfo { len: array.len, buffer_offsets, child_data }
}

} // verus!
