use vstd::prelude::*;

verus! {

/// Raw value of the storage buffer descriptor type.
pub const DESCRIPTOR_TYPE_STORAGE_BUFFER: i32 = 7;

/// Shader stage bit of compute shaders.
pub const SHADER_STAGE_COMPUTE: u32 = 0x20;

/// One binding of a descriptor set layout.
#[derive(Clone, Copy, Debug, PartialEq, Eq, Structural)]
pub struct DescriptorSetLayoutBinding {
    pub binding: u32,
    /// Raw descriptor type.
    pub descriptor_type: i32,
    pub descriptor_count: u32,
    /// Shader stage bits that see the binding.
    pub stage_flags: u32,
}

/// How many descriptors of one type a pool holds.
#[derive(Clone, Copy, Debug, PartialEq, Eq, Structural)]
pub struct DescriptorPoolSize {
    /// Raw descriptor type.
    pub ty: i32,
    pub descriptor_count: u32,
}

/// Every count of `sizes` times `n` fits in a `u32`.
pub open spec fn scalable(sizes: Seq<DescriptorPoolSize>, n: u32) -> bool {
    forall|k: int| 0 <= k < sizes.len() ==> (#[trigger] sizes[k]).descriptor_count * n <= u32::MAX
}

/// `r` is `sizes` with every count multiplied by `n`.
pub open spec fn scaled(sizes: Seq<DescriptorPoolSize>, n: u32, r: Seq<DescriptorPoolSize>) -> bool {
    &&& r.len() == sizes.len()
    &&& forall|k: int|
        0 <= k < sizes.len() ==> #[trigger] r[k] == (DescriptorPoolSize {
            ty: sizes[k].ty,
            descriptor_count: (sizes[k].descriptor_count * n) as u32,
        })
}

/// The sizes a pool needs for `max_sets` sets, given the sizes one set needs.
pub fn pool_sizes_for_n(sizes: &[DescriptorPoolSize], max_sets: u32) -> (r: Vec<DescriptorPoolSize>)
    requires
        scalable(sizes@, max_sets),
    ensures
        scaled(sizes@, max_sets, r@),
{
    let mut r: Vec<DescriptorPoolSize> = Vec::new();
    let mut k: usize = 0;
    while k < sizes.len()
        invariant
            k <= sizes@.len(),
            scalable(sizes@, max_sets),
            r@.len() == k,
            forall|j: int|
                0 <= j < k ==> #[trigger] r@[j] == (DescriptorPoolSize {
                    ty: sizes@[j].ty,
                    descriptor_count: (sizes@[j].descriptor_count * max_sets) as u32,
                }),
        decreases sizes@.len() - k,
    {
        let s = sizes[k];
        assert(s.descriptor_count * max_sets <= u32::MAX);
        r.push(DescriptorPoolSize { ty: s.ty, descriptor_count: s.descriptor_count * max_sets });
        k = k + 1;
    }
    r
}

/// Number of sets a pool is made for: `max_sets`, and at least one.
pub open spec fn pool_set_count(max_sets: u32) -> u32 {
    if max_sets == 0 {
        1
    } else {
        max_sets
    }
}

/// The set count and the sizes of a pool for `max_sets` sets (at least one),
/// given the sizes one set needs.
pub fn pool_parameters(
    sizes: &[DescriptorPoolSize],
    max_sets: u32,
) -> (r: (u32, Vec<DescriptorPoolSize>))
    requires
        scalable(sizes@, pool_set_count(max_sets)),
    ensures
        r.0 == pool_set_count(max_sets),
        scaled(sizes@, r.0, r.1@),
{
    let n = if max_sets < 1 {
        1
    } else {
        max_sets
    };
    (n, pool_sizes_for_n(sizes, n))
}

} // verus!
