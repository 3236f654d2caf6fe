use vstd::prelude::*;

use crate::descriptor_pool::{
    DescriptorPoolSize, DescriptorSetLayoutBinding, DESCRIPTOR_TYPE_STORAGE_BUFFER,
    SHADER_STAGE_COMPUTE,
};

verus! {

/// A compute shader whose entry point is `main`.
pub struct MyComputeShader;

/// The descriptor set of `MyComputeShader`: three storage buffers.
pub struct MyDescriptorSet;

/// A storage buffer seen by compute shaders at `binding`.
pub open spec fn compute_storage_buffer(binding: u32) -> DescriptorSetLayoutBinding {
    DescriptorSetLayoutBinding {
        binding,
        descriptor_type: DESCRIPTOR_TYPE_STORAGE_BUFFER,
        descriptor_count: 1,
        stage_flags: SHADER_STAGE_COMPUTE,
    }
}

impl MyComputeShader {
    /// Name of the entry point, `main` in ASCII, without terminator.
    pub fn entry_point() -> (r: Vec<u8>)
        ensures
            r@ == seq![0x6du8, 0x61u8, 0x69u8, 0x6eu8],
    {
        let mut r: Vec<u8> = Vec::new();
        r.push(0x6d);
        r.push(0x61);
        r.push(0x69);
        r.push(0x6e);
        r
    }

    /// Stage the shader runs in.
    pub fn stage() -> (r: u32)
        ensures
            r == SHADER_STAGE_COMPUTE,
    {
        SHADER_STAGE_COMPUTE
    }
}

impl MyDescriptorSet {
    /// Bindings of the layout: storage buffers at 0, 1 and 2.
    pub fn layout_bindings() -> (r: Vec<DescriptorSetLayoutBinding>)
        ensures
            r@ == seq![
                compute_storage_buffer(0),
                compute_storage_buffer(1),
                compute_storage_buffer(2),
            ],
    {
        let mut r: Vec<DescriptorSetLayoutBinding> = Vec::new();
        let mut b: u32 = 0;
        while b < 3
            invariant
                b <= 3,
                r@.len() == b,
                forall|k: int| 0 <= k < b ==> #[trigger] r@[k] == compute_storage_buffer(k as u32),
            decreases 3 - b,
        {
            r.push(
                DescriptorSetLayoutBinding {
                    binding: b,
                    descriptor_type: DESCRIPTOR_TYPE_STORAGE_BUFFER,
                    descriptor_count: 1,
                    stage_flags: SHADER_STAGE_COMPUTE,
                },
            );
            b = b + 1;
        }
        assert(r@ =~= seq![
            compute_storage_buffer(0),
            compute_storage_buffer(1),
            compute_storage_buffer(2),
        ]);
        r
    }

    /// What a pool needs for one set: three storage buffers.
    pub fn pool_sizes_for_one() -> (r: Vec<DescriptorPoolSize>)
        ensures
            r@ == seq![DescriptorPoolSize { ty: DESCRIPTOR_TYPE_STORAGE_BUFFER, descriptor_count: 3 }],
    {
        let mut r: Vec<DescriptorPoolSize> = Vec::new();
        r.push(DescriptorPoolSize { ty: DESCRIPTOR_TYPE_STORAGE_BUFFER, descriptor_count: 3 });
        assert(r@ =~= seq![DescriptorPoolSize { ty: DESCRIPTOR_TYPE_STORAGE_BUFFER, descriptor_count: 3 }]);
        r
    }
}

} // verus!
