pub mod descriptor_pool;
pub mod flags;
pub mod physical_device_criteria;
pub mod queue_family_request;
pub mod shader_set;

pub use descriptor_pool::{
    pool_parameters, pool_sizes_for_n, DescriptorPoolSize, DescriptorSetLayoutBinding,
    DESCRIPTOR_TYPE_STORAGE_BUFFER, SHADER_STAGE_COMPUTE,
};
pub use flags::{
    QUEUE_COMPUTE, QUEUE_FLAGS_ALL, QUEUE_GRAPHICS, QUEUE_OPTICAL_FLOW, QUEUE_PROTECTED,
    QUEUE_SPARSE_BINDING, QUEUE_TRANSFER, QUEUE_VIDEO_DECODE, QUEUE_VIDEO_ENCODE,
};
pub use physical_device_criteria::{
    PhysicalDeviceCriteria, PhysicalDeviceMetadata, PhysicalDeviceType,
};
pub use shader_set::{MyComputeShader, MyDescriptorSet};
pub use queue_family_request::{
    DeviceQueueCreateInfo, QueueFamilyProperties, QueueFamilyRequest, PRIORITY_ONE_BITS,
};
