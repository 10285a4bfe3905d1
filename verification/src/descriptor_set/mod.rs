//! Descriptor sets and the pools that hand them out.

pub mod chunk;
pub mod fixed_size_pool;
pub mod growth;
pub mod invariants;
pub mod layout;
pub mod persistent;
pub mod pool;
pub mod reserve;
pub mod state;

pub use self::fixed_size_pool::FixedSizeDescriptorSet;
pub use self::fixed_size_pool::FixedSizeDescriptorSetBuilder;
pub use self::fixed_size_pool::FixedSizeDescriptorSetBuilderArray;
pub use self::fixed_size_pool::FixedSizeDescriptorSetsPool;
