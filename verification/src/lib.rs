pub mod embedding;
pub mod frame;
pub mod store;
pub mod preprocess;
pub mod preview;
pub mod scheduler;
pub mod tensor;

use vstd::prelude::*;

verus! {

/// Compiled-in configuration for the capture pipeline (the configuration
/// constants): capture cadence, preview bounds, and the fixed tensor and
/// vector dimensions the embedding model was trained with.
pub struct Config {
    pub capture_interval_secs: u64,
    pub thumbnail_max_width: u32,
    pub thumbnail_max_height: u32,
    pub vector_dim: usize,
    pub tensor_side: usize,
}

impl Config {
    /// The standard configuration: 5 s cadence, 800x600 preview bound,
    /// 512-wide embedding column, 224x224 model input.
    pub fn standard() -> (c: Config)
        ensures
            c.capture_interval_secs == 5,
            c.thumbnail_max_width == 800,
            c.thumbnail_max_height == 600,
            c.vector_dim == 512,
            c.tensor_side == 224,
    {
        Config {
            capture_interval_secs: 5,
            thumbnail_max_width: 800,
            thumbnail_max_height: 600,
            vector_dim: 512,
            tensor_side: 224,
        }
    }
}

} // verus!
