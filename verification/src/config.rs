//! Variant-specific tunable parameters.

use vstd::prelude::*;

verus! {

/// Parameters of a Llama model.
#[derive(Debug, Clone, Copy)]
pub struct LlamaSpecificConfig {
    /// Number of trailing tokens that the repetition penalty looks at.
    pub repeat_last_n: usize,
}

impl LlamaSpecificConfig {
    /// A configuration that holds `repeat_last_n` as given.
    pub fn new(repeat_last_n: usize) -> (config: Self)
        ensures
            config.repeat_last_n == repeat_last_n,
    {
        LlamaSpecificConfig { repeat_last_n }
    }
}

/// Parameters of the Mistral 7B model.
#[derive(Debug, Clone, Copy)]
pub struct Mistral7BSpecificConfig {
    /// Repetition penalty multiplier, held as the bit pattern of its IEEE 754
    /// single-precision value so that it is carried without any rounding.
    pub repeat_penalty: u32,
    /// Number of trailing tokens that the repetition penalty looks at.
    pub repeat_last_n: usize,
    /// Whether the flash-attention kernel path is used.
    pub use_flash_attn: bool,
}

impl Mistral7BSpecificConfig {
    /// A configuration that holds the three parameters as given.
    pub fn new(repeat_penalty: u32, repeat_last_n: usize, use_flash_attn: bool) -> (config: Self)
        ensures
            config.repeat_penalty == repeat_penalty,
            config.repeat_last_n == repeat_last_n,
            config.use_flash_attn == use_flash_attn,
    {
        Mistral7BSpecificConfig { repeat_penalty, repeat_last_n, use_flash_attn }
    }
}

} // verus!
