//! The model choice and its resolution into a loader.

use vstd::prelude::*;
use crate::config::{LlamaSpecificConfig, Mistral7BSpecificConfig};
use crate::loader::{LlamaLoader, LlamaLoaderView, Mistral7BLoader, ModelLoader, ModelLoaderView};

verus! {

/// The model that was chosen, with the parameters of that choice.
#[derive(Debug)]
pub enum ModelSelected {
    /// Select the llama7b model.
    Llama7b {
        /// Number of trailing tokens that the repetition penalty looks at.
        repeat_last_n: usize,
    },
    /// Select the llama13b model.
    Llama13b {
        /// Number of trailing tokens that the repetition penalty looks at.
        repeat_last_n: usize,
    },
    /// Select the llama70b model.
    Llama70b {
        /// Number of trailing tokens that the repetition penalty looks at.
        repeat_last_n: usize,
    },
    /// Select the mistral7b model.
    Mistral7b {
        /// Repetition penalty multiplier, held as the bit pattern of its
        /// IEEE 754 single-precision value.
        repeat_penalty: u32,
        /// Number of trailing tokens that the repetition penalty looks at.
        repeat_last_n: usize,
        /// Whether the flash-attention kernel path is used.
        use_flash_attn: bool,
    },
}

impl ModelSelected {
    /// The tag of the choice: the name under which the variant is selected and
    /// shown. It depends on the variant alone.
    pub open spec fn tag(&self) -> Seq<char> {
        match self {
            ModelSelected::Llama7b { .. } => "llama7b"@,
            ModelSelected::Llama13b { .. } => "llama13b"@,
            ModelSelected::Llama70b { .. } => "llama70b"@,
            ModelSelected::Mistral7b { .. } => "mistral7b"@,
        }
    }

    /// The identifier of the upstream repository that holds the weights of the
    /// chosen variant.
    ///
    /// The Llama identifiers have no hyphen between `Llama-2` and the size.
    /// That is how consumers of the identifier know them, so they stay as they
    /// are, though the repositories themselves are likely named with one.
    pub open spec fn model_id(&self) -> Seq<char> {
        match self {
            ModelSelected::Llama7b { .. } => "meta-llama/Llama-27b-chat-hf"@,
            ModelSelected::Llama13b { .. } => "meta-llama/Llama-213b-chat-hf"@,
            ModelSelected::Llama70b { .. } => "meta-llama/Llama-270b-chat-hf"@,
            ModelSelected::Mistral7b { .. } => "alpindale/mistral-7b-safetensors"@,
        }
    }

    /// Whether the choice is one of the Llama sizes.
    pub open spec fn is_llama(&self) -> bool {
        self is Llama7b || self is Llama13b || self is Llama70b
    }

    /// Whether two choices are of the same variant, whatever their parameters.
    pub open spec fn same_variant(&self, other: &ModelSelected) -> bool {
        match self {
            ModelSelected::Llama7b { .. } => other is Llama7b,
            ModelSelected::Llama13b { .. } => other is Llama13b,
            ModelSelected::Llama70b { .. } => other is Llama70b,
            ModelSelected::Mistral7b { .. } => other is Mistral7b,
        }
    }

    /// The loader that the choice resolves to: a Llama loader named by the
    /// choice's tag, or the Mistral loader, holding the choice's parameters.
    pub open spec fn loader(&self) -> ModelLoaderView {
        match self {
            ModelSelected::Llama7b { repeat_last_n }
            | ModelSelected::Llama13b { repeat_last_n }
            | ModelSelected::Llama70b { repeat_last_n } => ModelLoaderView::Llama(
                LlamaLoaderView {
                    config: LlamaSpecificConfig { repeat_last_n: *repeat_last_n },
                    name: self.tag(),
                },
            ),
            ModelSelected::Mistral7b { repeat_penalty, repeat_last_n, use_flash_attn } => {
                ModelLoaderView::Mistral7B(
                    Mistral7BSpecificConfig {
                        repeat_penalty: *repeat_penalty,
                        repeat_last_n: *repeat_last_n,
                        use_flash_attn: *use_flash_attn,
                    },
                )
            },
        }
    }
}

impl ToString for ModelSelected {
    /// The tag of the choice as an owned string.
    fn to_string(&self) -> (tag: String)
        ensures
            tag@ == self.tag(),
    {
        match self {
            ModelSelected::Llama7b { repeat_last_n: _ } => "llama7b".to_string(),
            ModelSelected::Llama13b { repeat_last_n: _ } => "llama13b".to_string(),
            ModelSelected::Llama70b { repeat_last_n: _ } => "llama70b".to_string(),
            ModelSelected::Mistral7b { repeat_penalty: _, repeat_last_n: _, use_flash_attn: _ } => {
                "mistral7b".to_string()
            },
        }
    }
}

/// Resolves a model choice into its loader and the identifier of the upstream
/// repository of its weights.
///
/// Every choice resolves. Both results are made anew by each call and owned by
/// the caller.
pub fn get_model_loader(selected_model: ModelSelected) -> (resolved: (Box<ModelLoader>, String))
    ensures
        resolved.0@ == selected_model.loader(),
        resolved.1@ == selected_model.model_id(),
{
    match selected_model {
        ModelSelected::Llama7b { repeat_last_n } => (
            Box::new(
                ModelLoader::Llama(
                    LlamaLoader::new(
                        LlamaSpecificConfig::new(repeat_last_n),
                        "llama7b".to_string(),
                    ),
                ),
            ),
            "meta-llama/Llama-27b-chat-hf".to_string(),
        ),
        ModelSelected::Llama13b { repeat_last_n } => (
            Box::new(
                ModelLoader::Llama(
                    LlamaLoader::new(
                        LlamaSpecificConfig::new(repeat_last_n),
                        "llama13b".to_string(),
                    ),
                ),
            ),
            "meta-llama/Llama-213b-chat-hf".to_string(),
        ),
        ModelSelected::Llama70b { repeat_last_n } => (
            Box::new(
                ModelLoader::Llama(
                    LlamaLoader::new(
                        LlamaSpecificConfig::new(repeat_last_n),
                        "llama70b".to_string(),
                    ),
                ),
            ),
            "meta-llama/Llama-270b-chat-hf".to_string(),
        ),
        ModelSelected::Mistral7b { repeat_penalty, repeat_last_n, use_flash_attn } => (
            Box::new(
                ModelLoader::Mistral7B(
                    Mistral7BLoader::new(
                        Mistral7BSpecificConfig::new(repeat_penalty, repeat_last_n, use_flash_attn),
                    ),
                ),
            ),
            "alpindale/mistral-7b-safetensors".to_string(),
        ),
    }
}

/// Each choice resolves to the loader of its own family: a Llama choice to a
/// Llama loader, the Mistral choice to the Mistral loader.
pub proof fn lemma_loader_family(selected: ModelSelected)
    ensures
        selected.is_llama() <==> selected.loader() is Llama,
        selected is Mistral7b <==> selected.loader() is Mistral7B,
{
}

/// A Llama loader is named by the tag of the choice it is resolved from: the
/// name given to the loader and the string that `to_string` returns for the
/// choice are the same.
pub proof fn lemma_llama_loader_named_by_tag(selected: ModelSelected)
    requires
        selected.is_llama(),
    ensures
        selected.loader() matches ModelLoaderView::Llama(loader) && loader.name == selected.tag(),
{
}

/// The parameters of a choice are the parameters of the configuration in the
/// loader it resolves to, each one unchanged.
pub proof fn lemma_parameters_pass_through(selected: ModelSelected)
    ensures
        match selected {
            ModelSelected::Llama7b { repeat_last_n }
            | ModelSelected::Llama13b { repeat_last_n }
            | ModelSelected::Llama70b { repeat_last_n } => {
                &&& selected.loader() matches ModelLoaderView::Llama(loader)
                &&& loader.config.repeat_last_n == repeat_last_n
            },
            ModelSelected::Mistral7b { repeat_penalty, repeat_last_n, use_flash_attn } => {
                &&& selected.loader() matches ModelLoaderView::Mistral7B(config)
                &&& config.repeat_penalty == repeat_penalty
                &&& config.repeat_last_n == repeat_last_n
                &&& config.use_flash_attn == use_flash_attn
            },
        },
{
}

/// Tag and identifier go by the variant and by nothing else: two choices have
/// the same tag exactly when they are of the same variant, and the same
/// identifier exactly when they are of the same variant. So a tag never comes
/// with the identifier of another variant.
pub proof fn lemma_tag_and_model_id_follow_variant(a: ModelSelected, b: ModelSelected)
    ensures
        a.tag() == b.tag() <==> a.same_variant(&b),
        a.model_id() == b.model_id() <==> a.same_variant(&b),
        a.tag() == b.tag() <==> a.model_id() == b.model_id(),
{
    reveal_strlit("llama7b");
    reveal_strlit("llama13b");
    reveal_strlit("llama70b");
    reveal_strlit("mistral7b");
    reveal_strlit("meta-llama/Llama-27b-chat-hf");
    reveal_strlit("meta-llama/Llama-213b-chat-hf");
    reveal_strlit("meta-llama/Llama-270b-chat-hf");
    reveal_strlit("alpindale/mistral-7b-safetensors");
    // The tags differ in length, but for the two of eight characters, which
    // differ in the first digit of the size.
    assert("llama7b"@.len() == 7);
    assert("llama13b"@.len() == 8 && "llama13b"@[5] == '1');
    assert("llama70b"@.len() == 8 && "llama70b"@[5] == '7');
    assert("mistral7b"@.len() == 9);
    // Likewise the identifiers.
    assert("meta-llama/Llama-27b-chat-hf"@.len() == 28);
    assert("meta-llama/Llama-213b-chat-hf"@.len() == 29 && "meta-llama/Llama-213b-chat-hf"@[18]
        == '1');
    assert("meta-llama/Llama-270b-chat-hf"@.len() == 29 && "meta-llama/Llama-270b-chat-hf"@[18]
        == '7');
    assert("alpindale/mistral-7b-safetensors"@.len() == 32);
}

} // verus!
