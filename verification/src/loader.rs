//! Loaders: what is handed to the pipeline to bring a model up.
//!
//! A loader is an immutable record of the model family and of the parameters it
//! was made with. Its fields are private, so a loader keeps what its
//! constructor was given for as long as it lives.

use vstd::prelude::*;
use crate::config::{LlamaSpecificConfig, Mistral7BSpecificConfig};

verus! {

/// Loader of a Llama model of some size.
#[derive(Debug)]
pub struct LlamaLoader {
    config: LlamaSpecificConfig,
    name: String,
}

/// What a [`LlamaLoader`] holds, as a mathematical value.
pub struct LlamaLoaderView {
    pub config: LlamaSpecificConfig,
    pub name: Seq<char>,
}

impl View for LlamaLoader {
    type V = LlamaLoaderView;

    closed spec fn view(&self) -> LlamaLoaderView {
        LlamaLoaderView { config: self.config, name: self.name@ }
    }
}

impl LlamaLoader {
    /// A loader for the Llama model called `name`, with the parameters `config`.
    pub fn new(config: LlamaSpecificConfig, name: String) -> (loader: Self)
        ensures
            loader@ == (LlamaLoaderView { config, name: name@ }),
    {
        LlamaLoader { config, name }
    }

    /// The parameters that the loader was made with.
    pub fn config(&self) -> (config: &LlamaSpecificConfig)
        ensures
            *config == self@.config,
    {
        &self.config
    }

    /// The name that the loader was made with.
    pub fn name(&self) -> (name: &str)
        ensures
            name@ == self@.name,
    {
        self.name.as_str()
    }
}

/// Loader of the Mistral 7B model.
#[derive(Debug)]
pub struct Mistral7BLoader {
    config: Mistral7BSpecificConfig,
}

impl View for Mistral7BLoader {
    type V = Mistral7BSpecificConfig;

    closed spec fn view(&self) -> Mistral7BSpecificConfig {
        self.config
    }
}

impl Mistral7BLoader {
    /// A loader for Mistral 7B with the parameters `config`.
    pub fn new(config: Mistral7BSpecificConfig) -> (loader: Self)
        ensures
            loader@ == config,
    {
        Mistral7BLoader { config }
    }

    /// The parameters that the loader was made with.
    pub fn config(&self) -> (config: &Mistral7BSpecificConfig)
        ensures
            *config == self@,
    {
        &self.config
    }
}

/// A loader of any supported model family.
#[derive(Debug)]
pub enum ModelLoader {
    Llama(LlamaLoader),
    Mistral7B(Mistral7BLoader),
}

/// What a [`ModelLoader`] holds, as a mathematical value.
pub enum ModelLoaderView {
    Llama(LlamaLoaderView),
    Mistral7B(Mistral7BSpecificConfig),
}

impl View for ModelLoader {
    type V = ModelLoaderView;

    open spec fn view(&self) -> ModelLoaderView {
        match self {
            ModelLoader::Llama(loader) => ModelLoaderView::Llama(loader@),
            ModelLoader::Mistral7B(loader) => ModelLoaderView::Mistral7B(loader@),
        }
    }
}

} // verus!
