//! Selection of a model loader from a command-line model choice.
//!
//! A [`ModelSelected`] value names one of the supported model variants together
//! with that variant's tunable parameters. [`get_model_loader`] resolves it into
//! the loader configured for that variant and the identifier of the upstream
//! repository that holds the variant's weights.
//!
//! The resolution is total and has no state: every choice resolves, and what it
//! resolves to is fixed by the choice alone. The contracts state the result for
//! every choice, and the lemmas beside [`get_model_loader`] state what holds of
//! the resolution as a whole.

pub mod config;
pub mod loader;
pub mod selection;

pub use config::{LlamaSpecificConfig, Mistral7BSpecificConfig};
pub use loader::{LlamaLoader, LlamaLoaderView, Mistral7BLoader, ModelLoader, ModelLoaderView};
pub use selection::{get_model_loader, ModelSelected};
