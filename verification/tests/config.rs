use model_selector::{LlamaSpecificConfig, Mistral7BSpecificConfig};

#[test]
fn llama_config_holds_the_count_it_was_given() {
    let config = LlamaSpecificConfig::new(64);
    assert_eq!(config.repeat_last_n, 64);
}

#[test]
fn llama_config_holds_the_extreme_counts() {
    assert_eq!(LlamaSpecificConfig::new(0).repeat_last_n, 0);
    assert_eq!(LlamaSpecificConfig::new(usize::MAX).repeat_last_n, usize::MAX);
}

#[test]
fn mistral_config_holds_the_parameters_it_was_given() {
    let config = Mistral7BSpecificConfig::new(1.1f32.to_bits(), 64, true);
    assert_eq!(config.repeat_penalty, 1.1f32.to_bits());
    assert_eq!(f32::from_bits(config.repeat_penalty), 1.1f32);
    assert_eq!(config.repeat_last_n, 64);
    assert!(config.use_flash_attn);
}

#[test]
fn mistral_config_keeps_the_three_parameters_apart() {
    let config = Mistral7BSpecificConfig::new(5, 7, false);
    assert_eq!(config.repeat_penalty, 5);
    assert_eq!(config.repeat_last_n, 7);
    assert!(!config.use_flash_attn);
}

#[test]
fn configs_are_copied_field_by_field() {
    let llama = LlamaSpecificConfig::new(12);
    let llama_copy = llama;
    assert_eq!(llama_copy.repeat_last_n, llama.repeat_last_n);
    let mistral = Mistral7BSpecificConfig::new(9, 12, true);
    let mistral_copy = mistral.clone();
    assert_eq!(mistral_copy.repeat_penalty, mistral.repeat_penalty);
    assert_eq!(mistral_copy.repeat_last_n, mistral.repeat_last_n);
    assert_eq!(mistral_copy.use_flash_attn, mistral.use_flash_attn);
}
