use markdown_to_audio::config::{Config, InputConfig, ModelConfig, ModelType, OutputConfig};
use markdown_to_audio::conversation::ConversationPrompt;

#[test]
fn model_name_of_either_provider() {
    let local = ModelType::Ollama("llama3".to_string());
    assert_eq!(local.model_name(), "llama3");
    let remote = ModelType::OpenAI("gpt-4o".to_string());
    assert_eq!(remote.model_name(), "gpt-4o");
}

#[test]
fn config_holds_its_parts() {
    let config = Config {
        input: InputConfig { docs_path: "docs".to_string() },
        model: ModelConfig {
            model_type: ModelType::OpenAI("gpt-4o".to_string()),
            openai_api_key: Some("key".to_string()),
            ollama_base_url: None,
        },
        output: OutputConfig { audio_path: "out".to_string() },
    };
    assert_eq!(config.input.docs_path, "docs");
    assert_eq!(config.output.audio_path, "out");
    assert_eq!(config.model.model_type.model_name(), "gpt-4o");
    assert_eq!(config.model.openai_api_key.as_deref(), Some("key"));
    assert!(config.model.ollama_base_url.is_none());
}

#[test]
fn default_prompt_frames_a_dialogue() {
    let prompt = ConversationPrompt::default();
    assert!(prompt.system.starts_with("You are an expert at converting technical documentation"));
    assert!(prompt.system.contains("at most 4096 characters"));
    assert!(prompt.user.starts_with("Convert the following markdown documentation"));
    assert!(prompt.user.ends_with("make it more engaging:"));
}
