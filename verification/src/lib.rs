//! Verified core of an OpenAI-style inference server: model configuration,
//! sampling choice, the token-generation state machine, weight-map reading,
//! model-load planning and the decisions of the audio endpoints.
pub mod audio;
pub mod config;
pub mod generation;
pub mod loading;
pub mod sampling;
pub mod weights;
