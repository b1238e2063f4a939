//! Verified core of the Riff Spotify client: link parsing, playback-engine
//! control state, settings mappings, and the decision logic behind its pages.

pub mod text;
pub mod spotify_link;
pub mod feature_flags;
pub mod audio_engine;
pub mod actions;
pub mod search;
pub mod clipboard;
pub mod inhibitor;
pub mod credentials;
pub mod token_store;
pub mod api_policy;
pub mod batch_loader;
pub mod settings;
pub mod card_list;
pub mod window;
pub mod system_info;
pub mod pages;
pub mod sidebar;
