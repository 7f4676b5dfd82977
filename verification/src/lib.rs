//! Verified core of a voice-changer server: settings state machines, the
//! cross-fade bookkeeping of the audio path, model slot tables, and the
//! request planning that the HTTP and Socket.IO front ends perform.

pub mod audio_codec;
pub mod crossfade;
pub mod setting_value;
pub mod voice_changer_params;
pub mod voice_changer_params_manager;
pub mod rvc;
pub mod paths;
pub mod constants;
pub mod voice_changer_manager;
pub mod voice_changer;
pub mod model_slot;
pub mod model_sample;
pub mod plugin;
pub mod socketio_stub;
pub mod volume_extractor;
pub mod downloader;
pub mod file_uploader;
pub mod voice_api;
