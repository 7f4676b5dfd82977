//! Directory names, limits and the bundled-asset locations of the server.
use vstd::prelude::*;
use crate::paths::{join_path, path_join};

verus! {

/// Directory used for temporary files.
pub const TMP_DIR: &'static str = "tmp_dir";

/// Directory used for uploaded files.
pub const UPLOAD_DIR: &'static str = "upload_dir";

/// Directory containing static models.
pub const MODEL_DIR_STATIC: &'static str = "model_dir_static";

/// File to persist settings.
pub const STORED_SETTING_FILE: &'static str = "stored_setting.json";

/// Directory containing uploaded model artifacts.
pub const MODEL_DIR: &'static str = "logs";

/// Directory used to store generated SSL certificates.
pub const SSL_KEY_DIR: &'static str = "keys";

/// Directory name reserved for bundled RVC models.
pub const RVC_MODEL_DIRNAME: &'static str = "rvc";

/// Maximum number of dynamic model slots that can be created.
pub const MAX_SLOT_NUM: usize = 500;

/// Sample rates supported by the server audio device code.
pub const SERVER_DEVICE_SAMPLE_RATES: [i32; 6] = [16000, 32000, 44100, 48000, 96000, 192000];

/// Where the frontend assets are: `<bundle>/dist` when the application is
/// packaged (the `MEIPASS` location is given), else the development path
/// `../client/demo/dist`.
pub fn get_frontend_path(meipass: Option<&str>) -> (r: String)
    ensures
        match meipass {
            Some(p) => r@ == path_join(p@, "dist"@),
            None => r@ == "../client/demo/dist"@,
        },
{
    match meipass {
        Some(p) => join_path(p, "dist"),
        None => String::from_str("../client/demo/dist"),
    }
}

/// Executable name for the optional native client on Windows.
pub fn native_client_file_win(meipass: Option<&str>) -> (r: String)
    ensures
        match meipass {
            Some(p) => r@ == path_join(p@, "voice-changer-native-client.exe"@),
            None => r@ == "voice-changer-native-client"@,
        },
{
    match meipass {
        Some(p) => join_path(p, "voice-changer-native-client.exe"),
        None => String::from_str("voice-changer-native-client"),
    }
}

/// Executable path for the optional native client on macOS.
pub fn native_client_file_mac(meipass: Option<&str>) -> (r: String)
    ensures
        match meipass {
            Some(p) => r@ == path_join(
                path_join(
                    path_join(path_join(p@, "voice-changer-native-client.app"@), "Contents"@),
                    "MacOS"@,
                ),
                "voice-changer-native-client"@,
            ),
            None => r@ == "voice-changer-native-client"@,
        },
{
    match meipass {
        Some(p) => {
            let a = join_path(p, "voice-changer-native-client.app");
            let b = join_path(&a, "Contents");
            let c = join_path(&b, "MacOS");
            join_path(&c, "voice-changer-native-client")
        },
        None => String::from_str("voice-changer-native-client"),
    }
}

/// Path to the bundled Hubert ONNX model used by some configurations.
pub fn hubert_onnx_model_path(meipass: Option<&str>) -> (r: String)
    ensures
        match meipass {
            Some(p) => r@ == path_join(path_join(p@, "model_hubert"@), "hubert_simple.onnx"@),
            None => r@ == "model_hubert/hubert_simple.onnx"@,
        },
{
    match meipass {
        Some(p) => {
            let a = join_path(p, "model_hubert");
            join_path(&a, "hubert_simple.onnx")
        },
        None => String::from_str("model_hubert/hubert_simple.onnx"),
    }
}

} // verus!
