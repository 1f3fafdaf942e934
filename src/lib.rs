//! Wi-Fi credentials to QR code images: payload encoding, vector rendering,
//! rasterization, export decisions and a script-facing configuration store.

pub mod config;
pub mod error;
pub mod export;
pub mod kitty;
pub mod matrix;
pub mod payload;
pub mod qr_generator;
pub mod raster;
pub mod text;
pub mod vector;

pub use config::{ConfigValue, ImageConfig, LuaAPI, SaveJob};
pub use error::{ConfigError, Error};
pub use export::{export, plan_export, Artifact, ExportPlan, ImageFormat};
pub use kitty::{kitty_png_sequence, kitty_sequence};
pub use matrix::{encode_level_h, QrMatrix};
pub use payload::{wifi_payload, Encryption};
pub use qr_generator::{encode_wifi, generate_kitty, generate_png, generate_svg, QrCodeOptions, MAX_REQUESTED_SIZE};
pub use raster::{rasterize, RasterImage};
pub use vector::{module_size, render_svg, VectorImage, QUIET_ZONE};
