//! Pixel channels, sRGB gamma conversion and an RGB pixel type.
//!
//! - [`channel`]: channel values at 8 and 16 bits, and depth conversion.
//! - [`alpha`]: opaque and translucent alpha.
//! - [`srgb`]: the sRGB curve at 8-bit precision and its look-up tables.
//! - [`gamma`]: gamma encoding and decoding, and the gamma modes.
//! - [`rgb`]: the RGB pixel and its conversions.
pub mod alpha;
pub mod channel;
pub mod gamma;
pub mod rgb;
pub mod srgb;

pub use alpha::{Alpha, Opaque, Translucent};
pub use channel::{Ch16, Ch8, Channel};
pub use gamma::{Gamma, GammaMode, GammaModeID, GammaTag, Linear, Srgb};
pub use rgb::{Rgb, Rgb16, Rgb8, Rgba16, Rgba8};
