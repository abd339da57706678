//! Verified core of a safe Rust binding for the [`Ultralight`](https://ultralight.com/)
//! HTML renderer.
//!
//! The crate holds the decisions the binding makes around the renderer's C
//! API: the options that building a configuration applies, the values of the
//! C API's enums and flag masks, the checks on pixel buffers, the conversion
//! of the strings the C API hands out, the bookkeeping of a `glium` GPU
//! driver, and the post-processing of the generated bindings.
pub mod app;
pub mod app_core;
pub mod bitmap;
pub mod config;
pub mod error;
pub mod event;
pub mod generate;
pub mod gpu_driver;
pub mod javascript;
pub mod platform;
pub mod rect;
pub mod sdk;
pub mod string;
pub mod text;
pub mod version;
pub mod view;
pub mod window;

pub use rect::Rect;
pub use version::Version;
