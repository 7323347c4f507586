//! gyeol (결): the decision logic of a small native UI toolkit, verified.
//!
//! Every module here is plain data and plain decisions: element identity, input state,
//! hit-testing over the painted element tree, glyph-atlas packing, buffer growth, draw-call
//! batching and list virtualization. Windowing, GPU work, text shaping and float geometry live
//! around this library and hand it plain values.
pub mod atlas;
pub mod element;
pub mod error;
pub mod event;
pub mod gpu;
pub mod layout;
pub mod list;
pub mod renderer;
pub mod scene;
pub mod shaper;
pub mod shell;
pub mod view;
