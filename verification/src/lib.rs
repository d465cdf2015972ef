//! The CPU side of a renderer for rounded rectangles ("quads") on graphics
//! devices without instancing.
//!
//! The library decides what is sent to the device and in which order: it
//! packs vertex records, splits a frame's quads into chunks that fit the
//! device buffer, remembers which uniforms the device already holds, and
//! hands out one device command at a time. Performing the commands is left
//! to the caller, who owns the graphics context.
//!
//! Single-precision numbers are carried as their 32 bits (see [`float`]).
//!
//! - [`layer`]: the quads that a frame is made of.
//! - [`quad`]: the vertex record, and the expansion of quads into records.
//! - [`attribute`]: how the device is told to read a record.
//! - [`batch`]: chunks of a frame that fit the device buffer.
//! - [`uniform`], [`transformation`]: the shader's uniforms and the record
//!   of what the device holds.
//! - [`command`]: the commands, and what they bind and need bound.
//! - [`setup`]: the commands that set the device up.
//! - [`pipeline`], [`frame`]: the commands of a frame.
//! - [`tally`]: how many uploads and draw calls a frame takes.
//! - [`renderer`]: what a renderer is to the widgets.

pub mod attribute;
pub mod batch;
pub mod command;
pub mod float;
pub mod frame;
pub mod layer;
pub mod pipeline;
pub mod quad;
pub mod renderer;
pub mod setup;
pub mod tally;
pub mod transformation;
pub mod uniform;
