//! Headless compute on the GPU: typed buffers in device memory, compute
//! shaders bound to them, transfers to and from the device, and dispatch.
//!
//! The library decides; it does not act. Every object is made by a state
//! machine that says which call of the driver is to be made next, takes the
//! reply, and in the end gives the object or the error. Whoever runs the
//! library makes the calls (see [`driver`]).
#![allow(non_snake_case, non_camel_case_types, non_upper_case_globals)]

pub mod buffer;
pub mod context;
pub mod device;
pub mod dispatch;
pub mod driver;
pub mod error;
pub mod instance;
pub mod layout;
pub mod memory;
pub mod names;
pub mod pipeline;
pub mod shared;
pub mod view;
pub mod vk;

pub use buffer::Buffer;
pub use context::Context;
pub use dispatch::{CommandDispatch, ConstantEntry};
pub use pipeline::{DispatchBuilder, Pipeline, PipelineBuilder};
pub use view::{BindingArray, BindingValue, BindingVariant, BufferLayout};
pub use view::{BufferBindingView, BufferView, BufferViewBuilder, Layout, Slot};
