//! Planning and bookkeeping for a widget that shows a frame rendered
//! off-screen: the frame is drawn into a texture of the widget's size, copied
//! into a CPU-readable staging buffer whose rows are padded to the alignment
//! that the copy demands, read back, and drawn clipped to the widget.
//!
//! The library talks to no device and draws nothing. It says what is to be
//! allocated, drawn, copied and presented, and in which state a paint is;
//! its caller has the device and the host of the widget do it.
//!
//! - [`padding`]: the padding of dimensions and the size of a padded frame.
//! - [`staging`]: the staging buffer manager, which replaces the retained
//!   buffer when the padded size changes.
//! - [`pipeline`]: the fixed state of the rendering pipeline.
//! - [`frame`]: the frame renderer, which plans each paint and follows it
//!   through mapping and unmapping.
//! - [`image`]: the decoding of the bytes read back into an image buffer.
//! - [`widget`]: the answers of the widget to the events of its host.

pub mod frame;
pub mod image;
pub mod padding;
pub mod pipeline;
pub mod staging;
pub mod widget;
