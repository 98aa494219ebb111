//! A collection of small, self-contained concurrency and dispatch examples,
//! centred on an audio-spectrum visualizer pipeline: a background worker
//! decodes fixed-size binary frames of spectrum magnitudes, smooths them with
//! a boundary-clipped moving average, and delivers them in order over a
//! single-producer/single-consumer channel to a UI sink that redraws only
//! when values change.

pub mod channel;
pub mod codec;
pub mod consumer;
pub mod counter;
pub mod smoothing;
pub mod visualizer;
pub mod weather;
pub mod widget_kinds;
pub mod widgets;
