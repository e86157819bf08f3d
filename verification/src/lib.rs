//! Raw camera image processing: byte-order helpers and raw decoding
//! scaffolding, the raw image containers, black-level correction and the
//! integer stage of bilinear demosaicing.

pub mod decoder;
pub mod rawconfig;
pub mod raw_processor;
pub mod rgb_processor;
pub mod using_rawloader;
pub mod pipeline;
