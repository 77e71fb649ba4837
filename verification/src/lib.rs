//! A verified core for a desktop media converter: a format catalog that
//! classifies file extensions and chooses codecs, a routing layer that
//! dispatches a conversion request to the right strategy, a provisioning
//! state machine for the external encoder binary, archive extraction of
//! that binary, and construction of the encoder invocation.

pub mod archive;
pub mod error;
pub mod ffmpeg_manager;
pub mod formats;
pub mod image_convert;
pub mod models;
pub mod pcx;
pub mod text;
pub mod transcoder;
pub mod utils;
