//! Channel-layout resolution and channel-count conversion for interleaved
//! audio, with every rule stated as a contract and proved.

pub mod buffer;
pub mod catalog;
pub mod channel;
pub mod channel_map;
pub mod downmix;
pub mod layout;
pub mod log;
pub mod resolve;
pub mod stream;
pub mod upmix;
pub mod weights;

pub use catalog::channel_index_to_order;
pub use channel::Channel;
pub use channel_map::ChannelMap;
pub use downmix::downmix;
pub use layout::ChannelLayout;
pub use log::LogLevel;
pub use resolve::channel_map_to_layout;
pub use stream::{should_downmix, should_upmix, StreamParams};
pub use upmix::upmix;
pub use weights::{downmix_weight, Weight};
