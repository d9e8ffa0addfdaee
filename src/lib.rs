//! Incremental mirroring of channel metadata: channel-list filtering,
//! watermark resolution, fetcher arguments, validated record parsing,
//! batch partitioning and chunked, duplicate-safe writes.
pub mod date;
pub mod json;
pub mod record;
pub mod batch;
pub mod watermark;
pub mod channels;
pub mod ytdlp;
pub mod writer;
pub mod sync;
