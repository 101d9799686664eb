//! Incremental decoder for a multiplexed row-oriented wire format.
//!
//! A stream arrives as arbitrarily sized text fragments. Each row carries a
//! hexadecimal identifier, an optional one-letter type tag, and a body that
//! runs to a newline. The framer reassembles rows across fragment boundaries
//! and the decoder appends one typed chunk per completed row to an ordered
//! chunk log.

pub mod chunk;
pub mod hex;
pub mod response;
pub mod structured;

pub use chunk::BufferChunk;
pub use chunk::Chunk;
pub use chunk::ChunkModel;
pub use chunk::ConsoleChunk;
pub use chunk::ConsoleValue;
pub use chunk::ConsoleValueModel;
pub use chunk::DebugInfoChunk;
pub use chunk::ErrorDevChunk;
pub use chunk::ErrorProdChunk;
pub use chunk::HintChunk;
pub use chunk::ModelChunk;
pub use chunk::ModuleChunk;
pub use chunk::PostponeDevChunk;
pub use chunk::PostponeProdChunk;
pub use chunk::StartAsyncIterableChunk;
pub use chunk::StartReadableStreamChunk;
pub use chunk::StopStreamChunk;
pub use chunk::TextChunk;
pub use hex::hex_accumulate_u64;
pub use response::FlightError;
pub use response::FlightResponse;
pub use response::RowParserState;
