//! The typed chunks that decoded rows produce, and their mathematical models.
//! Every chunk carries the row's identifier rendered as lowercase hexadecimal,
//! the raw body it was decoded from, and the timestamp the parser state held
//! when the row completed.

use vstd::prelude::*;

verus! {

/// A row tagged as rendered text; the payload is the body taken verbatim.
#[derive(Debug, Clone)]
pub struct TextChunk {
    pub id: String,
    pub value: String,
    pub original_value: String,
    pub timestamp: u64,
}

/// A row tagged as a module reference; the payload is the body parsed as
/// structured data, or its string fallback.
#[derive(Debug, Clone)]
pub struct ModuleChunk {
    pub id: String,
    pub value: serde_json::Value,
    pub original_value: String,
    pub timestamp: u64,
}

/// An untagged row: structured model data, with the same parse-or-fallback
/// policy as a module row.
#[derive(Debug, Clone)]
pub struct ModelChunk {
    pub id: String,
    pub value: serde_json::Value,
    pub original_value: String,
    pub timestamp: u64,
}

/// Reserved: a hint row.
#[derive(Debug, Clone)]
pub struct HintChunk {
    pub id: String,
    pub code: String,
    pub value: serde_json::Value,
    pub original_value: serde_json::Value,
    pub timestamp: u64,
}

/// Reserved: an error row carrying development-mode detail.
#[derive(Debug, Clone)]
pub struct ErrorDevChunk {
    pub id: String,
    pub error: serde_json::Value,
    pub original_value: serde_json::Value,
    pub timestamp: u64,
}

/// Reserved: an error row as emitted in production.
#[derive(Debug, Clone)]
pub struct ErrorProdChunk {
    pub id: String,
    pub error: serde_json::Value,
    pub original_value: serde_json::Value,
    pub timestamp: u64,
}

/// Reserved: a postponed-render row carrying development-mode detail.
#[derive(Debug, Clone)]
pub struct PostponeDevChunk {
    pub id: String,
    pub error: serde_json::Value,
    pub original_value: serde_json::Value,
    pub timestamp: u64,
}

/// Reserved: a postponed-render row as emitted in production.
#[derive(Debug, Clone)]
pub struct PostponeProdChunk {
    pub id: String,
    pub error: serde_json::Value,
    pub original_value: serde_json::Value,
    pub timestamp: u64,
}

/// Reserved: a binary buffer row.
#[derive(Debug, Clone)]
pub struct BufferChunk {
    pub id: String,
    pub value: Vec<u8>,
    pub original_value: String,
    pub timestamp: u64,
}

/// Reserved: a debug-information row.
#[derive(Debug, Clone)]
pub struct DebugInfoChunk {
    pub id: String,
    pub value: serde_json::Value,
    pub original_value: String,
    pub timestamp: u64,
}

/// Reserved: a replayed console-log row.
#[derive(Debug, Clone)]
pub struct ConsoleChunk {
    pub id: String,
    pub value: ConsoleValue,
    pub original_value: serde_json::Value,
    pub timestamp: u64,
}

/// The payload of a console-log row.
#[derive(Debug, Clone)]
pub struct ConsoleValue {
    pub method_name: String,
    pub stack_trace: serde_json::Value,
    pub owner: serde_json::Value,
    pub env: String,
    pub args: Vec<serde_json::Value>,
}

/// Reserved: the start of a nested readable stream.
#[derive(Debug, Clone)]
pub struct StartReadableStreamChunk {
    pub id: String,
    pub stream_type: Option<String>,
    pub timestamp: u64,
}

/// Reserved: the start of a nested async iterable.
#[derive(Debug, Clone)]
pub struct StartAsyncIterableChunk {
    pub id: String,
    pub is_iterator: bool,
    pub timestamp: u64,
}

/// Reserved: the stop marker of a stream, carrying a final-state label.
#[derive(Debug, Clone)]
pub struct StopStreamChunk {
    pub id: String,
    pub final_model: String,
    pub timestamp: u64,
}

/// One decoded row. The decoder appends exactly one of these to the chunk log
/// per completed row; later variants are extension points that share the same
/// decode pipeline.
#[derive(Debug, Clone)]
pub enum Chunk {
    Text(TextChunk),
    Module(ModuleChunk),
    Model(ModelChunk),
    Hint(HintChunk),
    ErrorDev(ErrorDevChunk),
    ErrorProd(ErrorProdChunk),
    PostponeDev(PostponeDevChunk),
    PostponeProd(PostponeProdChunk),
    Buffer(BufferChunk),
    DebugInfo(DebugInfoChunk),
    Console(ConsoleChunk),
    StartReadableStream(StartReadableStreamChunk),
    StartAsyncIterable(StartAsyncIterableChunk),
    StopStream(StopStreamChunk),
}

/// Model of a console-log payload.
#[verifier::ext_equal]
pub ghost struct ConsoleValueModel {
    pub method_name: Seq<char>,
    pub stack_trace: serde_json::Value,
    pub owner: serde_json::Value,
    pub env: Seq<char>,
    pub args: Seq<serde_json::Value>,
}

/// Model of a decoded chunk: what the contracts of the framer and decoder
/// speak of.
#[verifier::ext_equal]
pub ghost enum ChunkModel {
    Text { id: Seq<char>, value: Seq<char>, original_value: Seq<char>, timestamp: u64 },
    Module {
        id: Seq<char>,
        value: serde_json::Value,
        original_value: Seq<char>,
        timestamp: u64,
    },
    Model {
        id: Seq<char>,
        value: serde_json::Value,
        original_value: Seq<char>,
        timestamp: u64,
    },
    Hint {
        id: Seq<char>,
        code: Seq<char>,
        value: serde_json::Value,
        original_value: serde_json::Value,
        timestamp: u64,
    },
    ErrorDev {
        id: Seq<char>,
        error: serde_json::Value,
        original_value: serde_json::Value,
        timestamp: u64,
    },
    ErrorProd {
        id: Seq<char>,
        error: serde_json::Value,
        original_value: serde_json::Value,
        timestamp: u64,
    },
    PostponeDev {
        id: Seq<char>,
        error: serde_json::Value,
        original_value: serde_json::Value,
        timestamp: u64,
    },
    PostponeProd {
        id: Seq<char>,
        error: serde_json::Value,
        original_value: serde_json::Value,
        timestamp: u64,
    },
    Buffer { id: Seq<char>, value: Seq<u8>, original_value: Seq<char>, timestamp: u64 },
    DebugInfo {
        id: Seq<char>,
        value: serde_json::Value,
        original_value: Seq<char>,
        timestamp: u64,
    },
    Console {
        id: Seq<char>,
        value: ConsoleValueModel,
        original_value: serde_json::Value,
        timestamp: u64,
    },
    StartReadableStream { id: Seq<char>, stream_type: Option<Seq<char>>, timestamp: u64 },
    StartAsyncIterable { id: Seq<char>, is_iterator: bool, timestamp: u64 },
    StopStream { id: Seq<char>, final_model: Seq<char>, timestamp: u64 },
}

impl View for ConsoleValue {
    type V = ConsoleValueModel;

    open spec fn view(&self) -> ConsoleValueModel {
        ConsoleValueModel {
            method_name: self.method_name@,
            stack_trace: self.stack_trace,
            owner: self.owner,
            env: self.env@,
            args: self.args@,
        }
    }
}

impl View for Chunk {
    type V = ChunkModel;

    open spec fn view(&self) -> ChunkModel {
        match self {
            Chunk::Text(c) => ChunkModel::Text {
                id: c.id@,
                value: c.value@,
                original_value: c.original_value@,
                timestamp: c.timestamp,
            },
            Chunk::Module(c) => ChunkModel::Module {
                id: c.id@,
                value: c.value,
                original_value: c.original_value@,
                timestamp: c.timestamp,
            },
            Chunk::Model(c) => ChunkModel::Model {
                id: c.id@,
                value: c.value,
                original_value: c.original_value@,
                timestamp: c.timestamp,
            },
            Chunk::Hint(c) => ChunkModel::Hint {
                id: c.id@,
                code: c.code@,
                value: c.value,
                original_value: c.original_value,
                timestamp: c.timestamp,
            },
            Chunk::ErrorDev(c) => ChunkModel::ErrorDev {
                id: c.id@,
                error: c.error,
                original_value: c.original_value,
                timestamp: c.timestamp,
            },
            Chunk::ErrorProd(c) => ChunkModel::ErrorProd {
                id: c.id@,
                error: c.error,
                original_value: c.original_value,
                timestamp: c.timestamp,
            },
            Chunk::PostponeDev(c) => ChunkModel::PostponeDev {
                id: c.id@,
                error: c.error,
                original_value: c.original_value,
                timestamp: c.timestamp,
            },
            Chunk::PostponeProd(c) => ChunkModel::PostponeProd {
                id: c.id@,
                error: c.error,
                original_value: c.original_value,
                timestamp: c.timestamp,
            },
            Chunk::Buffer(c) => ChunkModel::Buffer {
                id: c.id@,
                value: c.value@,
                original_value: c.original_value@,
                timestamp: c.timestamp,
            },
            Chunk::DebugInfo(c) => ChunkModel::DebugInfo {
                id: c.id@,
                value: c.value,
                original_value: c.original_value@,
                timestamp: c.timestamp,
            },
            Chunk::Console(c) => ChunkModel::Console {
                id: c.id@,
                value: c.value@,
                original_value: c.original_value,
                timestamp: c.timestamp,
            },
            Chunk::StartReadableStream(c) => ChunkModel::StartReadableStream {
                id: c.id@,
                stream_type: match &c.stream_type {
                    Some(t) => Some(t@),
                    None => None,
                },
                timestamp: c.timestamp,
            },
            Chunk::StartAsyncIterable(c) => ChunkModel::StartAsyncIterable {
                id: c.id@,
                is_iterator: c.is_iterator,
                timestamp: c.timestamp,
            },
            Chunk::StopStream(c) => ChunkModel::StopStream {
                id: c.id@,
                final_model: c.final_model@,
                timestamp: c.timestamp,
            },
        }
    }
}

} // verus!
