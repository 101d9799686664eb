//! The row framer and chunk decoder. A `FlightResponse` owns the parser state
//! of one stream: fragments are pushed into `process_chunk`, rows are
//! reassembled across fragment boundaries, and each completed row appends
//! exactly one chunk to the ordered chunk log.
//!
//! The framer's behaviour is pinned by a character-at-a-time transition
//! function `step_char` and its fold `feed_chars`; `process_chunk` is proved
//! to realise that fold exactly, and `lemma_feed_fragmentation` shows the fold
//! is invariant under how the input is split into fragments.

use vstd::prelude::*;
use vstd::string::StrSliceExecFns;
use vstd::string::StringExecFns;

use crate::chunk::Chunk;
use crate::chunk::ChunkModel;
use crate::chunk::ModelChunk;
use crate::chunk::ModuleChunk;
use crate::chunk::TextChunk;
use crate::hex::hex_accumulate_u64;
use crate::hex::hex_render;
use crate::hex::hex_step;
use crate::hex::is_hex_digit;
use crate::hex::is_hex_digit_exec;
use crate::hex::render_hex;
use crate::structured::parse_structured;
use crate::structured::structured_value_of;

verus! {

/// The sub-state within the row currently being assembled. A row moves
/// strictly through `ReadId`, then `ReadTag`, then one of the two body
/// phases, and back to `ReadId` when it completes.
#[derive(Debug, Clone, Copy)]
pub enum RowParserState {
    ReadId,
    ReadTag,
    ReadBodyByDelimiter,
    ReadBodyByLength,
}

/// The one fatal condition of the stream: a byte in a row's id field that is
/// not a lowercase hexadecimal digit.
#[derive(Debug, Clone, Copy, PartialEq, Eq, Structural)]
pub enum FlightError {
    InvalidHexDigit,
}

/// Model of a parser state: the pending row accumulators and the chunk log.
#[verifier::ext_equal]
pub ghost struct StateModel {
    pub row_state: RowParserState,
    pub row_id: u64,
    pub row_tag: Option<char>,
    pub row_length: usize,
    pub buffer: Seq<char>,
    pub chunks: Seq<ChunkModel>,
    pub current_timestamp: u64,
    pub dev: bool,
}

/// What feeding a fragment yields: the state after all of it was consumed, or
/// the state at the first invalid id digit, further input untouched.
#[verifier::ext_equal]
pub ghost enum FeedOutcome {
    Done(StateModel),
    Failed(StateModel),
}

/// The state an outcome carries, whether the fragment was consumed or not.
pub open spec fn outcome_state(o: FeedOutcome) -> StateModel {
    match o {
        FeedOutcome::Done(m) => m,
        FeedOutcome::Failed(m) => m,
    }
}

/// The parser state a fresh stream starts in.
pub open spec fn initial_state(dev: bool) -> StateModel {
    StateModel {
        row_state: RowParserState::ReadId,
        row_id: 0,
        row_tag: None,
        row_length: 0,
        buffer: Seq::empty(),
        chunks: Seq::empty(),
        current_timestamp: 0,
        dev: dev,
    }
}

/// The tag letters an explicit row tag may use.
pub open spec fn is_tag_char(c: char) -> bool {
    c == 'T' || c == 'I'
}

/// The chunk one complete row decodes to: text for a `T` tag, a module for an
/// `I` tag, and model data — parsed, or the raw body as a string fallback —
/// when no tag was present.
pub open spec fn decode_row_model(id: u64, tag: Option<char>, body: Seq<char>, ts: u64) -> ChunkModel {
    match tag {
        Some(t) => if t == 'T' {
            ChunkModel::Text {
                id: hex_render(id),
                value: body,
                original_value: body,
                timestamp: ts,
            }
        } else if t == 'I' {
            ChunkModel::Module {
                id: hex_render(id),
                value: structured_value_of(body),
                original_value: body,
                timestamp: ts,
            }
        } else {
            ChunkModel::Model {
                id: hex_render(id),
                value: structured_value_of(body),
                original_value: body,
                timestamp: ts,
            }
        },
        None => ChunkModel::Model {
            id: hex_render(id),
            value: structured_value_of(body),
            original_value: body,
            timestamp: ts,
        },
    }
}

/// A row completed with the given body: its chunk is appended to the log and
/// every pending-row accumulator returns to its initial value.
pub open spec fn complete_row(st: StateModel, body: Seq<char>) -> StateModel {
    StateModel {
        row_state: RowParserState::ReadId,
        row_id: 0,
        row_tag: None,
        row_length: 0,
        buffer: Seq::empty(),
        chunks: st.chunks.push(
            decode_row_model(st.row_id, st.row_tag, body, st.current_timestamp),
        ),
        ..st
    }
}

/// One body character in either body phase: append until the newline
/// delimiter is found, or until the expected length is reached.
pub open spec fn body_char_step(st: StateModel, c: char) -> StateModel {
    match st.row_state {
        RowParserState::ReadBodyByDelimiter => if c == '\n' {
            complete_row(st, st.buffer)
        } else {
            StateModel { buffer: st.buffer.push(c), ..st }
        },
        RowParserState::ReadBodyByLength => {
            let nb = st.buffer.push(c);
            let st2 = StateModel { buffer: nb, ..st };
            if nb.len() == st.row_length {
                complete_row(st2, nb)
            } else {
                st2
            }
        },
        _ => st,
    }
}

/// One character of input against the current phase. `None` is the fatal
/// invalid-hex-digit condition; everything else advances the state. In
/// `ReadTag`, `row_tag` holds the one-character lookahead: a tag letter is
/// held until the next character shows whether it is a tag or body content,
/// so a fragment boundary after it cannot change the decoded result. Any
/// character that is not a recognized tag letter starts the body of a default
/// model row — the permissive policy, so emitters may add tags over time.
pub open spec fn step_char(st: StateModel, c: char) -> Option<StateModel> {
    match st.row_state {
        RowParserState::ReadId => if c == ':' {
            Some(StateModel { row_state: RowParserState::ReadTag, ..st })
        } else if is_hex_digit(c) {
            Some(StateModel { row_id: hex_step(st.row_id, c), ..st })
        } else {
            None
        },
        RowParserState::ReadTag => match st.row_tag {
            None => if is_tag_char(c) {
                Some(StateModel { row_tag: Some(c), ..st })
            } else {
                Some(
                    body_char_step(
                        StateModel { row_state: RowParserState::ReadBodyByDelimiter, ..st },
                        c,
                    ),
                )
            },
            Some(t) => if c == ':' {
                Some(
                    body_char_step(
                        StateModel {
                            row_state: RowParserState::ReadBodyByDelimiter,
                            row_tag: None,
                            buffer: st.buffer.push(t),
                            ..st
                        },
                        c,
                    ),
                )
            } else {
                Some(
                    body_char_step(
                        StateModel { row_state: RowParserState::ReadBodyByDelimiter, ..st },
                        c,
                    ),
                )
            },
        },
        _ => Some(body_char_step(st, c)),
    }
}

/// The fold of `step_char` over a fragment: the reference meaning of one
/// `process_chunk` call.
pub open spec fn feed_chars(st: StateModel, s: Seq<char>) -> FeedOutcome
    decreases s.len(),
{
    if s.len() == 0 {
        FeedOutcome::Done(st)
    } else {
        match step_char(st, s[0]) {
            Some(m) => feed_chars(m, s.skip(1)),
            None => FeedOutcome::Failed(st),
        }
    }
}

/// Law: fragmentation invariance. Feeding one fragment and then another is
/// exactly feeding their concatenation: the decoded chunk log never depends
/// on where the input was split.
pub proof fn lemma_feed_fragmentation(st: StateModel, a: Seq<char>, b: Seq<char>)
    ensures
        feed_chars(st, a + b) == (match feed_chars(st, a) {
            FeedOutcome::Done(m) => feed_chars(m, b),
            FeedOutcome::Failed(m) => FeedOutcome::Failed(m),
        }),
    decreases a.len(),
{
    if a.len() == 0 {
        assert(a + b =~= b);
    } else {
        assert((a + b)[0] == a[0]);
        assert((a + b).len() > 0);
        assert((a + b).skip(1) =~= a.skip(1) + b);
        match step_char(st, a[0]) {
            Some(m) => {
                lemma_feed_fragmentation(m, a.skip(1), b);
            },
            None => {},
        }
    }
}

/// The fragments of a stream, concatenated back into the whole input.
pub open spec fn concat_fragments(frags: Seq<Seq<char>>) -> Seq<char>
    decreases frags.len(),
{
    if frags.len() == 0 {
        Seq::empty()
    } else {
        frags[0] + concat_fragments(frags.skip(1))
    }
}

/// The fragments of a stream fed one call after another, stopping at the
/// first failure as the caller would.
pub open spec fn feed_fragments(st: StateModel, frags: Seq<Seq<char>>) -> FeedOutcome
    decreases frags.len(),
{
    if frags.len() == 0 {
        FeedOutcome::Done(st)
    } else {
        match feed_chars(st, frags[0]) {
            FeedOutcome::Done(m) => feed_fragments(m, frags.skip(1)),
            FeedOutcome::Failed(m) => FeedOutcome::Failed(m),
        }
    }
}

/// Law: however many calls a stream is split into, and wherever the split
/// points fall, feeding the fragments in order yields exactly what feeding
/// the whole stream in one call yields.
pub proof fn lemma_fragmentation_invariance(st: StateModel, frags: Seq<Seq<char>>)
    ensures
        feed_fragments(st, frags) == feed_chars(st, concat_fragments(frags)),
    decreases frags.len(),
{
    if frags.len() > 0 {
        lemma_feed_fragmentation(st, frags[0], concat_fragments(frags.skip(1)));
        match feed_chars(st, frags[0]) {
            FeedOutcome::Done(m) => {
                lemma_fragmentation_invariance(m, frags.skip(1));
            },
            FeedOutcome::Failed(m) => {},
        }
    }
}

/// Feeding one more character is one more step of the fold.
proof fn lemma_feed_chars_snoc(st: StateModel, s: Seq<char>, c: char)
    ensures
        feed_chars(st, s.push(c)) == (match feed_chars(st, s) {
            FeedOutcome::Done(m) => match step_char(m, c) {
                Some(m2) => FeedOutcome::Done(m2),
                None => FeedOutcome::Failed(m),
            },
            FeedOutcome::Failed(m) => FeedOutcome::Failed(m),
        }),
{
    assert(s.push(c) =~= s + seq![c]);
    lemma_feed_fragmentation(st, s, seq![c]);
    assert(seq![c].skip(1) =~= Seq::<char>::empty());
    match feed_chars(st, s) {
        FeedOutcome::Done(m) => {
            assert(seq![c][0] == c);
            match step_char(m, c) {
                Some(m2) => {
                    assert(feed_chars(m2, Seq::<char>::empty()) == FeedOutcome::Done(m2));
                },
                None => {},
            }
        },
        FeedOutcome::Failed(m) => {},
    }
}

proof fn lemma_step_chunks_monotone(st: StateModel, c: char)
    ensures
        step_char(st, c) matches Some(m) ==> st.chunks.is_prefix_of(m.chunks),
{
    if step_char(st, c) is Some {
        let m = step_char(st, c)->Some_0;
        assert(m.chunks == st.chunks || m.chunks == st.chunks.push(m.chunks.last()));
        assert(st.chunks =~= m.chunks.subrange(0, st.chunks.len() as int));
    }
}

/// Law: the chunk log is append-only. Whatever input is fed, the chunks
/// already in the log stay, in place and in order; new chunks only follow
/// them. This holds whether the feed consumed everything or stopped at an
/// invalid id digit.
pub proof fn lemma_chunk_log_append_only(st: StateModel, s: Seq<char>)
    ensures
        st.chunks.is_prefix_of(outcome_state(feed_chars(st, s)).chunks),
    decreases s.len(),
{
    if s.len() == 0 {
        assert(st.chunks =~= st.chunks.subrange(0, st.chunks.len() as int));
    } else {
        match step_char(st, s[0]) {
            Some(m) => {
                lemma_step_chunks_monotone(st, s[0]);
                lemma_chunk_log_append_only(m, s.skip(1));
                let fin = outcome_state(feed_chars(m, s.skip(1)));
                assert forall|i: int| 0 <= i < st.chunks.len() implies st.chunks[i]
                    == fin.chunks[i] by {
                    assert(st.chunks[i] == m.chunks.subrange(0, st.chunks.len() as int)[i]);
                    assert(m.chunks[i] == fin.chunks.subrange(0, m.chunks.len() as int)[i]);
                }
                assert(st.chunks =~= fin.chunks.subrange(0, st.chunks.len() as int));
            },
            None => {
                assert(st.chunks =~= st.chunks.subrange(0, st.chunks.len() as int));
            },
        }
    }
}

/// The parser state of one stream: the pending-row accumulators, the ordered
/// chunk log, and the caller-advanced clock. Owned exclusively by the one
/// caller that drives the stream.
#[derive(Debug)]
pub struct FlightResponse {
    pub row_state: RowParserState,
    pub row_id: u64,
    pub row_tag: Option<char>,
    pub row_length: usize,
    pub buffer: Vec<char>,
    pub chunks: Vec<Chunk>,
    pub current_timestamp: u64,
    pub dev: bool,
}

impl View for FlightResponse {
    type V = StateModel;

    open spec fn view(&self) -> StateModel {
        StateModel {
            row_state: self.row_state,
            row_id: self.row_id,
            row_tag: self.row_tag,
            row_length: self.row_length,
            buffer: self.buffer@,
            chunks: self.chunks@.map_values(|c: Chunk| c@),
            current_timestamp: self.current_timestamp,
            dev: self.dev,
        }
    }
}

/// Relies on `core::iter::Iterator::collect` building a `String` from
/// characters: the collected string holds exactly the iterated characters.
#[verifier::external_body]
fn chars_to_string(v: &Vec<char>) -> (r: String)
    ensures
        r@ == v@,
{
    v.iter().collect()
}

/// Appends a text chunk for a completed `T` row.
fn resolve_text(r: &mut FlightResponse, id: u64, text: &str)
    ensures
        final(r)@ == (StateModel {
            chunks: old(r)@.chunks.push(
                ChunkModel::Text {
                    id: hex_render(id),
                    value: text@,
                    original_value: text@,
                    timestamp: old(r)@.current_timestamp,
                },
            ),
            ..old(r)@
        }),
{
    let ts = r.current_timestamp;
    let c = Chunk::Text(
        TextChunk {
            id: render_hex(id),
            value: String::from_str(text),
            original_value: String::from_str(text),
            timestamp: ts,
        },
    );
    r.chunks.push(c);
    proof {
        assert(r@.chunks =~~= old(r)@.chunks.push(c@));
    }
}

/// Appends a model chunk for a completed untagged row, parsing the body as
/// structured data with the string fallback.
fn resolve_model(r: &mut FlightResponse, id: u64, model: &str)
    ensures
        final(r)@ == (StateModel {
            chunks: old(r)@.chunks.push(
                ChunkModel::Model {
                    id: hex_render(id),
                    value: structured_value_of(model@),
                    original_value: model@,
                    timestamp: old(r)@.current_timestamp,
                },
            ),
            ..old(r)@
        }),
{
    let parsed_value = parse_structured(model);
    let ts = r.current_timestamp;
    let c = Chunk::Model(
        ModelChunk {
            id: render_hex(id),
            value: parsed_value,
            original_value: String::from_str(model),
            timestamp: ts,
        },
    );
    r.chunks.push(c);
    proof {
        assert(r@.chunks =~~= old(r)@.chunks.push(c@));
    }
}

/// Appends a module chunk for a completed `I` row, with the same
/// parse-or-fallback policy as model rows.
fn resolve_module(r: &mut FlightResponse, id: u64, model: &str)
    ensures
        final(r)@ == (StateModel {
            chunks: old(r)@.chunks.push(
                ChunkModel::Module {
                    id: hex_render(id),
                    value: structured_value_of(model@),
                    original_value: model@,
                    timestamp: old(r)@.current_timestamp,
                },
            ),
            ..old(r)@
        }),
{
    let parsed_value = parse_structured(model);
    let ts = r.current_timestamp;
    let c = Chunk::Module(
        ModuleChunk {
            id: render_hex(id),
            value: parsed_value,
            original_value: String::from_str(model),
            timestamp: ts,
        },
    );
    r.chunks.push(c);
    proof {
        assert(r@.chunks =~~= old(r)@.chunks.push(c@));
    }
}

/// Dispatches one complete row on its tag and appends its chunk.
fn process_full_string_row(r: &mut FlightResponse, id: u64, tag: Option<char>, row: &str)
    ensures
        final(r)@ == (StateModel {
            chunks: old(r)@.chunks.push(
                decode_row_model(id, tag, row@, old(r)@.current_timestamp),
            ),
            ..old(r)@
        }),
{
    match tag {
        Some(t) => if t == 'T' {
            resolve_text(r, id, row);
        } else if t == 'I' {
            resolve_module(r, id, row);
        } else {
            resolve_model(r, id, row);
        },
        None => resolve_model(r, id, row),
    }
}

/// Completes the pending row with the buffered body: decodes it, appends its
/// chunk, and resets every accumulator for the next row.
fn finish_row(response: &mut FlightResponse)
    ensures
        final(response)@ == complete_row(old(response)@, old(response)@.buffer),
{
    let row = chars_to_string(&response.buffer);
    let id = response.row_id;
    let tag = response.row_tag;
    process_full_string_row(response, id, tag, row.as_str());
    response.row_state = RowParserState::ReadId;
    response.row_id = 0;
    response.row_tag = None;
    response.row_length = 0;
    response.buffer.clear();
    proof {
        assert(response@ =~~= complete_row(old(response)@, old(response)@.buffer));
    }
}

proof fn lemma_feed_failed_at(st0: StateModel, s: Seq<char>, i: int, m: StateModel)
    requires
        0 <= i < s.len(),
        feed_chars(st0, s.take(i)) == FeedOutcome::Done(m),
        step_char(m, s[i]) is None,
    ensures
        feed_chars(st0, s) == FeedOutcome::Failed(m),
{
    lemma_feed_fragmentation(st0, s.take(i), s.skip(i));
    assert(s.take(i) + s.skip(i) =~= s);
    assert(s.skip(i).len() > 0);
    assert(s.skip(i)[0] == s[i]);
}

/// Consumes one fragment of the stream against the pending-row state:
/// completed rows are decoded and appended to the chunk log, and an
/// unfinished row is buffered for the next call. The only error is an invalid
/// hexadecimal digit in an id field, which stops consumption at that
/// character and leaves the state as the fold reached it.
pub fn process_string_chunk(response: &mut FlightResponse, chunk: &str) -> (res: Result<
    (),
    FlightError,
>)
    ensures
        res is Ok ==> feed_chars(old(response)@, chunk@) == FeedOutcome::Done(final(response)@),
        res is Err ==> feed_chars(old(response)@, chunk@) == FeedOutcome::Failed(final(response)@),
        res is Err ==> res == Err::<(), FlightError>(FlightError::InvalidHexDigit),
{
    let n = chunk.unicode_len();
    let mut i: usize = 0;
    while i < n
        invariant
            n == chunk@.len(),
            0 <= i <= n,
            feed_chars(old(response)@, chunk@.take(i as int)) == FeedOutcome::Done(response@),
        decreases n - i,
    {
        let c = chunk.get_char(i);
        let ghost pre = response@;
        let ghost taken = chunk@.take(i as int);
        let phase = response.row_state;
        match phase {
            RowParserState::ReadId => {
                if c == ':' {
                    response.row_state = RowParserState::ReadTag;
                } else if is_hex_digit_exec(c) {
                    response.row_id = hex_accumulate_u64(response.row_id, c);
                } else {
                    proof {
                        lemma_feed_failed_at(old(response)@, chunk@, i as int, pre);
                    }
                    return Err(FlightError::InvalidHexDigit);
                }
            },
            RowParserState::ReadTag => {
                let held = response.row_tag;
                match held {
                    None => {
                        if c == 'T' || c == 'I' {
                            response.row_tag = Some(c);
                        } else {
                            response.row_state = RowParserState::ReadBodyByDelimiter;
                            if c == '\n' {
                                finish_row(response);
                            } else {
                                response.buffer.push(c);
                            }
                        }
                    },
                    Some(t) => {
                        if c == ':' {
                            response.row_tag = None;
                            response.row_state = RowParserState::ReadBodyByDelimiter;
                            response.buffer.push(t);
                            response.buffer.push(c);
                        } else {
                            response.row_state = RowParserState::ReadBodyByDelimiter;
                            if c == '\n' {
                                finish_row(response);
                            } else {
                                response.buffer.push(c);
                            }
                        }
                    },
                }
            },
            RowParserState::ReadBodyByDelimiter => {
                if c == '\n' {
                    finish_row(response);
                } else {
                    response.buffer.push(c);
                }
            },
            RowParserState::ReadBodyByLength => {
                response.buffer.push(c);
                if response.buffer.len() == response.row_length {
                    finish_row(response);
                }
            },
        }
        proof {
            assert(step_char(pre, c) == Some(response@));
            lemma_feed_chars_snoc(old(response)@, taken, c);
            assert(chunk@.take(i + 1 as int) =~= taken.push(c));
        }
        i = i + 1;
    }
    proof {
        assert(chunk@.take(n as int) =~= chunk@);
    }
    Ok(())
}

impl FlightResponse {
    /// A fresh parser state: phase `ReadId`, accumulators zeroed, empty chunk
    /// log, clock at zero.
    pub fn new(dev: bool) -> (r: FlightResponse)
        ensures
            r@ == initial_state(dev),
    {
        let r = FlightResponse {
            buffer: Vec::new(),
            row_id: 0,
            row_tag: None,
            row_length: 0,
            row_state: RowParserState::ReadId,
            chunks: Vec::new(),
            current_timestamp: 0,
            dev: dev,
        };
        proof {
            assert(r@ =~~= initial_state(dev));
        }
        r
    }

    /// Feeds one fragment of the stream; see `process_string_chunk`.
    pub fn process_chunk(&mut self, chunk: &str) -> (res: Result<(), FlightError>)
        ensures
            res is Ok ==> feed_chars(old(self)@, chunk@) == FeedOutcome::Done(final(self)@),
            res is Err ==> feed_chars(old(self)@, chunk@) == FeedOutcome::Failed(final(self)@),
            res is Err ==> res == Err::<(), FlightError>(FlightError::InvalidHexDigit),
    {
        process_string_chunk(self, chunk)
    }
}

} // verus!
