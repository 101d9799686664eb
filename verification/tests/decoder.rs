use rsc_parser::Chunk;
use rsc_parser::FlightError;
use rsc_parser::FlightResponse;
use rsc_parser::hex_accumulate_u64;

fn feed(r: &mut FlightResponse, fragment: &str) {
    r.process_chunk(fragment).expect("fragment should be accepted");
}

fn log_debug(r: &FlightResponse) -> String {
    format!("{:?}", r.chunks)
}

fn decode_one_shot(stream: &str) -> FlightResponse {
    let mut r = FlightResponse::new(false);
    feed(&mut r, stream);
    r
}

#[test]
fn text_row_basic() {
    let r = decode_one_shot("0:Thello world\n");
    assert_eq!(r.chunks.len(), 1);
    match &r.chunks[0] {
        Chunk::Text(c) => {
            assert_eq!(c.id, "0");
            assert_eq!(c.value, "hello world");
            assert_eq!(c.original_value, "hello world");
        }
        other => panic!("expected a text chunk, got {:?}", other),
    }
}

#[test]
fn module_row_structured() {
    let r = decode_one_shot("1:I{\"id\":\"./foo.js\"}\n");
    assert_eq!(r.chunks.len(), 1);
    match &r.chunks[0] {
        Chunk::Module(c) => {
            assert_eq!(c.id, "1");
            let expected: serde_json::Value =
                serde_json::from_str("{\"id\":\"./foo.js\"}").unwrap();
            assert_eq!(c.value, expected);
            assert_eq!(c.original_value, "{\"id\":\"./foo.js\"}");
        }
        other => panic!("expected a module chunk, got {:?}", other),
    }
}

#[test]
fn model_row_structured() {
    let r = decode_one_shot("2:{\"a\":1}\n");
    assert_eq!(r.chunks.len(), 1);
    match &r.chunks[0] {
        Chunk::Model(c) => {
            assert_eq!(c.id, "2");
            let expected: serde_json::Value = serde_json::from_str("{\"a\":1}").unwrap();
            assert_eq!(c.value, expected);
            assert_eq!(c.original_value, "{\"a\":1}");
        }
        other => panic!("expected a model chunk, got {:?}", other),
    }
}

#[test]
fn model_row_fallback() {
    let r = decode_one_shot("3:not json\n");
    assert_eq!(r.chunks.len(), 1);
    match &r.chunks[0] {
        Chunk::Model(c) => {
            assert_eq!(c.id, "3");
            assert_eq!(c.value, serde_json::Value::String("not json".to_string()));
            assert_eq!(c.original_value, "not json");
        }
        other => panic!("expected a model chunk, got {:?}", other),
    }
}

#[test]
fn split_id_tag_across_calls() {
    let mut split = FlightResponse::new(false);
    feed(&mut split, "1");
    feed(&mut split, ":Thello\n");
    let whole = decode_one_shot("1:Thello\n");
    assert_eq!(split.chunks.len(), 1);
    match &split.chunks[0] {
        Chunk::Text(c) => {
            assert_eq!(c.id, "1");
            assert_eq!(c.value, "hello");
        }
        other => panic!("expected a text chunk, got {:?}", other),
    }
    assert_eq!(log_debug(&split), log_debug(&whole));
}

#[test]
fn invalid_hex_digit_rejected() {
    let mut r = FlightResponse::new(false);
    let res = r.process_chunk("g:Thi\n");
    assert_eq!(res, Err(FlightError::InvalidHexDigit));
    assert_eq!(r.chunks.len(), 0);
}

#[test]
fn invalid_hex_digit_keeps_earlier_rows() {
    let mut r = FlightResponse::new(false);
    let res = r.process_chunk("0:Tok\ng:x\n");
    assert_eq!(res, Err(FlightError::InvalidHexDigit));
    assert_eq!(r.chunks.len(), 1);
    match &r.chunks[0] {
        Chunk::Text(c) => assert_eq!(c.value, "ok"),
        other => panic!("expected a text chunk, got {:?}", other),
    }
}

#[test]
fn uppercase_id_digit_rejected() {
    let mut r = FlightResponse::new(false);
    let res = r.process_chunk("A:Thi\n");
    assert_eq!(res, Err(FlightError::InvalidHexDigit));
    assert_eq!(r.chunks.len(), 0);
}

fn decoded_id(stream: &str) -> String {
    let r = decode_one_shot(stream);
    assert_eq!(r.chunks.len(), 1);
    match &r.chunks[0] {
        Chunk::Text(c) => c.id.clone(),
        other => panic!("expected a text chunk, got {:?}", other),
    }
}

#[test]
fn hex_id_rendering() {
    assert_eq!(decoded_id("a:Tx\n"), "a");
    assert_eq!(decoded_id(":Tx\n"), "0");
    assert_eq!(decoded_id("0:Tx\n"), "0");
    assert_eq!(decoded_id("1a2f:Tx\n"), "1a2f");
    assert_eq!(decoded_id("0a:Tx\n"), "a");
    assert_eq!(decoded_id("ffffffffffffffff:Tx\n"), "ffffffffffffffff");
}

#[test]
fn hex_accumulator_steps() {
    assert_eq!(hex_accumulate_u64(0, '0'), 0);
    assert_eq!(hex_accumulate_u64(0, 'a'), 10);
    assert_eq!(hex_accumulate_u64(1, 'f'), 0x1f);
    assert_eq!(hex_accumulate_u64(0x1a2, '0'), 0x1a20);
}

#[test]
fn fragmentation_invariance_two_parts() {
    let streams = [
        "0:Thello world\n1:I{\"id\":\"./foo.js\"}\n2:{\"a\":1}\n3:not json\n",
        "5:T\n",
        "6:T:colon body\n",
        "7:I\n",
        "8:\n",
        "1:Thé😀\n",
        "abc:Iinvalid{json\nff:Tlast\n",
    ];
    for stream in streams {
        let whole = decode_one_shot(stream);
        let boundaries: Vec<usize> =
            (0..=stream.len()).filter(|i| stream.is_char_boundary(*i)).collect();
        for b in boundaries {
            let mut split = FlightResponse::new(false);
            feed(&mut split, &stream[..b]);
            feed(&mut split, &stream[b..]);
            assert_eq!(log_debug(&split), log_debug(&whole), "split at byte {}", b);
        }
    }
}

#[test]
fn fragmentation_invariance_char_by_char() {
    let stream = "0:Thello world\n1:I{\"id\":\"./foo.js\"}\n2:{\"a\":1}\n3:not json\nff:T:x\n";
    let whole = decode_one_shot(stream);
    let mut split = FlightResponse::new(false);
    let mut buf = [0u8; 4];
    for c in stream.chars() {
        feed(&mut split, c.encode_utf8(&mut buf));
    }
    assert_eq!(log_debug(&split), log_debug(&whole));
}

#[test]
fn tag_letter_followed_by_colon_is_body() {
    let r = decode_one_shot("1:T:rest\n");
    assert_eq!(r.chunks.len(), 1);
    match &r.chunks[0] {
        Chunk::Model(c) => {
            assert_eq!(c.id, "1");
            assert_eq!(c.original_value, "T:rest");
            assert_eq!(c.value, serde_json::Value::String("T:rest".to_string()));
        }
        other => panic!("expected a model chunk, got {:?}", other),
    }
}

#[test]
fn tag_held_at_fragment_end_resolves_as_tag() {
    let mut r = FlightResponse::new(false);
    feed(&mut r, "1:T");
    assert_eq!(r.chunks.len(), 0);
    feed(&mut r, "x\n");
    assert_eq!(log_debug(&r), log_debug(&decode_one_shot("1:Tx\n")));
}

#[test]
fn tag_held_at_fragment_end_resolves_as_body() {
    let mut r = FlightResponse::new(false);
    feed(&mut r, "1:T");
    feed(&mut r, ":x\n");
    assert_eq!(log_debug(&r), log_debug(&decode_one_shot("1:T:x\n")));
    match &r.chunks[0] {
        Chunk::Model(c) => assert_eq!(c.original_value, "T:x"),
        other => panic!("expected a model chunk, got {:?}", other),
    }
}

#[test]
fn empty_body_tagged_rows() {
    let r = decode_one_shot("4:T\n");
    match &r.chunks[0] {
        Chunk::Text(c) => {
            assert_eq!(c.id, "4");
            assert_eq!(c.value, "");
        }
        other => panic!("expected a text chunk, got {:?}", other),
    }
    let r = decode_one_shot("7:I\n");
    match &r.chunks[0] {
        Chunk::Module(c) => {
            assert_eq!(c.value, serde_json::Value::String(String::new()));
            assert_eq!(c.original_value, "");
        }
        other => panic!("expected a module chunk, got {:?}", other),
    }
}

#[test]
fn body_suspended_across_calls() {
    let mut r = FlightResponse::new(false);
    feed(&mut r, "1:Thel");
    assert_eq!(r.chunks.len(), 0);
    feed(&mut r, "lo\n");
    assert_eq!(r.chunks.len(), 1);
    match &r.chunks[0] {
        Chunk::Text(c) => assert_eq!(c.value, "hello"),
        other => panic!("expected a text chunk, got {:?}", other),
    }
}

#[test]
fn rows_append_in_completion_order() {
    let r = decode_one_shot("1:Tfirst\n2:Tsecond\n3:Tthird\n");
    let ids: Vec<String> = r
        .chunks
        .iter()
        .map(|c| match c {
            Chunk::Text(t) => t.id.clone(),
            other => panic!("expected a text chunk, got {:?}", other),
        })
        .collect();
    assert_eq!(ids, vec!["1".to_string(), "2".to_string(), "3".to_string()]);
}

#[test]
fn timestamp_taken_from_clock() {
    let mut r = FlightResponse::new(true);
    r.current_timestamp = 9;
    feed(&mut r, "1:Tone\n");
    r.current_timestamp = 12;
    feed(&mut r, "2:Ttwo\n");
    match (&r.chunks[0], &r.chunks[1]) {
        (Chunk::Text(a), Chunk::Text(b)) => {
            assert_eq!(a.timestamp, 9);
            assert_eq!(b.timestamp, 12);
        }
        other => panic!("expected two text chunks, got {:?}", other),
    }
}

#[test]
fn unicode_body_preserved() {
    let r = decode_one_shot("1:Thé😀 ok\n");
    match &r.chunks[0] {
        Chunk::Text(c) => assert_eq!(c.value, "hé😀 ok"),
        other => panic!("expected a text chunk, got {:?}", other),
    }
}
