use stream_adapter::adapter::round_trip_writer;
use stream_adapter::JsonSerializer;
use stream_adapter::WriteAdapter;

#[test]
fn serializer_round_trip_is_noop() {
    let sink: Vec<u8> = vec![b'x', b'y'];
    let back = round_trip_writer::<Vec<u8>, JsonSerializer>(sink);
    assert_eq!(back, vec![b'x', b'y']);
}

#[test]
fn default_try_agrees_with_plain_unwrap_on_serializer() {
    let plain = JsonSerializer::wrap(vec![1, 2, 3]).into_inner();
    let tried = JsonSerializer::wrap(vec![1, 2, 3])
        .try_into_inner()
        .ok()
        .expect("serializer teardown cannot fail");
    assert_eq!(plain, tried);
}

#[test]
fn encoded_record_is_exactly_what_reaches_the_sink() {
    let mut s = JsonSerializer::wrap(Vec::new());
    s.write_entry("key", "value");
    let sink = s.into_inner();
    assert_eq!(sink, b"{\"key\":\"value\"}".to_vec());
}

#[test]
fn encoded_records_append_in_order() {
    let mut s = JsonSerializer::wrap(Vec::new());
    s.write_entry("a", "1");
    s.write_entry("b", "2");
    let sink = s.into_inner();
    assert_eq!(sink, b"{\"a\":\"1\"}{\"b\":\"2\"}".to_vec());
}

#[test]
fn encoder_leaves_prior_sink_content_in_place() {
    let mut s = JsonSerializer::wrap(b"head:".to_vec());
    s.write_entry("k", "v");
    let sink = s.into_inner();
    assert_eq!(sink, b"head:{\"k\":\"v\"}".to_vec());
}
