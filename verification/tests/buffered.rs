use stream_adapter::adapter::round_trip_reader;
use stream_adapter::adapter::round_trip_writer;
use stream_adapter::adapter::try_round_trip_reader;
use stream_adapter::adapter::try_round_trip_writer;
use stream_adapter::BufReader;
use stream_adapter::BufWriter;
use stream_adapter::ByteReader;
use stream_adapter::ByteWriter;
use stream_adapter::MemSource;
use stream_adapter::QuotaSink;
use stream_adapter::ReadAdapter;
use stream_adapter::WriteAdapter;

#[test]
fn writer_round_trip_is_noop() {
    let sink: Vec<u8> = vec![10, 20, 30];
    let back = round_trip_writer::<Vec<u8>, BufWriter<Vec<u8>>>(sink);
    assert_eq!(back, vec![10, 20, 30]);
}

#[test]
fn writer_try_round_trip_is_noop() {
    let sink: Vec<u8> = vec![1, 2];
    let r = try_round_trip_writer::<Vec<u8>, BufWriter<Vec<u8>>>(sink);
    match r {
        Ok(back) => assert_eq!(back, vec![1, 2]),
        Err(_) => panic!("teardown of a fresh buffered writer cannot fail"),
    }
}

#[test]
fn reader_round_trip_is_noop() {
    let source = MemSource::new(vec![5, 6, 7]);
    let mut back = round_trip_reader::<MemSource, BufReader<MemSource>>(source);
    assert_eq!(back.read_byte(), Some(5));
    assert_eq!(back.read_byte(), Some(6));
    assert_eq!(back.read_byte(), Some(7));
    assert_eq!(back.read_byte(), None);
}

#[test]
fn reader_try_round_trip_is_noop() {
    let source = MemSource::new(vec![9]);
    let r = try_round_trip_reader::<MemSource, BufReader<MemSource>>(source);
    match r {
        Ok(mut back) => {
            assert_eq!(back.read_byte(), Some(9));
            assert_eq!(back.read_byte(), None);
        },
        Err(_) => panic!("teardown of a fresh buffered reader cannot fail"),
    }
}

#[test]
fn default_try_agrees_with_plain_unwrap_on_reader() {
    let mut plain = BufReader::<MemSource>::wrap(MemSource::new(vec![1, 2, 3])).into_inner();
    let mut tried = BufReader::<MemSource>::wrap(MemSource::new(vec![1, 2, 3]))
        .try_into_inner()
        .ok()
        .expect("buffered-reader teardown cannot fail");
    loop {
        let a = plain.read_byte();
        let b = tried.read_byte();
        assert_eq!(a, b);
        if a.is_none() {
            break;
        }
    }
}

#[test]
fn buffered_writes_all_arrive_in_order() {
    let mut w = BufWriter::with_capacity(Vec::new(), 4);
    assert!(w.write_all(&[1, 2, 3]).is_ok());
    assert!(w.write_all(&[4, 5, 6]).is_ok());
    assert!(w.write_all(&[7, 8]).is_ok());
    let sink = w.into_inner();
    assert_eq!(sink, vec![1, 2, 3, 4, 5, 6, 7, 8]);
}

#[test]
fn write_past_threshold_reaches_sink_on_unwrap() {
    let mut w = BufWriter::with_capacity(Vec::new(), 4);
    let data: Vec<u8> = (0..10).collect();
    assert!(w.write_all(&data).is_ok());
    let sink = w.into_inner();
    assert_eq!(sink, (0..10).collect::<Vec<u8>>());
}

#[test]
fn small_writes_stay_pending_until_flush() {
    let mut w = BufWriter::with_capacity(Vec::new(), 8);
    assert!(w.write_all(&[1, 2, 3]).is_ok());
    assert_eq!(w.inner, Vec::<u8>::new());
    assert_eq!(w.buf, vec![1, 2, 3]);
    assert!(w.flush().is_ok());
    assert_eq!(w.inner, vec![1, 2, 3]);
    assert_eq!(w.buf, Vec::<u8>::new());
}

#[test]
fn internal_flush_failure_carries_sink_cause() {
    let sink = QuotaSink::new(1, 42);
    let mut w = BufWriter::with_capacity(sink, 4);
    let r = w.write_all(&[1, 2, 3, 4, 5, 6]);
    match r {
        Ok(()) => panic!("the sink refuses its first write"),
        Err(e) => assert_eq!(e.code(), 42),
    }
}

#[test]
fn failed_unwrap_returns_adapter_and_cause() {
    let sink = QuotaSink::new(1, 7);
    let mut w = BufWriter::with_capacity(sink, 8);
    assert!(w.write_all(&[1, 2, 3]).is_ok());
    match w.try_into_inner() {
        Ok(_) => panic!("the sink refuses the flush"),
        Err(e) => {
            assert_eq!(e.cause.code(), 7);
            assert_eq!(e.adapter.buf, vec![1, 2, 3]);
            assert_eq!(e.adapter.inner.received().as_slice(), &[] as &[u8]);
        },
    }
}

#[test]
fn quota_sink_accepts_until_its_quota() {
    let mut sink = QuotaSink::new(3, 9);
    assert!(sink.write_all(&[1]).is_ok());
    assert!(sink.write_all(&[2, 3]).is_ok());
    let r = sink.write_all(&[4]);
    match r {
        Ok(()) => panic!("the third write must fail"),
        Err(e) => assert_eq!(e.code(), 9),
    }
    assert_eq!(sink.received().as_slice(), &[1, 2, 3]);
}

#[test]
fn reader_refills_across_chunks() {
    let source = MemSource::new(vec![11, 12, 13, 14, 15]);
    let mut r = BufReader::with_capacity(source, 2);
    for expected in [11, 12, 13, 14, 15] {
        assert_eq!(r.read_byte(), Some(expected));
    }
    assert_eq!(r.read_byte(), None);
    assert_eq!(r.read_byte(), None);
}

#[test]
fn reader_unwrap_discards_buffered_tail() {
    let source = MemSource::new(vec![1, 2, 3, 4]);
    let mut r = BufReader::with_capacity(source, 2);
    assert_eq!(r.read_byte(), Some(1));
    let mut back = r.into_inner();
    assert_eq!(back.read_byte(), Some(3));
    assert_eq!(back.read_byte(), Some(4));
    assert_eq!(back.read_byte(), None);
}

#[test]
fn empty_sink_round_trip_stays_empty() {
    let back = round_trip_writer::<Vec<u8>, BufWriter<Vec<u8>>>(Vec::new());
    assert_eq!(back, Vec::<u8>::new());
}

#[test]
fn empty_source_reads_nothing() {
    let source = MemSource::new(Vec::new());
    let mut r = BufReader::<MemSource>::wrap(source);
    assert_eq!(r.read_byte(), None);
}

#[test]
fn empty_write_changes_nothing() {
    let mut w = BufWriter::with_capacity(vec![9], 4);
    assert!(w.write_all(&[]).is_ok());
    assert!(w.flush().is_ok());
    assert_eq!(w.into_inner(), vec![9]);
}

#[test]
fn teardown_fails_after_refused_internal_flush() {
    let sink = QuotaSink::new(1, 5);
    let mut w = BufWriter::with_capacity(sink, 2);
    assert!(w.write_all(&[1, 2]).is_ok());
    let refused = w.write_all(&[3]);
    match refused {
        Ok(()) => panic!("the overflow flush hits the refusing sink"),
        Err(e) => assert_eq!(e.code(), 5),
    }
    match w.try_into_inner() {
        Ok(_) => panic!("the pending bytes still cannot be flushed"),
        Err(e) => {
            assert_eq!(e.cause.code(), 5);
            assert_eq!(e.adapter.buf, vec![1, 2]);
            assert_eq!(e.adapter.inner.received().as_slice(), &[] as &[u8]);
        },
    }
}

#[test]
fn overflow_write_delivers_buffer_and_data_at_once() {
    let sink = QuotaSink::new(2, 9);
    let mut w = BufWriter::with_capacity(sink, 2);
    assert!(w.write_all(&[1, 2]).is_ok());
    assert!(w.write_all(&[3]).is_ok());
    assert_eq!(w.inner.received().as_slice(), &[1, 2, 3]);
    assert_eq!(w.buf, Vec::<u8>::new());
    assert_eq!(w.inner.writes_done, 1);
}
