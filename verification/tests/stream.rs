use cubeb::{
    channel_layout_query_result, DefaultParamsProgress, Error, ErrorKind, Layout, RawStreamParams,
    SampleFormat, StreamParams,
};

#[test]
fn new_stores_raw_values() {
    let p = StreamParams::new(SampleFormat::Float32LittleEndian, 48000, 2, Layout::Stereo);
    assert_eq!(
        p.raw(),
        RawStreamParams { format: 2, rate: 48000, channels: 2, layout: 5 }
    );
    let q = StreamParams::new(SampleFormat::Signed16BigEndian, 44100, 6, Layout::Front3Surround2LFE);
    assert_eq!(
        q.raw(),
        RawStreamParams { format: 1, rate: 44100, channels: 6, layout: 16 }
    );
}

#[test]
fn default_with_all_queries_answered() {
    let p = StreamParams::default(SampleFormat::Signed16LittleEndian, Ok(44100), Ok(2), Ok(Layout::Stereo))
        .unwrap();
    assert_eq!(
        p.raw(),
        RawStreamParams { format: 0, rate: 44100, channels: 2, layout: 5 }
    );
}

#[test]
fn default_reports_first_failed_query() {
    let e1 = Error::Cubeb(ErrorKind::General);
    let e2 = Error::Cubeb(ErrorKind::NotSupported);
    let e3 = Error::Cubeb(ErrorKind::DeviceUnavailable);
    let f = SampleFormat::Float32LittleEndian;
    assert_eq!(StreamParams::default(f, Err(e1), Err(e2), Err(e3)).unwrap_err(), e1);
    assert_eq!(StreamParams::default(f, Ok(48000), Err(e2), Err(e3)).unwrap_err(), e2);
    assert_eq!(StreamParams::default(f, Ok(48000), Ok(2), Err(e3)).unwrap_err(), e3);
    assert_eq!(StreamParams::default(f, Err(e1), Ok(2), Ok(Layout::Mono)).unwrap_err(), e1);
}

#[test]
fn channel_layout_query_decodes_layout() {
    assert_eq!(channel_layout_query_result(0, 5), Ok(Layout::Stereo));
    assert_eq!(channel_layout_query_result(0, 0), Ok(Layout::Undefined));
    assert_eq!(channel_layout_query_result(0, 18), Ok(Layout::Front3Surround4LFE));
    assert_eq!(
        channel_layout_query_result(-4, 5),
        Err(Error::Cubeb(ErrorKind::NotSupported))
    );
    assert_eq!(
        channel_layout_query_result(-1, 12345),
        Err(Error::Cubeb(ErrorKind::General))
    );
}

#[test]
fn progress_asks_all_queries_in_order() {
    let p = DefaultParamsProgress::start();
    assert!(matches!(p, DefaultParamsProgress::NeedSampleRate));
    let p = p.sample_rate_answered(Ok(48000));
    assert!(matches!(p, DefaultParamsProgress::NeedMaxChannelCount { rate: 48000 }));
    let p = p.max_channel_count_answered(Ok(2));
    assert!(matches!(p, DefaultParamsProgress::NeedChannelLayout { rate: 48000, channels: 2 }));
    let p = p.channel_layout_answered(SampleFormat::Float32LittleEndian, Ok(Layout::Stereo));
    match p {
        DefaultParamsProgress::Done(Ok(params)) => assert_eq!(
            params.raw(),
            RawStreamParams { format: 2, rate: 48000, channels: 2, layout: 5 }
        ),
        _ => panic!("gathering should have ended with parameters"),
    }
}

#[test]
fn progress_stops_at_first_failure() {
    let e = Error::Cubeb(ErrorKind::NotSupported);
    let p = DefaultParamsProgress::start().sample_rate_answered(Err(e));
    assert!(matches!(p, DefaultParamsProgress::Done(Err(x)) if x == e));
    let p = DefaultParamsProgress::start()
        .sample_rate_answered(Ok(44100))
        .max_channel_count_answered(Err(e));
    assert!(matches!(p, DefaultParamsProgress::Done(Err(x)) if x == e));
    let p = DefaultParamsProgress::start()
        .sample_rate_answered(Ok(44100))
        .max_channel_count_answered(Ok(6))
        .channel_layout_answered(SampleFormat::Signed16LittleEndian, Err(e));
    assert!(matches!(p, DefaultParamsProgress::Done(Err(x)) if x == e));
}
