use coggerator::{
    Args, BigTiffOption, CoggeratorError, CompressionOption, Conversion, Driver, ErrorKind,
    NoDataValue, OverviewsOption, Reply, Request, ResamplingOption, Stage, Step,
};

fn default_args(no_data_value: Option<NoDataValue>) -> Args {
    Args {
        input_path: String::from("/data/in.tif"),
        output_path: String::from("/data/out/cog.tif"),
        no_data_value,
        compression: CompressionOption::LZW,
        big_tiff: BigTiffOption::IfSafer,
        resampling: ResamplingOption::Cubic,
        overviews: OverviewsOption::IgnoreExisting,
    }
}

fn default_pairs() -> Vec<(&'static str, &'static str)> {
    vec![
        ("NUM_THREADS", "ALL_CPUS"),
        ("BLOCKSIZE", "512"),
        ("RESAMPLING", "CUBIC"),
        ("BIGTIFF", "IF_SAFER"),
        ("COMPRESS", "LZW"),
        ("OVERVIEWS", "IGNORE_EXISTING"),
    ]
}

/// A request written out, so that runs can be compared as lists of strings.
fn show(request: &Request) -> String {
    let pairs = |options: &Vec<coggerator::CreationOption>| {
        options.iter().map(|o| format!("{}={}", o.key, o.value)).collect::<Vec<_>>().join(",")
    };
    match request {
        Request::OpenSource { path } => format!("open {}", path),
        Request::FindDriver { driver } => format!("driver {}", driver.name()),
        Request::CreateTempFile => String::from("temp"),
        Request::CopyToIntermediate { driver, options } => {
            format!("prepare {} [{}]", driver.name(), pairs(options))
        }
        Request::CountBands => String::from("count"),
        Request::SetNoData { band, value } => match value {
            Some(v) => format!("mark {} {}", band, f64::from_bits(v.bits)),
            None => format!("mark {} none", band),
        },
        Request::CopyToOutput { driver, path, options } => {
            format!("finalize {} {} [{}]", driver.name(), path, pairs(options))
        }
    }
}

/// Runs a conversion against the replies, in order, until it ends or the
/// replies run out. Gives the requests issued and where the run stands.
fn run(args: Args, replies: Vec<Reply>) -> (Vec<String>, Step) {
    let mut conversion = Conversion::new(args);
    let mut requests = vec![show(&conversion.request())];
    for reply in replies {
        match conversion.step(reply) {
            Step::Continue(next) => {
                requests.push(show(&next.request()));
                conversion = next;
            }
            ended => return (requests, ended),
        }
    }
    (requests, Step::Continue(conversion))
}

fn smooth(bands: isize) -> Vec<Reply> {
    let mut replies = vec![Reply::Done, Reply::Done, Reply::Done, Reply::Done, Reply::Done];
    replies.push(Reply::Bands(bands));
    for _ in 0..bands.max(0) {
        replies.push(Reply::Done);
    }
    replies.push(Reply::Done);
    replies
}

const OPTIONS: &str = "NUM_THREADS=ALL_CPUS,BLOCKSIZE=512,RESAMPLING=CUBIC,BIGTIFF=IF_SAFER,\
                       COMPRESS=LZW,OVERVIEWS=IGNORE_EXISTING";

#[test]
fn the_fixed_and_chosen_options_come_in_order() {
    let options = default_args(None).creation_options();
    let pairs: Vec<(&str, &str)> = options.iter().map(|o| (o.key, o.value)).collect();
    assert_eq!(pairs, default_pairs());

    let args = Args {
        compression: CompressionOption::Uncompressed,
        big_tiff: BigTiffOption::Yes,
        resampling: ResamplingOption::Nearest,
        overviews: OverviewsOption::NoOverviews,
        ..default_args(None)
    };
    let options = args.creation_options();
    let pairs: Vec<(&str, &str)> = options.iter().map(|o| (o.key, o.value)).collect();
    assert_eq!(
        pairs,
        vec![
            ("NUM_THREADS", "ALL_CPUS"),
            ("BLOCKSIZE", "512"),
            ("RESAMPLING", "NEAREST"),
            ("BIGTIFF", "YES"),
            ("COMPRESS", "NONE"),
            ("OVERVIEWS", "NONE"),
        ]
    );
}

#[test]
fn drivers_have_their_names() {
    assert_eq!(Driver::Cog.name(), "COG");
    assert_eq!(Driver::Vrt.name(), "VRT");
}

#[test]
fn a_conversion_starts_by_opening_the_source() {
    let conversion = Conversion::new(default_args(None));
    assert_eq!(conversion.stage, Stage::Opening);
    assert_eq!(show(&conversion.request()), "open /data/in.tif");
}

#[test]
fn three_bands_without_no_data_are_cleared_one_by_one() {
    let (requests, end) = run(default_args(None), smooth(3));
    assert_eq!(
        requests,
        vec![
            String::from("open /data/in.tif"),
            String::from("driver COG"),
            String::from("driver VRT"),
            String::from("temp"),
            format!("prepare VRT [{}]", OPTIONS),
            String::from("count"),
            String::from("mark 1 none"),
            String::from("mark 2 none"),
            String::from("mark 3 none"),
            format!("finalize COG /data/out/cog.tif [{}]", OPTIONS),
        ]
    );
    assert!(matches!(end, Step::Finished(ref path) if path == "/data/out/cog.tif"));
}

#[test]
fn every_band_gets_exactly_the_configured_no_data_value() {
    let value = NoDataValue { bits: (-9999.0f64).to_bits() };
    let mut conversion = Conversion::new(default_args(Some(value)));
    let mut marked = Vec::new();
    let mut replies = smooth(4).into_iter();
    let end = loop {
        if let Request::SetNoData { band, value } = conversion.request() {
            marked.push((band, value.map(|v| f64::from_bits(v.bits))));
        }
        match conversion.step(replies.next().unwrap()) {
            Step::Continue(next) => conversion = next,
            ended => break ended,
        }
    };
    assert_eq!(
        marked,
        vec![(1, Some(-9999.0)), (2, Some(-9999.0)), (3, Some(-9999.0)), (4, Some(-9999.0))]
    );
    assert!(matches!(end, Step::Finished(_)));
    assert!(replies.next().is_none());
}

#[test]
fn one_band_is_marked_once() {
    let (requests, end) = run(default_args(None), smooth(1));
    assert_eq!(requests.len(), 8);
    assert_eq!(requests[6], "mark 1 none");
    assert!(requests[7].starts_with("finalize COG "));
    assert!(matches!(end, Step::Finished(_)));
}

#[test]
fn no_bands_go_straight_to_the_final_copy() {
    for bands in [0, -1, isize::MIN] {
        let replies = vec![
            Reply::Done,
            Reply::Done,
            Reply::Done,
            Reply::Done,
            Reply::Done,
            Reply::Bands(bands),
            Reply::Done,
        ];
        let (requests, end) = run(default_args(None), replies);
        assert_eq!(requests.len(), 7);
        assert_eq!(requests[5], "count");
        assert_eq!(requests[6], format!("finalize COG /data/out/cog.tif [{}]", OPTIONS));
        assert!(matches!(end, Step::Finished(ref path) if path == "/data/out/cog.tif"));
    }
}

#[test]
fn the_last_band_may_be_the_largest_index() {
    let conversion = Conversion {
        args: default_args(None),
        stage: Stage::Marking { band: isize::MAX - 1, count: isize::MAX },
    };
    let next = match conversion.step(Reply::Done) {
        Step::Continue(next) => next,
        other => panic!("ended early: {:?}", other),
    };
    assert_eq!(next.stage, Stage::Marking { band: isize::MAX, count: isize::MAX });
    let next = match next.step(Reply::Done) {
        Step::Continue(next) => next,
        other => panic!("ended early: {:?}", other),
    };
    assert_eq!(next.stage, Stage::Finalizing);
}

#[test]
fn an_engine_failure_ends_the_run_at_every_stage() {
    for at in 0..10 {
        let mut replies = smooth(3);
        replies.truncate(at);
        replies.push(Reply::EngineFailed(format!("broke at {}", at)));
        replies.push(Reply::Done);
        let (requests, end) = run(default_args(None), replies);
        assert_eq!(requests.len(), at + 1);
        match end {
            Step::Failed(e) => {
                assert_eq!(e.kind(), ErrorKind::Engine);
                assert_eq!(e.detail(), format!("broke at {}", at));
                assert_eq!(e.to_string(), format!("GDAL error: broke at {}", at));
            }
            other => panic!("not failed: {:?}", other),
        }
    }
}

#[test]
fn an_io_failure_ends_the_run_with_an_io_error() {
    let replies = vec![
        Reply::Done,
        Reply::Done,
        Reply::Done,
        Reply::IoFailed(String::from("no space left")),
    ];
    let (requests, end) = run(default_args(None), replies);
    assert_eq!(
        requests,
        vec![
            String::from("open /data/in.tif"),
            String::from("driver COG"),
            String::from("driver VRT"),
            String::from("temp"),
        ]
    );
    assert!(matches!(end, Step::Failed(CoggeratorError::IoError(ref why)) if why == "no space left"));
}

#[test]
fn a_reply_of_the_wrong_shape_ends_the_run() {
    // A band count where none was asked for.
    let (requests, end) = run(default_args(None), vec![Reply::Done, Reply::Bands(3)]);
    assert_eq!(requests.len(), 2);
    match end {
        Step::Failed(e) => {
            assert_eq!(e.kind(), ErrorKind::Engine);
            assert_eq!(e.detail(), "Unexpected reply from the raster engine");
        }
        other => panic!("not failed: {:?}", other),
    }
    // No band count where one was asked for.
    let replies =
        vec![Reply::Done, Reply::Done, Reply::Done, Reply::Done, Reply::Done, Reply::Done];
    let (requests, end) = run(default_args(None), replies);
    assert_eq!(requests.len(), 6);
    match end {
        Step::Failed(e) => {
            assert_eq!(e.kind(), ErrorKind::Engine);
            assert_eq!(e.detail(), "Unexpected reply from the raster engine");
        }
        other => panic!("not failed: {:?}", other),
    }
}

#[test]
fn both_copies_are_made_with_the_same_options() {
    let args = Args {
        compression: CompressionOption::Deflate,
        resampling: ResamplingOption::Average,
        ..default_args(None)
    };
    let (requests, _) = run(args, smooth(2));
    let first = requests[4].strip_prefix("prepare VRT ").unwrap();
    let second = requests[8].strip_prefix("finalize COG /data/out/cog.tif ").unwrap();
    assert_eq!(first, second);
    assert_eq!(
        first,
        "[NUM_THREADS=ALL_CPUS,BLOCKSIZE=512,RESAMPLING=AVERAGE,BIGTIFF=IF_SAFER,\
         COMPRESS=DEFLATE,OVERVIEWS=IGNORE_EXISTING]"
    );
}

#[test]
fn two_conversions_do_not_touch_each_other() {
    let a = Args { output_path: String::from("/out/a.tif"), ..default_args(None) };
    let b = Args {
        output_path: String::from("/out/b.tif"),
        ..default_args(Some(NoDataValue { bits: 0f64.to_bits() }))
    };
    let mut ca = Conversion::new(a);
    let mut cb = Conversion::new(b);
    let mut ra = smooth(1).into_iter();
    let mut rb = smooth(2).into_iter();
    let mut ends = Vec::new();
    // Interleave the two runs reply by reply.
    loop {
        let mut moved = false;
        if ends.iter().all(|(who, _)| *who != 'a') {
            moved = true;
            match ca.step(ra.next().unwrap()) {
                Step::Continue(next) => ca = next,
                Step::Finished(path) => {
                    ends.push(('a', path));
                    ca = Conversion::new(default_args(None));
                }
                Step::Failed(e) => panic!("{}", e.to_string()),
            }
        }
        if ends.iter().all(|(who, _)| *who != 'b') {
            moved = true;
            match cb.step(rb.next().unwrap()) {
                Step::Continue(next) => cb = next,
                Step::Finished(path) => {
                    ends.push(('b', path));
                    cb = Conversion::new(default_args(None));
                }
                Step::Failed(e) => panic!("{}", e.to_string()),
            }
        }
        if !moved {
            break;
        }
    }
    assert_eq!(ends, vec![('a', String::from("/out/a.tif")), ('b', String::from("/out/b.tif"))]);
}
