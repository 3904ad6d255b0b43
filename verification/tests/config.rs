use coggerator::{
    Args, BigTiffOption, CoggeratorError, CompressionOption, ErrorKind, NoDataValue,
    OverviewsOption, PathProbes, Probe, ResamplingOption,
};

fn found() -> PathProbes {
    PathProbes { input: Probe::Found, output_parent: Some(Probe::Found) }
}

fn validate(
    compression: Option<&str>,
    big_tiff: Option<&str>,
    resampling: Option<&str>,
    overviews: Option<&str>,
    probes: PathProbes,
) -> Result<Args, CoggeratorError> {
    Args::new(
        String::from("/data/in.tif"),
        String::from("/data/out/cog.tif"),
        None,
        compression,
        big_tiff,
        resampling,
        overviews,
        probes,
    )
}

#[test]
fn omitted_tokens_give_the_defaults() {
    let args = validate(None, None, None, None, found()).unwrap();
    assert_eq!(args.input_path, "/data/in.tif");
    assert_eq!(args.output_path, "/data/out/cog.tif");
    assert_eq!(args.no_data_value, None);
    assert_eq!(args.compression, CompressionOption::LZW);
    assert_eq!(args.big_tiff, BigTiffOption::IfSafer);
    assert_eq!(args.resampling, ResamplingOption::Cubic);
    assert_eq!(args.overviews, OverviewsOption::IgnoreExisting);
}

#[test]
fn each_omitted_token_defaults_on_its_own() {
    let args = validate(Some("ZSTD"), Some("YES"), None, Some("AUTO"), found()).unwrap();
    assert_eq!(args.compression, CompressionOption::ZSTD);
    assert_eq!(args.big_tiff, BigTiffOption::Yes);
    assert_eq!(args.resampling, ResamplingOption::Cubic);
    assert_eq!(args.overviews, OverviewsOption::Auto);

    let args = validate(None, Some("NO"), Some("RMS"), None, found()).unwrap();
    assert_eq!(args.compression, CompressionOption::LZW);
    assert_eq!(args.big_tiff, BigTiffOption::No);
    assert_eq!(args.resampling, ResamplingOption::RMS);
    assert_eq!(args.overviews, OverviewsOption::IgnoreExisting);
}

#[test]
fn given_tokens_are_taken_as_given() {
    let args = Args::new(
        String::from("a"),
        String::from("b/c"),
        Some(NoDataValue { bits: (-9999.0f64).to_bits() }),
        Some("LERC_ZSTD"),
        Some("IF_NEEDED"),
        Some("LANCZOS"),
        Some("NONE"),
        found(),
    )
    .unwrap();
    assert_eq!(args.input_path, "a");
    assert_eq!(args.output_path, "b/c");
    assert_eq!(args.no_data_value, Some(NoDataValue { bits: 0xC0C3_8780_0000_0000 }));
    assert_eq!(f64::from_bits(args.no_data_value.unwrap().bits), -9999.0);
    assert_eq!(args.compression, CompressionOption::LERCZSTD);
    assert_eq!(args.big_tiff, BigTiffOption::IfNeeded);
    assert_eq!(args.resampling, ResamplingOption::Lanczos);
    assert_eq!(args.overviews, OverviewsOption::NoOverviews);
}

#[test]
fn a_missing_input_is_a_path_error_whatever_else_is_given() {
    let others = vec![
        Some(Probe::Found),
        Some(Probe::Missing),
        Some(Probe::Failed(String::from("denied"))),
        None,
    ];
    for output_parent in others {
        let probes = PathProbes { input: Probe::Missing, output_parent };
        let e = validate(Some("INVALID"), Some("INVALID"), None, Some("AUTO"), probes).unwrap_err();
        assert_eq!(e.kind(), ErrorKind::Path);
        assert_eq!(e.detail(), "Input path does not exist: /data/in.tif");
        assert_eq!(e.to_string(), "Path error: Input path does not exist: /data/in.tif");
    }
}

#[test]
fn a_missing_output_parent_is_a_path_error_even_with_a_valid_input() {
    let probes = PathProbes { input: Probe::Found, output_parent: Some(Probe::Missing) };
    let e = validate(None, None, None, None, probes).unwrap_err();
    assert_eq!(e.kind(), ErrorKind::Path);
    assert_eq!(e.detail(), "Output path parent does not exist");

    let probes = PathProbes { input: Probe::Found, output_parent: Some(Probe::Missing) };
    let e = validate(Some("INVALID"), None, None, None, probes).unwrap_err();
    assert_eq!(e.kind(), ErrorKind::Path);
}

#[test]
fn an_output_without_parent_is_a_path_error() {
    let probes = PathProbes { input: Probe::Found, output_parent: None };
    let e = validate(None, None, None, None, probes).unwrap_err();
    assert_eq!(e.kind(), ErrorKind::Path);
    assert_eq!(e.detail(), "Output path has no parent directory");
    assert_eq!(e.to_string(), "Path error: Output path has no parent directory");
}

#[test]
fn a_failed_query_is_an_io_error() {
    let probes = PathProbes {
        input: Probe::Failed(String::from("permission denied")),
        output_parent: Some(Probe::Found),
    };
    let e = validate(None, None, None, None, probes).unwrap_err();
    assert_eq!(e.kind(), ErrorKind::Io);
    assert_eq!(e.detail(), "permission denied");
    assert_eq!(e.to_string(), "IO error: permission denied");

    let probes = PathProbes {
        input: Probe::Found,
        output_parent: Some(Probe::Failed(String::from("stale handle"))),
    };
    let e = validate(Some("INVALID"), None, None, None, probes).unwrap_err();
    assert_eq!(e.kind(), ErrorKind::Io);
    assert_eq!(e.detail(), "stale handle");
}

#[test]
fn the_first_invalid_token_decides_the_error() {
    let e = validate(Some("A"), Some("B"), Some("C"), Some("D"), found()).unwrap_err();
    assert!(matches!(e, CoggeratorError::InvalidCompressionOption(ref t) if t == "A"));

    let e = validate(Some("LZW"), Some("B"), Some("C"), Some("D"), found()).unwrap_err();
    assert!(matches!(e, CoggeratorError::InvalidBigTiffOption(ref t) if t == "B"));

    let e = validate(None, None, Some("C"), Some("D"), found()).unwrap_err();
    assert!(matches!(e, CoggeratorError::InvalidResamplingOption(ref t) if t == "C"));

    let e = validate(None, Some("YES"), Some("MODE"), Some("D"), found()).unwrap_err();
    assert!(matches!(e, CoggeratorError::InvalidOverviewsOption(ref t) if t == "D"));
}

#[test]
fn paths_are_checked_before_tokens() {
    let probes = PathProbes { input: Probe::Found, output_parent: None };
    let e = validate(Some("INVALID"), None, None, None, probes).unwrap_err();
    assert_eq!(e.kind(), ErrorKind::Path);
}
