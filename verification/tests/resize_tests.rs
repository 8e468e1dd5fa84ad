use pixly_kernel::errors::IOError;
use pixly_kernel::preprocessing::{
    classify_resize_param, generate_palette, percent_resize, FilterType, PreprocessPipeline, PreprocessStep, ResizeArg,
};

/// A resize argument read as the converter reads it: the library sorts it
/// and, for a percentage, judges the number the caller read.
fn parse_resize_param(s: &str) -> Option<(u32, u32)> {
    match classify_resize_param(s) {
        ResizeArg::Percent(t) => percent_resize(t.parse::<f64>().ok().map(|x| x.to_bits())),
        ResizeArg::Size(d) => d,
    }
}

#[test]
fn test_parse_resize_param() {
    assert_eq!(parse_resize_param("1920x1080"), Some((1920, 1080)));
    assert_eq!(parse_resize_param("1920x"), Some((1920, 0)));
    assert_eq!(parse_resize_param("x1080"), Some((0, 1080)));
    assert_eq!(parse_resize_param("50%"), Some((50, 0)));
    assert_eq!(parse_resize_param("invalid"), None);
}

#[test]
fn resize_percent_edges() {
    assert_eq!(parse_resize_param("200%"), Some((200, 0)));
    assert_eq!(parse_resize_param("200.5%"), None);
    assert_eq!(parse_resize_param("0%"), Some((0, 0)));
    assert_eq!(parse_resize_param("-0%"), Some((0, 0)));
    assert_eq!(parse_resize_param("-1%"), None);
    assert_eq!(parse_resize_param("99.99%"), Some((99, 0)));
    assert_eq!(parse_resize_param("0.5%"), Some((0, 0)));
    assert_eq!(parse_resize_param("12.5%%"), Some((12, 0)));
    assert_eq!(parse_resize_param("abc%"), None);
    assert_eq!(parse_resize_param("NaN%"), None);
    assert_eq!(classify_resize_param("7%%"), ResizeArg::Percent("7".to_string()));
    for k in 0..=200u32 {
        for frac in [0.0f64, 0.25, 0.5, 0.999] {
            let x = k as f64 + frac;
            if x <= 200.0 {
                assert_eq!(percent_resize(Some(x.to_bits())), Some((x as u32, 0)), "for {}", x);
            }
        }
    }
}

#[test]
fn io_error_messages() {
    let e = IOError::FileRead {
        path: "/tmp/a.png".to_string(),
        source: std::io::Error::new(std::io::ErrorKind::NotFound, "gone"),
    };
    assert_eq!(e.message(), "File read failed: /tmp/a.png");
    assert_eq!(e.path(), "/tmp/a.png");
    let e = IOError::DirectoryCreation {
        path: "out".to_string(),
        source: std::io::Error::new(std::io::ErrorKind::Other, "x"),
    };
    assert_eq!(e.message(), "Directory creation failed: out");
}

#[test]
fn pipeline_keeps_steps_in_order() {
    let p = PreprocessPipeline::new()
        .add_step(PreprocessStep::Resize { width: 100, height: 0, filter: FilterType::Lanczos3 })
        .add_step(PreprocessStep::Sharpen { amount_bits: 0.5f32.to_bits() })
        .add_step(PreprocessStep::Auto);
    assert_eq!(
        p.steps(),
        &[
            PreprocessStep::Resize { width: 100, height: 0, filter: FilterType::Lanczos3 },
            PreprocessStep::Sharpen { amount_bits: 0.5f32.to_bits() },
            PreprocessStep::Auto,
        ]
    );
    assert!(PreprocessPipeline::default().steps().is_empty());
}

#[test]
fn palette_from_few_samples_repeats_last() {
    let samples = [[1, 1, 1], [2, 2, 2], [3, 3, 3]];
    assert_eq!(generate_palette(&samples, 5), vec![[1, 1, 1], [2, 2, 2], [3, 3, 3], [3, 3, 3], [3, 3, 3]]);
    assert_eq!(generate_palette(&samples, 2), vec![[1, 1, 1], [2, 2, 2]]);
}
