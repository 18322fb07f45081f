use image::{DynamicImage, ImageOutputFormat, Rgb, RgbImage};
use image_compressor::batch::{settle, settle_item, BatchRun, ItemReport};
use image_compressor::compress::CompressionStats;
use image_compressor::error::{ErrorKind, PipelineError};
use image_compressor::pipeline::{
    process_directory, process_image, process_single_image, DirEntry, Step, TransformOutcome,
};
use std::io::Cursor;

fn encoded(format: ImageOutputFormat) -> Vec<u8> {
    let img = DynamicImage::ImageRgb8(RgbImage::from_fn(24, 16, |x, y| {
        Rgb([(x * 7 % 256) as u8, (y * 13 % 256) as u8, ((x + y) % 256) as u8])
    }));
    let mut out = Cursor::new(Vec::new());
    img.write_to(&mut out, format).unwrap();
    out.into_inner()
}

fn content(path: &str) -> Vec<u8> {
    if path.ends_with(".png") {
        encoded(ImageOutputFormat::Png)
    } else if path.ends_with(".jpg") {
        encoded(ImageOutputFormat::Jpeg(90))
    } else if path.ends_with(".gif") {
        encoded(ImageOutputFormat::Gif)
    } else {
        b"no image".to_vec()
    }
}

/// Stands for the caller: nothing is written, and every write succeeds.
fn written(step: &Step) -> Result<u64, PipelineError> {
    match step {
        Step::Write { bytes, .. } => Ok(bytes.len() as u64),
        Step::Encode { .. } => Ok(7),
        Step::Fail(_) => Ok(0),
    }
}

fn run_over(listing: &[&str], output_dir: Option<&str>) -> Vec<TransformOutcome> {
    let entries: Vec<DirEntry> =
        listing.iter().map(|p| DirEntry { path: p.to_string(), is_file: true }).collect();
    let plan = process_directory("pics", &entries, output_dir).unwrap();
    let batch_dir = plan.batch_dir.clone();
    let mut run = BatchRun::new(plan.items);
    while let Some(input) = run.current().map(|p| p.to_string()) {
        let steps = process_single_image(&input, &content(&input), output_dir, batch_dir.as_deref(), None, None, false, 75);
        let report = ItemReport {
            resize: steps.resize.as_ref().map_or(Ok(0), written),
            transform: written(&steps.transform),
        };
        assert!(run.record(steps, report));
    }
    run.into_outcomes()
}

fn is_success_at(outcome: &TransformOutcome, path: &str) -> bool {
    matches!(outcome, TransformOutcome::Success { output_path, stats: Some(_) } if output_path == path)
}

fn is_unsupported(outcome: &TransformOutcome, path: &str) -> bool {
    matches!(outcome, TransformOutcome::Failure { input_path, error }
        if input_path == path && error.kind == ErrorKind::UnsupportedFormat)
}

#[test]
fn a_run_gives_one_outcome_for_each_file() {
    let outcomes = run_over(&["pics/a.png", "pics/b.gif", "pics/c.jpg"], Some("out"));
    assert_eq!(outcomes.len(), 3);
    assert!(is_success_at(&outcomes[0], "out/pics/a_compressed.png"));
    assert!(is_unsupported(&outcomes[1], "pics/b.gif"));
    assert!(is_success_at(&outcomes[2], "out/pics/c_compressed.jpg"));
}

#[test]
fn an_unsupported_file_stops_nothing_wherever_it_stands() {
    let orders = [
        ["pics/b.gif", "pics/a.png", "pics/c.jpg"],
        ["pics/a.png", "pics/b.gif", "pics/c.jpg"],
        ["pics/a.png", "pics/c.jpg", "pics/b.gif"],
        ["pics/c.jpg", "pics/b.gif", "pics/a.png"],
    ];
    for order in orders {
        let outcomes = run_over(&order, None);
        assert_eq!(outcomes.len(), 3);
        for (path, outcome) in order.iter().zip(&outcomes) {
            match *path {
                "pics/b.gif" => assert!(is_unsupported(outcome, path)),
                "pics/a.png" => assert!(is_success_at(outcome, "pics/a_compressed.png")),
                _ => assert!(is_success_at(outcome, "pics/c_compressed.jpg")),
            }
        }
        let unsupported = outcomes.iter().filter(|o| matches!(o, TransformOutcome::Failure { .. })).count();
        assert_eq!(unsupported, 1);
    }
}

#[test]
fn a_run_of_broken_files_still_closes_every_file() {
    let outcomes = run_over(&["pics/x.txt", "pics/noext", "pics/y.png"], Some("out"));
    assert_eq!(outcomes.len(), 3);
    assert!(matches!(&outcomes[0], TransformOutcome::Failure { input_path, error }
        if input_path == "pics/x.txt" && error.kind == ErrorKind::Decode));
    assert!(matches!(&outcomes[1], TransformOutcome::Failure { input_path, error }
        if input_path == "pics/noext" && error.kind == ErrorKind::Decode));
    assert!(is_success_at(&outcomes[2], "out/pics/y_compressed.png"));
}

#[test]
fn an_empty_run_is_done_at_once() {
    let mut run = BatchRun::new(Vec::new());
    assert_eq!(run.current(), None);
    assert!(run.last_outcome().is_none());
    let steps = process_single_image("a.png", &content("a.png"), None, None, None, None, false, 75);
    assert!(!run.record(steps, ItemReport { resize: Ok(0), transform: Ok(0) }));
    assert!(!run.record_failure(PipelineError { kind: ErrorKind::Io, reason: String::new() }));
    assert!(run.into_outcomes().is_empty());
}

#[test]
fn the_run_goes_through_the_files_in_order() {
    let mut run = BatchRun::new(vec!["one.png".to_string(), "two.png".to_string()]);
    assert_eq!(run.current(), Some("one.png"));
    assert!(run.record_failure(PipelineError { kind: ErrorKind::Io, reason: "gone".to_string() }));
    assert!(matches!(run.last_outcome(), Some(TransformOutcome::Failure { input_path, error })
        if input_path == "one.png" && error.kind == ErrorKind::Io && error.reason == "gone"));
    assert_eq!(run.current(), Some("two.png"));
    let steps = process_single_image("two.png", &content("two.png"), None, None, None, None, true, 75);
    assert!(run.record(steps, ItemReport { resize: Ok(0), transform: Ok(123) }));
    assert!(matches!(run.last_outcome(), Some(TransformOutcome::Success { output_path, stats: Some(s) })
        if output_path == "two.webp" && s.output_size == 123));
    assert_eq!(run.current(), None);
    assert_eq!(run.into_outcomes().len(), 2);
}

#[test]
fn a_failed_write_fails_the_item() {
    let source = content("a.png");
    let step = process_image("a.png", &source, None, None, false, 75);
    let error = PipelineError { kind: ErrorKind::Io, reason: "disk full".to_string() };
    match settle("a.png", step, Err(error)) {
        TransformOutcome::Failure { input_path, error } => {
            assert_eq!(input_path, "a.png");
            assert_eq!(error.kind, ErrorKind::Io);
            assert_eq!(error.reason, "disk full");
        }
        _ => panic!("the write failed"),
    }
}

#[test]
fn settle_reports_the_length_written() {
    let source = content("a.png");
    let step = process_image("a.png", &source, None, None, false, 75);
    match settle("a.png", step, Ok(55)) {
        TransformOutcome::Success { output_path, stats } => {
            assert_eq!(output_path, "a_compressed.png");
            assert_eq!(stats, Some(CompressionStats { input_size: source.len() as u64, output_size: 55 }));
        }
        _ => panic!("the write succeeded"),
    }
    // a failed step stays a failure whatever is reported
    let step = process_image("a.png", b"junk", None, None, false, 75);
    assert!(matches!(settle("a.png", step, Ok(55)), TransformOutcome::Failure { error, .. } if error.kind == ErrorKind::Decode));
}

#[test]
fn settle_item_takes_the_failure_of_the_resized_copy_first() {
    let source = content("a.png");
    let steps = process_single_image("a.png", &source, None, None, Some(4), None, false, 75);
    let report = ItemReport { resize: Ok(10), transform: Ok(20) };
    assert!(matches!(settle_item("a.png", steps, report), TransformOutcome::Success { output_path, stats: Some(s) }
        if output_path == "a_compressed.png" && s.output_size == 20));
    let steps = process_single_image("a.png", &source, None, None, Some(4), None, false, 75);
    let report = ItemReport {
        resize: Err(PipelineError { kind: ErrorKind::Io, reason: "no space".to_string() }),
        transform: Ok(20),
    };
    assert!(matches!(settle_item("a.png", steps, report), TransformOutcome::Failure { error, .. } if error.kind == ErrorKind::Io));
}
