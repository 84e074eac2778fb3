use ckbdev::extract::{
    classify, classify_ends, extract_file, extract_window, head_scan, is_log_file_name, tail_probe,
    Classification, TimeWindow,
};
use ckbdev::stamp::{line_stamp, Instant, Stamp};
use ckbdev::error::Error;

fn at(hm: &str, msg: &str) -> String {
    format!("2021-03-04 {}:00.123 +08:00 {}", hm, msg)
}

fn instant(hm: &str) -> Instant {
    match line_stamp(&at(hm, "probe")) {
        Stamp::At(t) => t,
        other => panic!("no instant in probe line: {:?}", other),
    }
}

fn window(from: &str, to: &str) -> TimeWindow {
    TimeWindow { start: instant(from), end: instant(to) }
}

fn lines(v: &[&str]) -> Vec<String> {
    v.iter().map(|s| s.to_string()).collect()
}

#[test]
fn stamp_reads_seconds_and_offset() {
    assert_eq!(
        line_stamp("1970-01-01 00:00:10.5 +00:00 hello"),
        Stamp::At(Instant { secs: 10, nanos: 500_000_000 })
    );
    assert_eq!(
        line_stamp("1970-01-01 01:00:10.5 +01:00 hello"),
        Stamp::At(Instant { secs: 10, nanos: 500_000_000 })
    );
    assert_eq!(
        line_stamp("1970-01-01 00:00:10.123 +00:00 hello"),
        Stamp::At(Instant { secs: 10, nanos: 123_000_000 })
    );
    assert_eq!(
        line_stamp("1970-01-01 00:00:10 +00:00 hello"),
        Stamp::At(Instant { secs: 10, nanos: 0 })
    );
    assert_eq!(
        line_stamp("2020-01-01 00:00:00.000 +00:00 x"),
        Stamp::At(Instant { secs: 1577836800, nanos: 0 })
    );
}

#[test]
fn stamp_grammar_shapes() {
    assert_eq!(line_stamp("2020-01-01 00:00:00.1234 +00:00 x"), Stamp::Plain);
    assert_eq!(
        line_stamp("2020-01-01 00:00:00 +00:00 x"),
        Stamp::At(Instant { secs: 1577836800, nanos: 0 })
    );
    assert_eq!(line_stamp("2020-01-01 00:00:00. +00:00 x"), Stamp::Plain);
    assert_eq!(line_stamp("2020-01-01 00:00:00 +00:00"), Stamp::Plain);
    assert_eq!(line_stamp("2020-01-01 00:00:00.12 +00:00"), Stamp::Plain);
    assert_eq!(line_stamp("  at some::frame"), Stamp::Plain);
    assert_eq!(line_stamp(""), Stamp::Plain);
    assert!(matches!(line_stamp("2020-01-01 00:00:00.12 -05:30 x"), Stamp::At(_)));
    assert_eq!(line_stamp("2020-13-45 00:00:00.12 +00:00 x"), Stamp::Bad);
}

#[test]
fn single_line_exact_window() {
    let file = lines(&[&at("09:00", "only")]);
    let t = instant("09:00");
    let w = TimeWindow { start: t, end: t };
    assert_eq!(extract_file(&file, &w).unwrap(), file);
    let earlier = if t.nanos >= 1_000_000 {
        Instant { secs: t.secs, nanos: t.nanos - 1_000_000 }
    } else {
        Instant { secs: t.secs - 1, nanos: t.nanos + 999_000_000 }
    };
    let w = TimeWindow { start: earlier, end: earlier };
    assert_eq!(classify(&file, &w).unwrap(), Classification::Skip);
    assert!(extract_file(&file, &w).unwrap().is_empty());
}

#[test]
fn file_starting_after_window_is_skipped() {
    let file = lines(&[
        "partial entry",
        &at("10:00", "late"),
        "2021-13-99 00:00:00.1 +00:00 never read",
    ]);
    let w = window("09:00", "09:10");
    assert_eq!(classify(&file, &w).unwrap(), Classification::Skip);
    assert!(extract_file(&file, &w).unwrap().is_empty());
}

#[test]
fn file_ending_before_window_is_skipped() {
    let mut v = vec![at("07:00", "first")];
    for _ in 0..50 {
        v.push("2021-13-99 00:00:00.1 +00:00 never read".to_string());
    }
    for _ in 0..250 {
        v.push(at("08:00", "later"));
    }
    let w = window("09:00", "09:10");
    assert_eq!(classify(&v, &w).unwrap(), Classification::Skip);
    assert!(extract_file(&v, &w).unwrap().is_empty());
}

#[test]
fn emitted_lines_keep_file_order() {
    let file = lines(&[
        "head junk",
        &at("08:50", "early"),
        "  early detail",
        &at("09:00", "a"),
        "  a detail",
        &at("09:05", "b"),
        &at("09:20", "late"),
        "  late detail",
    ]);
    let w = window("09:00", "09:10");
    let out = extract_file(&file, &w).unwrap();
    assert_eq!(
        out,
        lines(&["  early detail", &at("09:00", "a"), "  a detail", &at("09:05", "b")])
    );
    let mut pos = 0;
    for l in &out {
        let found = file[pos..].iter().position(|x| x == l).expect("line of the file");
        pos += found + 1;
    }
}

#[test]
fn two_files_bundle() {
    let a = lines(&[&at("09:00", "one"), &at("09:05", "two"), &at("09:10", "three")]);
    let b = lines(&[&at("08:00", "old")]);
    let w = window("09:00", "09:06");
    assert_eq!(classify(&b, &w).unwrap(), Classification::Skip);
    let bundle = extract_window(&vec![a, b], &w).unwrap();
    assert_eq!(bundle, format!("{}\n{}\n", at("09:00", "one"), at("09:05", "two")));
}

#[test]
fn header_with_long_continuation() {
    let mut v = vec![at("08:00", "header")];
    for i in 0..300 {
        v.push(format!("continuation {}", i));
    }
    let w = window("09:00", "09:10");
    assert_eq!(classify(&v, &w).unwrap(), Classification::ScanAfterTailProbe(0));
    let out = extract_file(&v, &w).unwrap();
    assert_eq!(out.len(), 300);
    assert_eq!(out[..], v[1..]);
}

#[test]
fn repeated_extraction_is_identical() {
    let a = lines(&[&at("09:00", "one"), "  more", &at("09:05", "two")]);
    let b = lines(&["no stamp at all"]);
    let files = vec![a, b];
    let w = window("09:00", "09:06");
    let first = extract_window(&files, &w).unwrap();
    let second = extract_window(&files, &w).unwrap();
    assert_eq!(first.as_bytes(), second.as_bytes());
    assert_eq!(first, format!("{}\n  more\n{}\nno stamp at all\n", at("09:00", "one"), at("09:05", "two")));
}

#[test]
fn file_without_stamps_is_kept_whole() {
    let file = lines(&["a", "b", "c"]);
    let w = window("09:00", "09:10");
    assert_eq!(classify(&file, &w).unwrap(), Classification::ScanFromStart(0));
    assert_eq!(extract_file(&file, &w).unwrap(), file);
}

#[test]
fn empty_file_gives_nothing() {
    let file: Vec<String> = Vec::new();
    let w = window("09:00", "09:10");
    assert_eq!(classify(&file, &w).unwrap(), Classification::ScanFromStart(0));
    assert!(extract_file(&file, &w).unwrap().is_empty());
    assert_eq!(extract_window(&Vec::new(), &w).unwrap(), "");
}

#[test]
fn head_lines_before_first_stamp_are_dropped() {
    let file = lines(&["cut", "off", &at("09:02", "x"), "tail"]);
    let w = window("09:00", "09:10");
    assert_eq!(classify(&file, &w).unwrap(), Classification::ScanFromStart(2));
    assert_eq!(extract_file(&file, &w).unwrap(), lines(&[&at("09:02", "x"), "tail"]));
}

#[test]
fn invalid_stamp_is_an_error() {
    let file = lines(&[&at("09:01", "ok"), "2021-02-30 09:02:00.1 +08:00 bad"]);
    let w = window("09:00", "09:10");
    match extract_file(&file, &w) {
        Err(Error::Stamp(l)) => assert_eq!(l, "2021-02-30 09:02:00.1 +08:00 bad"),
        other => panic!("unexpected {:?}", other),
    }
    assert!(matches!(extract_window(&vec![file], &w), Err(Error::Stamp(_))));
}

#[test]
fn stamp_without_fraction_is_compared() {
    let file = lines(&[
        "2021-03-04 08:00:00 +08:00 early",
        "  trace",
        "2021-03-04 09:05:00 +08:00 in",
        "2021-03-04 09:30:00 +08:00 late",
    ]);
    let w = window("09:00", "09:10");
    assert_eq!(classify(&file, &w).unwrap(), Classification::ScanAfterTailProbe(0));
    assert_eq!(
        extract_file(&file, &w).unwrap(),
        lines(&["  trace", "2021-03-04 09:05:00 +08:00 in"])
    );
    let single = lines(&["2021-03-04 08:00:00 +08:00 early"]);
    assert_eq!(classify(&single, &w).unwrap(), Classification::Skip);
    assert!(extract_file(&single, &w).unwrap().is_empty());
}

#[test]
fn fraction_is_scaled_against_the_window() {
    let t = instant("09:00");
    let start = Instant { secs: t.secs, nanos: 100_000_000 };
    let w = TimeWindow { start, end: Instant { secs: t.secs + 60, nanos: 0 } };
    let file = lines(&["2021-03-04 09:00:00.5 +08:00 after the start"]);
    assert_eq!(extract_file(&file, &w).unwrap(), file);
}

#[test]
fn invalid_stamp_in_tail_names_its_line() {
    let file = lines(&[&at("08:00", "ok"), "more", "2021-02-30 09:02:00.1 +08:00 bad tail"]);
    let w = window("09:00", "09:10");
    match classify(&file, &w) {
        Err(Error::Stamp(l)) => assert_eq!(l, "2021-02-30 09:02:00.1 +08:00 bad tail"),
        other => panic!("unexpected {:?}", other),
    }
}

#[test]
fn log_file_names() {
    assert!(is_log_file_name("run.log"));
    assert!(is_log_file_name(".log"));
    assert!(!is_log_file_name("run.log.1"));
    assert!(!is_log_file_name("log"));
    assert!(!is_log_file_name("run.txt"));
}

#[test]
fn head_scan_and_tail_probe() {
    let file = lines(&["x", "y", &at("09:01", "a"), "z", &at("09:02", "b"), "w"]);
    assert_eq!(head_scan(&file), (2, Stamp::At(instant("09:01"))));
    assert_eq!(tail_probe(&file), (Stamp::At(instant("09:02")), 4));
    let plain = lines(&["x", "y"]);
    assert_eq!(head_scan(&plain), (2, Stamp::Plain));
    assert_eq!(tail_probe(&plain).0, Stamp::Plain);
    let mut long = vec![at("09:03", "only early stamp")];
    for _ in 0..200 {
        long.push("cont".to_string());
    }
    assert_eq!(tail_probe(&long).0, Stamp::Plain);
    long.remove(1);
    assert_eq!(tail_probe(&long), (Stamp::At(instant("09:03")), 0));
}

#[test]
fn continuation_after_early_line_is_kept() {
    let file = lines(&[&at("08:59", "early"), "  its trace", &at("09:01", "in")]);
    let w = window("09:00", "09:10");
    assert_eq!(classify(&file, &w).unwrap(), Classification::ScanAfterTailProbe(0));
    assert_eq!(extract_file(&file, &w).unwrap(), lines(&["  its trace", &at("09:01", "in")]));
}

#[test]
fn classification_from_file_ends() {
    let mut v = vec!["cut".to_string(), at("07:00", "first")];
    for _ in 0..300 {
        v.push("2021-13-99 00:00:00.1 +00:00 never read".to_string());
    }
    for _ in 0..200 {
        v.push(at("08:00", "later"));
    }
    let w = window("09:00", "09:10");
    let head = v[..2].to_vec();
    let tail = v[v.len() - 200..].to_vec();
    assert_eq!(classify_ends(&head, &tail, &w).unwrap(), Classification::Skip);
    let mut u = v.clone();
    u.push(at("09:05", "in"));
    let tail = u[u.len() - 200..].to_vec();
    assert_eq!(classify_ends(&head, &tail, &w).unwrap(), Classification::ScanAfterTailProbe(1));
    let short = lines(&[&at("09:01", "a"), "b"]);
    assert_eq!(
        classify_ends(&short[..1].to_vec(), &short, &w).unwrap(),
        classify(&short, &w).unwrap()
    );
}
