use dwrs::error::ConfigError;
use dwrs::jobs::{build_direct, derive_destination, parse_line, parse_lines, Job};
use dwrs::words::split_words;

fn job(source: &str, destination: &str) -> Job {
    Job { source: source.to_string(), destination: destination.to_string() }
}

fn strings(v: &[&str]) -> Vec<String> {
    v.iter().map(|s| s.to_string()).collect()
}

#[test]
fn destination_is_last_segment() {
    assert_eq!(derive_destination("http://host/a.bin"), "a.bin");
    assert_eq!(derive_destination("https://example.org/dir/sub/archive.tar.gz"), "archive.tar.gz");
}

#[test]
fn destination_falls_back_when_url_ends_in_slash() {
    assert_eq!(derive_destination("http://host/dir/"), "file.bin");
    assert_eq!(derive_destination(""), "file.bin");
}

#[test]
fn destination_of_url_without_slash_is_the_url() {
    assert_eq!(derive_destination("plain"), "plain");
}

#[test]
fn destination_keeps_non_ascii_names() {
    assert_eq!(derive_destination("http://host/dé/fïchier.txt"), "fïchier.txt");
}

#[test]
fn destination_is_same_for_same_url() {
    let a = derive_destination("http://host/x/y.iso");
    let b = derive_destination("http://host/x/y.iso");
    assert_eq!(a, b);
    let direct = build_direct(&strings(&["http://other/z", "http://host/x/y.iso"]), &vec![]).unwrap();
    assert_eq!(direct[1].destination, a);
    let line = parse_line("http://host/x/y.iso").unwrap();
    assert_eq!(line.destination, a);
}

#[test]
fn words_split_on_any_white_space() {
    assert_eq!(split_words("  a\tb   c \r"), strings(&["a", "b", "c"]));
    assert_eq!(split_words("x\u{3000}y"), strings(&["x", "y"]));
    assert_eq!(split_words(""), Vec::<String>::new());
    assert_eq!(split_words(" \t "), Vec::<String>::new());
    assert_eq!(split_words("one"), strings(&["one"]));
}

#[test]
fn line_with_two_words_names_its_output() {
    assert_eq!(parse_line("http://host/x.bin out.bin"), Some(job("http://host/x.bin", "out.bin")));
}

#[test]
fn line_with_one_word_derives_its_output() {
    assert_eq!(parse_line("  http://host/x.bin  "), Some(job("http://host/x.bin", "x.bin")));
    assert_eq!(parse_line("http://host/"), Some(job("http://host/", "file.bin")));
}

#[test]
fn line_with_zero_or_three_words_is_malformed() {
    assert_eq!(parse_line(""), None);
    assert_eq!(parse_line("   "), None);
    assert_eq!(parse_line("a b c"), None);
}

#[test]
fn file_with_malformed_line_gives_one_job_and_one_warning() {
    let r = parse_lines(&strings(&["http://host/x.bin out.bin", "a b c"]));
    assert_eq!(r.jobs, vec![job("http://host/x.bin", "out.bin")]);
    assert_eq!(r.malformed, strings(&["a b c"]));
}

#[test]
fn file_jobs_count_well_formed_lines() {
    let lines = strings(&["u1", "", "u2 o2", "a b c d", "http://h/p/q", "x y z"]);
    let r = parse_lines(&lines);
    assert_eq!(
        r.jobs,
        vec![job("u1", "u1"), job("u2", "o2"), job("http://h/p/q", "q")]
    );
    assert_eq!(r.malformed, strings(&["", "a b c d", "x y z"]));
    assert_eq!(r.jobs.len() + r.malformed.len(), lines.len());
}

#[test]
fn empty_file_gives_nothing() {
    let r = parse_lines(&vec![]);
    assert!(r.jobs.is_empty());
    assert!(r.malformed.is_empty());
}

#[test]
fn direct_urls_without_outputs_derive_names() {
    let r = build_direct(&strings(&["http://host/a.bin", "http://host/b.bin"]), &vec![]).unwrap();
    assert_eq!(r, vec![job("http://host/a.bin", "a.bin"), job("http://host/b.bin", "b.bin")]);
}

#[test]
fn direct_urls_with_outputs_pair_by_index() {
    let r = build_direct(&strings(&["http://h/1", "http://h/2"]), &strings(&["one", "two"])).unwrap();
    assert_eq!(r, vec![job("http://h/1", "one"), job("http://h/2", "two")]);
}

#[test]
fn direct_duplicates_are_kept() {
    let r = build_direct(&strings(&["http://h/a", "http://h/a"]), &vec![]).unwrap();
    assert_eq!(r, vec![job("http://h/a", "a"), job("http://h/a", "a")]);
}

#[test]
fn direct_output_count_mismatch_is_refused() {
    let urls = strings(&["http://h/1", "http://h/2", "http://h/3"]);
    assert_eq!(
        build_direct(&urls, &strings(&["one"])),
        Err(ConfigError::OutputCountMismatch { outputs: 1, urls: 3 })
    );
    assert_eq!(
        build_direct(&strings(&["http://h/1"]), &strings(&["one", "two"])),
        Err(ConfigError::OutputCountMismatch { outputs: 2, urls: 1 })
    );
}

#[test]
fn direct_with_no_urls_is_empty() {
    assert_eq!(build_direct(&vec![], &vec![]), Ok(vec![]));
}
