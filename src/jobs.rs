//! The job list: where each download comes from and where it goes.

use vstd::prelude::*;
use vstd::string::StrSliceExecFns;
use vstd::string::StringExecFns;

use crate::error::ConfigError;
use crate::words::{split_words, views_of, words_of};

verus! {

/// Index at which the last `/`-delimited segment of `s` begins: one past the
/// last `/`, or 0 when `s` holds none.
pub open spec fn segment_start(s: Seq<char>) -> int
    decreases s.len(),
{
    if s.len() == 0 {
        0
    } else if s.last() == '/' {
        s.len() as int
    } else {
        segment_start(s.drop_last())
    }
}

/// The text after the last `/` of `s` (all of `s` when it holds none).
pub open spec fn last_segment(s: Seq<char>) -> Seq<char> {
    s.subrange(segment_start(s), s.len() as int)
}

/// The name used when a URL ends without a segment.
pub open spec fn fallback_name() -> Seq<char> {
    seq!['f', 'i', 'l', 'e', '.', 'b', 'i', 'n']
}

/// Destination of a URL given without an explicit output: its last segment,
/// or `file.bin` when that segment is empty.
pub open spec fn derived_destination(url: Seq<char>) -> Seq<char> {
    if last_segment(url).len() == 0 {
        fallback_name()
    } else {
        last_segment(url)
    }
}

/// The destination file name for `url` when none is given.
pub fn derive_destination(url: &str) -> (r: String)
    ensures
        r@ == derived_destination(url@),
{
    let n = url.unicode_len();
    let mut i: usize = n;
    assert(url@.take(n as int) =~= url@);
    while i > 0 && url.get_char(i - 1) != '/'
        invariant
            i <= n == url@.len(),
            segment_start(url@) == segment_start(url@.take(i as int)),
        decreases i,
    {
        assert(url@.take(i as int).drop_last() =~= url@.take(i - 1));
        i = i - 1;
    }
    proof {
        if i > 0 {
            assert(url@.take(i as int).last() == '/');
        }
    }
    if i == n {
        let r = String::from_str("file.bin");
        proof {
            reveal_strlit("file.bin");
            assert(r@ =~= fallback_name());
        }
        r
    } else {
        String::from_str(url.substring_char(i, n))
    }
}

/// One download: the URL it reads and the path it writes.
#[derive(Clone, Debug, PartialEq, Eq)]
pub struct Job {
    pub source: String,
    pub destination: String,
}

impl View for Job {
    type V = (Seq<char>, Seq<char>);

    open spec fn view(&self) -> (Seq<char>, Seq<char>) {
        (self.source@, self.destination@)
    }
}

/// The (source, destination) pairs that a list of jobs holds.
pub open spec fn jobs_view(v: Seq<Job>) -> Seq<(Seq<char>, Seq<char>)> {
    v.map_values(|j: Job| j@)
}

/// The job a line of an input file stands for: `url output`, or `url` alone
/// with a derived destination. Any other number of words makes no job.
pub open spec fn line_job(line: Seq<char>) -> Option<(Seq<char>, Seq<char>)> {
    let w = words_of(line);
    if w.len() == 2 {
        Some((w[0], w[1]))
    } else if w.len() == 1 {
        Some((w[0], derived_destination(w[0])))
    } else {
        None
    }
}

/// A line holds one or two words.
pub open spec fn well_formed(line: Seq<char>) -> bool {
    1 <= words_of(line).len() <= 2
}

/// The jobs of the well-formed lines of `ls`, in order.
pub open spec fn file_jobs(ls: Seq<Seq<char>>) -> Seq<(Seq<char>, Seq<char>)>
    decreases ls.len(),
{
    if ls.len() == 0 {
        Seq::empty()
    } else {
        match line_job(ls.last()) {
            Some(j) => file_jobs(ls.drop_last()).push(j),
            None => file_jobs(ls.drop_last()),
        }
    }
}

/// The lines of `ls` that make no job, in order.
pub open spec fn malformed_lines(ls: Seq<Seq<char>>) -> Seq<Seq<char>>
    decreases ls.len(),
{
    if ls.len() == 0 {
        Seq::empty()
    } else if line_job(ls.last()) is None {
        malformed_lines(ls.drop_last()).push(ls.last())
    } else {
        malformed_lines(ls.drop_last())
    }
}

/// The number of well-formed lines in `ls`.
pub open spec fn well_formed_count(ls: Seq<Seq<char>>) -> nat
    decreases ls.len(),
{
    if ls.len() == 0 {
        0
    } else if well_formed(ls.last()) {
        well_formed_count(ls.drop_last()) + 1
    } else {
        well_formed_count(ls.drop_last())
    }
}

/// Every well-formed line of an input file gives exactly one job, and every
/// other line gives none and exactly one warning.
pub proof fn lemma_one_job_per_well_formed_line(ls: Seq<Seq<char>>)
    ensures
        file_jobs(ls).len() == well_formed_count(ls),
        malformed_lines(ls).len() + well_formed_count(ls) == ls.len(),
    decreases ls.len(),
{
    if ls.len() > 0 {
        lemma_one_job_per_well_formed_line(ls.drop_last());
    }
}

/// The destination derived for a URL is a function of the URL alone: the
/// same URL gets the same destination at any position of a direct invocation
/// without outputs, and on a line of an input file where it stands alone.
pub proof fn lemma_destination_depends_on_url_alone(
    urls_a: Seq<Seq<char>>,
    i: int,
    urls_b: Seq<Seq<char>>,
    j: int,
    line: Seq<char>,
)
    requires
        0 <= i < urls_a.len(),
        0 <= j < urls_b.len(),
        urls_a[i] == urls_b[j],
        words_of(line) == seq![urls_a[i]],
    ensures
        direct_jobs(urls_a, Seq::empty())[i].1 == derived_destination(urls_a[i]),
        direct_jobs(urls_a, Seq::empty())[i].1 == direct_jobs(urls_b, Seq::empty())[j].1,
        line_job(line) == Some((urls_a[i], derived_destination(urls_a[i]))),
{
}

/// The job that `line` stands for, or `None` for a malformed line.
pub fn parse_line(line: &str) -> (r: Option<Job>)
    ensures
        match r {
            Some(j) => line_job(line@) == Some(j@),
            None => line_job(line@) is None,
        },
{
    let words = split_words(line);
    proof {
        assert(views_of(words@).len() == words@.len());
    }
    if words.len() == 2 {
        let source = words[0].clone();
        let destination = words[1].clone();
        Some(Job { source, destination })
    } else if words.len() == 1 {
        let source = words[0].clone();
        let destination = derive_destination(source.as_str());
        Some(Job { source, destination })
    } else {
        None
    }
}

/// The jobs of an input file, and the lines that were skipped as malformed.
pub struct FileJobs {
    pub jobs: Vec<Job>,
    pub malformed: Vec<String>,
}

/// Reads the jobs from the lines of an input file. A malformed line is
/// skipped and kept for a warning; it never stops the others.
pub fn parse_lines(lines: &Vec<String>) -> (r: FileJobs)
    ensures
        jobs_view(r.jobs@) == file_jobs(views_of(lines@)),
        views_of(r.malformed@) == malformed_lines(views_of(lines@)),
{
    let ghost ls = views_of(lines@);
    let mut jobs: Vec<Job> = Vec::new();
    let mut malformed: Vec<String> = Vec::new();
    let mut i: usize = 0;
    while i < lines.len()
        invariant
            i <= lines@.len() == ls.len(),
            ls == views_of(lines@),
            jobs_view(jobs@) == file_jobs(ls.take(i as int)),
            views_of(malformed@) == malformed_lines(ls.take(i as int)),
        decreases lines.len() - i,
    {
        assert(ls.take(i + 1).drop_last() =~= ls.take(i as int));
        assert(ls.take(i + 1).last() == lines@[i as int]@);
        let ghost jobs_before = jobs_view(jobs@);
        let ghost bad_before = views_of(malformed@);
        match parse_line(lines[i].as_str()) {
            Some(j) => {
                jobs.push(j);
                assert(jobs_view(jobs@) =~= jobs_before.push(j@));
            },
            None => {
                malformed.push(lines[i].clone());
                assert(views_of(malformed@) =~= bad_before.push(lines@[i as int]@));
            },
        }
        i = i + 1;
    }
    assert(ls.take(lines.len() as int) =~= ls);
    FileJobs { jobs, malformed }
}

/// Whether an explicit output list of `n_outputs` entries cannot go with
/// `n_urls` URLs: it must be empty or have one entry per URL.
pub open spec fn outputs_mismatch(n_urls: nat, n_outputs: nat) -> bool {
    n_outputs != 0 && n_outputs != n_urls
}

/// The jobs of a direct invocation: each URL with the output at its index,
/// or with its derived destination where there is none.
pub open spec fn direct_jobs(urls: Seq<Seq<char>>, outputs: Seq<Seq<char>>) -> Seq<
    (Seq<char>, Seq<char>),
> {
    Seq::new(
        urls.len(),
        |i: int|
            (urls[i], if i < outputs.len() {
                outputs[i]
            } else {
                derived_destination(urls[i])
            }),
    )
}

/// Pairs URLs with their outputs. An output list that is neither empty nor
/// as long as the URL list is refused as a whole.
pub fn build_direct(urls: &Vec<String>, outputs: &Vec<String>) -> (r: Result<Vec<Job>, ConfigError>)
    ensures
        r is Err <==> outputs_mismatch(urls@.len(), outputs@.len()),
        match r {
            Ok(v) => jobs_view(v@) == direct_jobs(views_of(urls@), views_of(outputs@)),
            Err(e) => e == (ConfigError::OutputCountMismatch {
                outputs: outputs.len(),
                urls: urls.len(),
            }),
        },
{
    if outputs.len() != 0 && outputs.len() != urls.len() {
        return Err(ConfigError::OutputCountMismatch { outputs: outputs.len(), urls: urls.len() });
    }
    let ghost want = direct_jobs(views_of(urls@), views_of(outputs@));
    let mut jobs: Vec<Job> = Vec::new();
    let mut i: usize = 0;
    while i < urls.len()
        invariant
            i <= urls@.len(),
            outputs@.len() == 0 || outputs@.len() == urls@.len(),
            want == direct_jobs(views_of(urls@), views_of(outputs@)),
            jobs_view(jobs@) =~= want.take(i as int),
        decreases urls.len() - i,
    {
        let source = urls[i].clone();
        let destination = if i < outputs.len() {
            outputs[i].clone()
        } else {
            derive_destination(urls[i].as_str())
        };
        let ghost before = jobs_view(jobs@);
        let j = Job { source, destination };
        jobs.push(j);
        assert(jobs_view(jobs@) =~= before.push(j@));
        assert(want.take(i + 1) =~= want.take(i as int).push(want[i as int]));
        i = i + 1;
    }
    assert(want.take(urls.len() as int) =~= want);
    Ok(jobs)
}

} // verus!
