use vstd::prelude::*;

verus! {

/// The human-readable size that byte_unit gives a byte count, with decimal
/// (1000-based) units, such as `500 B` or `1.50 MB`.
pub uninterp spec fn byte_text(n: u64) -> Seq<char>;

/// Relies on byte_unit's `Byte::from_bytes(..).get_appropriate_unit(false)`
/// and the `Display` of its result: the text depends on the byte count alone.
#[verifier::external_body]
fn format_bytes(n: u64) -> (r: String)
    ensures
        r@ == byte_text(n),
{
    byte_unit::Byte::from_bytes(n as u128).get_appropriate_unit(false).to_string()
}

/// The progress line of a job: `(label) done/total`.
pub open spec fn progress_text(label: Seq<char>, done: Seq<char>, total: Seq<char>) -> Seq<char> {
    seq!['('] + label + seq![')', ' '] + done + seq!['/'] + total
}

/// Builds the progress line from a label and the two sizes already formatted.
pub fn compose_progress_message(label: &str, done_text: &str, total_text: &str) -> (r: String)
    ensures
        r@ == progress_text(label@, done_text@, total_text@),
{
    proof {
        reveal_strlit("(");
        reveal_strlit(") ");
        reveal_strlit("/");
    }
    let mut r = String::from_str("(");
    r.append(label);
    r.append(") ");
    r.append(done_text);
    r.append("/");
    r.append(total_text);
    assert(r@ =~= progress_text(label@, done_text@, total_text@));
    r
}

/// One progress report of a download: bytes received so far, the declared
/// total (0 when the server gave none), and the job's label.
#[derive(Clone, Debug)]
pub struct ProgressSample {
    pub label: String,
    pub bytes_done: u64,
    pub bytes_total: u64,
}

/// The running byte count of one download.
#[derive(Clone, Debug)]
pub struct Progress {
    pub label: String,
    pub bytes_done: u64,
    pub bytes_total: u64,
}

impl Progress {
    /// A download of nothing yet, whose total is the declared content length,
    /// or 0 when the response declares none.
    pub fn new(label: &str, content_length: Option<u64>) -> (r: Progress)
        ensures
            r.label@ == label@,
            r.bytes_done == 0,
            r.bytes_total == match content_length {
                Some(n) => n,
                None => 0,
            },
    {
        let total = match content_length {
            Some(n) => n,
            None => 0,
        };
        Progress { label: String::from_str(label), bytes_done: 0, bytes_total: total }
    }

    /// Counts a chunk of `len` bytes written and returns the sample to report.
    pub fn record_chunk(&mut self, len: u64) -> (r: ProgressSample)
        requires
            old(self).bytes_done + len <= u64::MAX,
        ensures
            final(self).label@ == old(self).label@,
            final(self).bytes_total == old(self).bytes_total,
            final(self).bytes_done == old(self).bytes_done + len,
            r.label@ == old(self).label@,
            r.bytes_done == final(self).bytes_done,
            r.bytes_total == old(self).bytes_total,
    {
        self.bytes_done = self.bytes_done + len;
        ProgressSample {
            label: self.label.clone(),
            bytes_done: self.bytes_done,
            bytes_total: self.bytes_total,
        }
    }
}

/// The progress line of a sample, with both sizes in human-readable units.
pub fn progress_message(sample: &ProgressSample) -> (r: String)
    ensures
        r@ == progress_text(sample.label@, byte_text(sample.bytes_done), byte_text(sample.bytes_total)),
{
    let done = format_bytes(sample.bytes_done);
    let total = format_bytes(sample.bytes_total);
    compose_progress_message(sample.label.as_str(), done.as_str(), total.as_str())
}

} // verus!
