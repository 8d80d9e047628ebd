//! Uploading of segments: object keys and retries.
//!
//! Uploading and removing files is the caller's part.
use crate::sanitize::{law_sanitized_is_safe_segment, sanitize_stream_id, sanitized};
use crate::traits::Node;
use crate::types::Protocol;
use vstd::prelude::*;
use vstd::utf8::encode_utf8;

verus! {

/// Milliseconds before the first retry of a failed upload.
pub const FIRST_RETRY_DELAY_MS: u64 = 200;

/// Milliseconds before the second retry of a failed upload.
pub const SECOND_RETRY_DELAY_MS: u64 = 500;

/// An object key: prefix, stream and file.
pub open spec fn key_of(prefix: Seq<char>, live_id: Seq<char>, filename: Seq<char>) -> Seq<char> {
    prefix + "/"@ + sanitized(encode_utf8(live_id)) + "/"@ + filename
}

/// Uploads the segments of one stream.
#[derive(Debug)]
pub struct MinIoSink {
    live_id: String,
    prefix: String,
}

/// What follows an attempt to upload a segment.
#[derive(Clone, Copy, Debug, PartialEq, Eq, Structural)]
pub enum UploadAction {
    /// Remove the staged file, then upload the playlist.
    Finish,
    /// Wait this many milliseconds and try again.
    RetryAfter(u64),
    /// Remove the staged file and report the failure.
    GiveUp,
}

/// What follows an attempt: success finishes, failure is retried twice, after a
/// short and a longer pause.
pub open spec fn after_attempt(failures_before: nat, uploaded: bool) -> UploadAction {
    if uploaded {
        UploadAction::Finish
    } else if failures_before == 0 {
        UploadAction::RetryAfter(200)
    } else if failures_before == 1 {
        UploadAction::RetryAfter(500)
    } else {
        UploadAction::GiveUp
    }
}

/// An upload in progress.
#[derive(Clone, Copy, Debug)]
pub struct UploadAttempts {
    failures: u8,
}

impl UploadAttempts {
    /// Attempts that failed.
    pub closed spec fn failed(&self) -> nat {
        self.failures as nat
    }

    /// An upload not yet attempted.
    pub fn new() -> (r: Self)
        ensures
            r.failed() == 0,
    {
        UploadAttempts { failures: 0 }
    }

    /// Decides what follows an attempt.
    pub fn on_attempt(&mut self, uploaded: bool) -> (r: UploadAction)
        ensures
            r == after_attempt(old(self).failed(), uploaded),
            final(self).failed() == if r is RetryAfter {
                old(self).failed() + 1
            } else {
                old(self).failed()
            },
    {
        if uploaded {
            return UploadAction::Finish;
        }
        if self.failures == 0 {
            self.failures = 1;
            UploadAction::RetryAfter(FIRST_RETRY_DELAY_MS)
        } else if self.failures == 1 {
            self.failures = 2;
            UploadAction::RetryAfter(SECOND_RETRY_DELAY_MS)
        } else {
            UploadAction::GiveUp
        }
    }
}

impl MinIoSink {
    /// The stream whose segments are uploaded.
    pub closed spec fn id(&self) -> Seq<char> {
        self.live_id@
    }

    /// Prefix of its object keys.
    pub closed spec fn key_prefix(&self) -> Seq<char> {
        self.prefix@
    }

    /// A sink for a stream.
    pub fn new(live_id: &str, prefix: &str) -> (r: Self)
        ensures
            r.id() == live_id@,
            r.key_prefix() == prefix@,
    {
        MinIoSink { live_id: live_id.to_owned(), prefix: prefix.to_owned() }
    }

    /// Object key of a segment file. The stream's identifier is sanitized.
    pub fn segment_key(&self, filename: &str) -> (r: String)
        ensures
            r@ == key_of(self.key_prefix(), self.id(), filename@),
    {
        let mut key: String = self.prefix.clone();
        let safe: String = sanitize_stream_id(self.live_id.as_str());
        key.push_str("/");
        key.push_str(safe.as_str());
        key.push_str("/");
        key.push_str(filename);
        key
    }

    /// Object key of the stream's playlist.
    pub fn playlist_key(&self) -> (r: String)
        ensures
            r@ == key_of(self.key_prefix(), self.id(), "index.m3u8"@),
    {
        self.segment_key("index.m3u8")
    }

    /// The protocol served.
    pub fn protocol(&self) -> (r: Protocol)
        ensures
            r == Protocol::Hls,
    {
        Protocol::Hls
    }
}

impl Node for MinIoSink {
    fn name(&self) -> (r: &str)
        ensures
            r@ == "minio-sink"@,
    {
        "minio-sink"
    }
}

/// What follows the attempts so far, by whether each succeeded.
pub open spec fn upload_run(outcomes: Seq<bool>) -> UploadAction {
    after_attempt((outcomes.len() - 1) as nat, outcomes.last())
}

/// An upload comes to an end: it is attempted three times at most, and finishes
/// exactly where an attempt succeeded.
pub proof fn law_upload_ends_after_three_attempts(outcomes: Seq<bool>)
    requires
        outcomes.len() >= 1,
        forall|i: int| 0 <= i < outcomes.len() - 1 ==> !(#[trigger] outcomes[i]),
    ensures
        upload_run(outcomes) is RetryAfter ==> outcomes.len() < 3 && !outcomes.last(),
        outcomes.len() >= 3 ==> upload_run(outcomes) == (if outcomes.last() {
            UploadAction::Finish
        } else {
            UploadAction::GiveUp
        }),
        upload_run(outcomes) == UploadAction::Finish <==> outcomes.last(),
{
}

/// A failed upload is tried again 200 milliseconds later, then 500 milliseconds later,
/// and then given up; a success ends it whenever it comes.
pub proof fn law_retries_are_spaced(failures: nat)
    ensures
        after_attempt(failures, true) == UploadAction::Finish,
        after_attempt(0, false) == UploadAction::RetryAfter(200),
        after_attempt(1, false) == UploadAction::RetryAfter(500),
        failures >= 2 ==> after_attempt(failures, false) == UploadAction::GiveUp,
{
}

/// A key is the prefix, the stream and the file, with slashes between: the stream's part
/// is its sanitized identifier, so that it holds no slash, and prefix and file name are
/// as they were given.
pub proof fn law_key_has_three_parts(prefix: Seq<char>, live_id: Seq<char>, filename: Seq<char>)
    ensures
        ({
            let key = key_of(prefix, live_id, filename);
            let p = prefix.len() as int;
            let f = key.len() - filename.len();
            &&& key.take(p) == prefix
            &&& key[p] == '/'
            &&& key.subrange(p + 1, f - 1) == sanitized(encode_utf8(live_id))
            &&& p + 1 < f - 1
            &&& key[f - 1] == '/'
            &&& key.skip(f) == filename
            &&& forall|i: int| p < i < f - 1 ==> #[trigger] key[i] != '/'
        }),
{
    reveal_strlit("/");
    let safe = sanitized(encode_utf8(live_id));
    law_sanitized_is_safe_segment(encode_utf8(live_id));
    let key = key_of(prefix, live_id, filename);
    let p = prefix.len() as int;
    let f = key.len() - filename.len();
    assert(key.take(p) =~= prefix);
    assert(key.subrange(p + 1, f - 1) =~= safe);
    assert(key.skip(f) =~= filename);
    assert forall|i: int| p < i < f - 1 implies #[trigger] key[i] != '/' by {
        assert(key[i] == safe[i - p - 1]);
    }
}

} // verus!
