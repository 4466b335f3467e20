//! The job exchange of the line protocol: the request line, the reply that
//! carries a job, and the line that submits a result.
use vstd::prelude::*;
use vstd::string::StringExecFns;
use crate::codec::{hex_decode, hex_decoded, decimal_text, dec_chars};
use crate::text::{decimal_value, parse_decimal, split_commas, split_fields, trim_newlines, trimmed_len};

verus! {

/// The difficulty taken when a job's difficulty field is not a number.
pub const DEFAULT_DIFFICULTY: u64 = 100;

/// One unit of work: find the nonce whose decimal text, after `seed`,
/// hashes to `target`.
pub struct Job {
    pub seed: Vec<u8>,
    pub target: Vec<u8>,
    pub difficulty: u64,
}

/// What one reply to a job request means for the connection.
pub enum JobReply {
    /// Nothing was read: the connection is gone.
    Dead,
    /// The reply holds no usable job; ask again on the same connection.
    Skip,
    /// A job to search.
    Ready(Job),
}

/// The fields of a reply line once its trailing newlines are dropped.
pub open spec fn reply_fields(text: Seq<u8>) -> Seq<Seq<u8>> {
    split_commas(trim_newlines(text))
}

/// The difficulty a field states, or the default one.
pub open spec fn difficulty_of(field: Seq<u8>) -> u64 {
    match decimal_value(field) {
        Some(v) => if v <= u64::MAX {
            v as u64
        } else {
            DEFAULT_DIFFICULTY
        },
        None => DEFAULT_DIFFICULTY,
    }
}

/// A reply line holds a job when it has at least three fields and the
/// second is valid hex.
pub open spec fn holds_job(text: Seq<u8>) -> bool {
    reply_fields(text).len() >= 3 && hex_decoded(reply_fields(text)[1]) is Some
}

/// `j` is the job that the reply line `text` describes.
pub open spec fn is_job_of(j: Job, text: Seq<u8>) -> bool {
    let f = reply_fields(text);
    &&& j.seed@ == f[0]
    &&& j.target@ == hex_decoded(f[1])->0
    &&& j.difficulty == difficulty_of(f[2])
}

/// The job in one reply line: seed, hex target and difficulty, any further
/// fields ignored.
pub fn parse_job(text: &[u8]) -> (r: Option<Job>)
    ensures
        r is Some <==> holds_job(text@),
        r is Some ==> is_job_of(r->0, text@),
{
    let end = trimmed_len(text);
    let fields = split_fields(text, end);
    if fields.len() < 3 {
        return None;
    }
    assert(fields@[1]@ == reply_fields(text@)[1]);
    let target = match hex_decode(fields[1].as_slice()) {
        Some(t) => t,
        None => {
            return None;
        },
    };
    let difficulty = match parse_decimal(fields[2].as_slice(), u64::MAX) {
        Some(d) => d,
        None => DEFAULT_DIFFICULTY,
    };
    assert(fields@[2]@ == reply_fields(text@)[2]);
    assert(fields@[0]@ == reply_fields(text@)[0]);
    let seed = fields[0].clone();
    Some(Job { seed, target, difficulty })
}

/// What a read of a job reply yields: an empty read means the connection
/// is dead, a malformed line is skipped.
pub fn read_reply(text: &[u8]) -> (r: JobReply)
    ensures
        text@.len() == 0 ==> r is Dead,
        text@.len() > 0 && !holds_job(text@) ==> r is Skip,
        text@.len() > 0 && holds_job(text@) ==> r is Ready && is_job_of(r->Ready_0, text@),
{
    if text.len() == 0 {
        JobReply::Dead
    } else {
        match parse_job(text) {
            Some(j) => JobReply::Ready(j),
            None => JobReply::Skip,
        }
    }
}

/// A non-empty reply with fewer than three fields is skipped, not taken as
/// a dead connection.
pub proof fn lemma_short_reply_skipped(text: Seq<u8>)
    requires
        text.len() > 0,
        reply_fields(text).len() < 3,
    ensures
        !holds_job(text),
{
}

/// The line that asks the pool for a job for `username`.
pub fn request_line(username: &str) -> (r: String)
    ensures
        r@ == "JOB,"@ + username@ + ",LOW\n"@,
{
    String::from_str("JOB,").concat(username).concat(",LOW\n")
}

/// The line that submits `nonce`, with the hash rate text and the client's
/// name.
pub fn submission_line(nonce: u64, hashrate: &str, client: &str) -> (r: String)
    ensures
        r@ == dec_chars(nonce as nat) + ","@ + hashrate@ + ","@ + client@ + "\n"@,
{
    decimal_text(nonce).concat(",").concat(hashrate).concat(",").concat(client).concat("\n")
}

} // verus!
