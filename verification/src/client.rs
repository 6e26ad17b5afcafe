//! The symbol-server client's decisions.
//!
//! The client turns an identifier into the server's download URL and drives
//! a bounded retry: up to five attempts, the wait between them starting at
//! one second and doubling after every failure. The blocking fetch and the
//! sleep themselves are I/O and live with the caller; every decision about
//! them is made, and proved, here.

use vstd::prelude::*;

verus! {

use vstd::string::StringExecFns;
use crate::text::utf8_to_string;
use crate::text::lemma_ascii_decode;
use crate::windows::PdbMeta;

/// Decimal ASCII digits of a non-negative number, most significant first.
pub open spec fn dec_bytes(n: int) -> Seq<u8>
    recommends
        n >= 0,
    decreases n,
{
    if n < 10 {
        seq![(0x30 + n) as u8]
    } else {
        dec_bytes(n / 10) + seq![(0x30 + n % 10) as u8]
    }
}

/// Decimal digits of a non-negative number, as characters.
pub open spec fn dec_chars(n: int) -> Seq<char> {
    dec_bytes(n).map_values(|b: u8| b as char)
}

/// Decimal digits are ASCII.
proof fn lemma_dec_bytes_ascii(n: int)
    requires
        n >= 0,
    ensures
        forall|i: int| 0 <= i < dec_bytes(n).len() ==> dec_bytes(n)[i] < 0x80,
    decreases n,
{
    if n >= 10 {
        lemma_dec_bytes_ascii(n / 10);
        let pre = dec_bytes(n / 10);
        assert forall|i: int| 0 <= i < dec_bytes(n).len() implies dec_bytes(n)[i] < 0x80 by {
            if i < pre.len() {
                assert(dec_bytes(n)[i] == pre[i]);
            } else {
                assert(dec_bytes(n)[i] == (0x30 + n % 10) as u8);
            }
        }
    }
}

/// Decimal ASCII digits of a 32-bit number.
fn dec_digits_vec(n: u32) -> (r: Vec<u8>)
    ensures
        r@ == dec_bytes(n as int),
    decreases n,
{
    if n < 10 {
        let mut v: Vec<u8> = Vec::new();
        v.push(0x30 + n as u8);
        proof {
            assert(v@ =~= dec_bytes(n as int));
        }
        v
    } else {
        let mut v = dec_digits_vec(n / 10);
        v.push(0x30 + (n % 10) as u8);
        proof {
            assert(v@ =~= dec_bytes(n as int));
        }
        v
    }
}

/// The decimal string of a 32-bit number.
pub fn u32_to_decimal(n: u32) -> (r: String)
    ensures
        r@ == dec_chars(n as int),
{
    let v = dec_digits_vec(n);
    proof {
        lemma_dec_bytes_ascii(n as int);
        lemma_ascii_decode(v@);
    }
    match utf8_to_string(v) {
        Some(s) => s,
        None => {
            proof {
                assert(false);
            }
            String::new()
        },
    }
}

/// The symbol server's path for an identifier:
/// `https://msdl.microsoft.com/download/symbols/{name}/{guid}{age}/{name}`,
/// the GUID and the age concatenated with no separator.
pub open spec fn url_chars(name: Seq<char>, guid: Seq<char>, age: u32) -> Seq<char> {
    "https://msdl.microsoft.com/download/symbols/"@ + name + "/"@ + guid + dec_chars(age as int)
        + "/"@ + name
}

impl PdbMeta {
    /// The URL this identifier's symbol file is downloaded from.
    pub fn download_url(&self) -> (r: String)
        ensures
            r@ == url_chars(self.name@, self.guid@, self.age),
    {
        let mut url = String::from_str("https://msdl.microsoft.com/download/symbols/");
        url.append(self.name.as_str());
        url.append("/");
        url.append(self.guid.as_str());
        let age_digits = u32_to_decimal(self.age);
        url.append(age_digits.as_str());
        url.append("/");
        url.append(self.name.as_str());
        proof {
            assert(url@ =~= url_chars(self.name@, self.guid@, self.age));
        }
        url
    }
}

/// The most attempts one download makes.
pub const MAX_ATTEMPTS: u32 = 5;

/// Seconds to wait after a failed attempt, by the number of attempts that
/// failed before it: one second, doubling with every further failure.
pub open spec fn backoff_secs(prior_failures: int) -> u64 {
    if prior_failures <= 0 {
        1
    } else if prior_failures == 1 {
        2
    } else if prior_failures == 2 {
        4
    } else {
        8
    }
}

/// What the client does after a failed attempt.
pub enum NextStep {
    /// Wait this many seconds, then attempt the same URL again.
    Retry(u64),
    /// The download is exhausted: no further attempt is made.
    GiveUp,
}

/// What follows a failed attempt, by the number of attempts that failed
/// before it: a wait and a retry, until the fifth failure ends the
/// download.
pub open spec fn step_after(prior_failures: int) -> NextStep {
    if prior_failures < 4 {
        NextStep::Retry(backoff_secs(prior_failures))
    } else {
        NextStep::GiveUp
    }
}

/// How many attempts of one download have failed so far.
pub struct RetrySchedule {
    pub failures: u32,
}

impl RetrySchedule {
    /// A fresh schedule: nothing has failed yet.
    pub fn new() -> (r: RetrySchedule)
        ensures
            r.failures == 0,
    {
        RetrySchedule { failures: 0 }
    }

    /// Record one failed attempt and decide what follows it.
    pub fn on_failure(&mut self) -> (r: NextStep)
        requires
            old(self).failures < MAX_ATTEMPTS,
        ensures
            final(self).failures == old(self).failures + 1,
            r == step_after(old(self).failures as int),
    {
        let prior = self.failures;
        self.failures = self.failures + 1;
        if prior < 4 {
            let delay: u64 = if prior == 0 {
                1
            } else if prior == 1 {
                2
            } else if prior == 2 {
                4
            } else {
                8
            };
            NextStep::Retry(delay)
        } else {
            NextStep::GiveUp
        }
    }
}

/// The steps a schedule takes when the first `k` attempts all fail,
/// earliest first.
pub open spec fn failure_steps(k: int) -> Seq<NextStep>
    decreases k,
{
    if k <= 0 {
        Seq::empty()
    } else {
        failure_steps(k - 1).push(step_after(k - 1))
    }
}

/// Against a server that fails every attempt, exactly five attempts are
/// made: the waits before the second to fifth are 1, 2, 4 and 8 seconds,
/// and the fifth failure ends the download.
pub proof fn lemma_retry_schedule()
    ensures
        failure_steps(MAX_ATTEMPTS as int) =~= seq![
            NextStep::Retry(1),
            NextStep::Retry(2),
            NextStep::Retry(4),
            NextStep::Retry(8),
            NextStep::GiveUp,
        ],
{
    reveal_with_fuel(failure_steps, 6);
}

/// How one identifier is handled.
pub enum FetchPlan {
    /// The destination artifact already exists: no request is made.
    Skip,
    /// Fetch this URL.
    Fetch(String),
}

/// Decide one identifier's handling: an identifier whose destination
/// artifact already exists is skipped, with no network request; any other
/// identifier has its URL fetched.
pub fn plan_download(meta: &PdbMeta, destination_exists: bool) -> (r: FetchPlan)
    ensures
        destination_exists ==> r is Skip,
        !destination_exists ==> (r matches FetchPlan::Fetch(u) && u@ == url_chars(
            meta.name@,
            meta.guid@,
            meta.age,
        )),
{
    if destination_exists {
        FetchPlan::Skip
    } else {
        FetchPlan::Fetch(meta.download_url())
    }
}

} // verus!
