//! Configuration of the client: where and how to send events, and how to
//! batch them.

use vstd::prelude::*;
use vstd::utf8::encode_utf8;
use crate::error::{is_config_error, Error};
use crate::text::push_char;
use crate::time::Duration;

verus! {

/// Default Honeycomb API host.
pub const DEFAULT_API_HOST: &'static str = "https://api.honeycomb.io";

/// Default maximum batch size (events per batch).
pub const DEFAULT_MAX_BATCH_SIZE: usize = 50;

/// Default maximum concurrent batches.
pub const DEFAULT_MAX_CONCURRENT_BATCHES: usize = 10;

/// Default batch timeout, in milliseconds.
pub const DEFAULT_BATCH_TIMEOUT_MILLIS: u64 = 100;

/// Default pending work capacity.
pub const DEFAULT_PENDING_WORK_CAPACITY: usize = 10_000;

/// Default maximum batch size in bytes (10 MB).
/// Prevents OOM from malicious or buggy events with excessive field counts.
pub const DEFAULT_MAX_BATCH_BYTES: usize = 10 * 1024 * 1024;

/// The largest sample rate that validation accepts.
pub const MAX_SAMPLE_RATE: usize = 1_000_000;

/// Client options for connecting to Honeycomb.
#[derive(Debug)]
pub struct Options {
    /// Honeycomb API key for authentication.
    pub api_key: String,
    /// Hostname for the Honeycomb API server.
    /// Defaults to `https://api.honeycomb.io`.
    pub api_host: String,
    /// Name of the Honeycomb dataset to send events to.
    pub dataset: String,
    /// Sample rate for events. A value of 1 means all events are sent,
    /// a value of 10 means 1 in 10 events are sent.
    /// Defaults to 1 (no sampling).
    pub sample_rate: usize,
}

impl Clone for Options {
    /// A copy with the same fields.
    fn clone(&self) -> (c: Self)
        ensures
            c == *self,
    {
        Options {
            api_key: self.api_key.clone(),
            api_host: self.api_host.clone(),
            dataset: self.dataset.clone(),
            sample_rate: self.sample_rate,
        }
    }
}

impl Default for Options {
    /// No API key and no dataset, the default host, every event sent.
    fn default() -> (o: Self)
        ensures
            o.api_key@.len() == 0,
            o.api_host@ == DEFAULT_API_HOST@,
            o.dataset@.len() == 0,
            o.sample_rate == 1,
    {
        Options {
            api_key: String::new(),
            api_host: String::from_str(DEFAULT_API_HOST),
            dataset: String::new(),
            sample_rate: 1,
        }
    }
}

/// `s` without the `'/'` characters at its end.
pub open spec fn trim_trailing_slashes(s: Seq<char>) -> Seq<char>
    decreases s.len(),
{
    if s.len() > 0 && s.last() == '/' {
        trim_trailing_slashes(s.drop_last())
    } else {
        s
    }
}

/// Whether byte `b` may stand as itself in a URL path segment: an ASCII
/// letter or digit, or one of `-`, `.`, `_` and `~`.
pub open spec fn is_unreserved(b: u8) -> bool {
    (48 <= b <= 57) || (65 <= b <= 90) || (97 <= b <= 122) || b == 45 || b == 46 || b == 95
        || b == 126
}

/// The upper-case hexadecimal digit for `n` (below 16).
pub open spec fn hex_digit(n: int) -> char {
    if n < 10 {
        (48 + n) as char
    } else {
        (55 + n) as char
    }
}

/// How byte `b` appears in a percent-encoded path segment.
pub open spec fn encode_byte(b: u8) -> Seq<char> {
    if is_unreserved(b) {
        seq![(b as int) as char]
    } else {
        seq!['%', hex_digit((b / 16) as int), hex_digit((b % 16) as int)]
    }
}

/// The bytes `bytes` percent-encoded for use as one URL path segment.
pub open spec fn percent_encode(bytes: Seq<u8>) -> Seq<char>
    decreases bytes.len(),
{
    if bytes.len() == 0 {
        Seq::empty()
    } else {
        percent_encode(bytes.drop_last()) + encode_byte(bytes.last())
    }
}

/// The batch endpoint for a host and a dataset: the host without trailing
/// slashes, then `/1/batch/`, then the dataset's UTF-8 bytes percent-encoded.
pub open spec fn batch_endpoint_url(api_host: Seq<char>, dataset: Seq<char>) -> Seq<char> {
    trim_trailing_slashes(api_host) + "/1/batch/"@ + percent_encode(encode_utf8(dataset))
}

fn hex(n: u8) -> (c: char)
    requires
        n < 16,
    ensures
        c == hex_digit(n as int),
{
    if n < 10 {
        (48u8 + n) as char
    } else {
        (55u8 + n) as char
    }
}

/// Appends `s` with its trailing `'/'` characters removed.
fn push_trimmed(out: &mut String, s: &str)
    ensures
        final(out)@ == old(out)@ + trim_trailing_slashes(s@),
{
    let n = s.unicode_len();
    let mut end: usize = n;
    assert(s@.subrange(0, n as int) =~= s@);
    while end > 0 && s.get_char(end - 1) == '/'
        invariant
            end <= n,
            n == s@.len(),
            trim_trailing_slashes(s@.subrange(0, end as int)) == trim_trailing_slashes(s@),
        decreases end,
    {
        assert(s@.subrange(0, end as int).drop_last() =~= s@.subrange(0, end - 1));
        end = end - 1;
    }
    assert(trim_trailing_slashes(s@.subrange(0, end as int)) == s@.subrange(0, end as int));
    let kept = s.substring_char(0, end);
    out.append(kept);
}

/// Appends the bytes `bytes` percent-encoded.
fn push_percent_encoded(out: &mut String, bytes: &[u8])
    ensures
        final(out)@ == old(out)@ + percent_encode(bytes@),
{
    let n = bytes.len();
    let mut i: usize = 0;
    while i < n
        invariant
            i <= n,
            n == bytes@.len(),
            out@ == old(out)@ + percent_encode(bytes@.subrange(0, i as int)),
        decreases n - i,
    {
        let b = bytes[i];
        let ghost before = out@;
        if (48 <= b && b <= 57) || (65 <= b && b <= 90) || (97 <= b && b <= 122) || b == 45
            || b == 46 || b == 95 || b == 126 {
            push_char(out, b as char);
        } else {
            push_char(out, '%');
            push_char(out, hex(b / 16));
            push_char(out, hex(b % 16));
        }
        assert(bytes@.subrange(0, i + 1).drop_last() =~= bytes@.subrange(0, i as int));
        assert(out@ =~= before + encode_byte(b));
        i = i + 1;
    }
    assert(bytes@.subrange(0, n as int) =~= bytes@);
}

impl Options {
    /// Options with the given API key and dataset, and the defaults otherwise.
    pub fn new(api_key: &str, dataset: &str) -> (o: Self)
        ensures
            o.api_key@ == api_key@,
            o.dataset@ == dataset@,
            o.api_host@ == DEFAULT_API_HOST@,
            o.sample_rate == 1,
    {
        Options {
            api_key: String::from_str(api_key),
            api_host: String::from_str(DEFAULT_API_HOST),
            dataset: String::from_str(dataset),
            sample_rate: 1,
        }
    }

    /// Set the API key.
    pub fn with_api_key(self, api_key: &str) -> (o: Self)
        ensures
            o.api_key@ == api_key@,
            o.api_host == self.api_host,
            o.dataset == self.dataset,
            o.sample_rate == self.sample_rate,
    {
        Options { api_key: String::from_str(api_key), ..self }
    }

    /// Set the API host.
    pub fn with_api_host(self, api_host: &str) -> (o: Self)
        ensures
            o.api_host@ == api_host@,
            o.api_key == self.api_key,
            o.dataset == self.dataset,
            o.sample_rate == self.sample_rate,
    {
        Options { api_host: String::from_str(api_host), ..self }
    }

    /// Set the dataset.
    pub fn with_dataset(self, dataset: &str) -> (o: Self)
        ensures
            o.dataset@ == dataset@,
            o.api_key == self.api_key,
            o.api_host == self.api_host,
            o.sample_rate == self.sample_rate,
    {
        Options { dataset: String::from_str(dataset), ..self }
    }

    /// Set the sample rate.
    pub fn with_sample_rate(self, sample_rate: usize) -> (o: Self)
        ensures
            o.sample_rate == sample_rate,
            o.api_key == self.api_key,
            o.api_host == self.api_host,
            o.dataset == self.dataset,
    {
        Options { sample_rate, ..self }
    }

    /// The message of the first check that the options fail: an API key
    /// and a dataset are required, and the sample rate must lie in
    /// `1 ..= 1_000_000`; `None` when every check passes.
    pub open spec fn validation_error(&self) -> Option<Seq<char>> {
        if self.api_key@.len() == 0 {
            Some("API key is required"@)
        } else if self.dataset@.len() == 0 {
            Some("Dataset is required"@)
        } else if self.sample_rate == 0 {
            Some("Sample rate must be greater than 0"@)
        } else if self.sample_rate > MAX_SAMPLE_RATE {
            Some("Sample rate must not exceed 1000000"@)
        } else {
            None
        }
    }

    /// Validate the options, returning a configuration error with the
    /// message of the first failed check.
    pub fn validate(&self) -> (r: Result<(), Error>)
        ensures
            r is Ok <==> self.validation_error() is None,
            self.validation_error() matches Some(m) ==> is_config_error(r, m),
    {
        if self.api_key.as_str().is_empty() {
            return Err(Error::Config(String::from_str("API key is required")));
        }
        if self.dataset.as_str().is_empty() {
            return Err(Error::Config(String::from_str("Dataset is required")));
        }
        if self.sample_rate == 0 {
            return Err(Error::Config(String::from_str("Sample rate must be greater than 0")));
        }
        if self.sample_rate > MAX_SAMPLE_RATE {
            return Err(Error::Config(String::from_str("Sample rate must not exceed 1000000")));
        }
        Ok(())
    }

    /// Returns the batch endpoint URL: the host without trailing slashes,
    /// `/1/batch/`, and the dataset percent-encoded as one path segment.
    pub fn batch_endpoint(&self) -> (url: String)
        ensures
            url@ == batch_endpoint_url(self.api_host@, self.dataset@),
    {
        let mut url = String::new();
        push_trimmed(&mut url, self.api_host.as_str());
        url.append("/1/batch/");
        push_percent_encoded(&mut url, self.dataset.as_str().as_bytes());
        url
    }
}

/// Transmission options for controlling batching behavior.
#[derive(Debug)]
pub struct TransmissionOptions {
    /// Maximum number of events to collect before sending a batch.
    /// Defaults to 50.
    pub max_batch_size: usize,
    /// Maximum number of batches that can be sent concurrently.
    /// Defaults to 10.
    pub max_concurrent_batches: usize,
    /// How often to send batches, even if they're not full.
    /// Defaults to 100ms.
    pub batch_timeout: Duration,
    /// Maximum number of events that can be queued for sending.
    /// Defaults to 10,000.
    pub pending_work_capacity: usize,
    /// Additional string to append to the User-Agent header.
    pub user_agent_addition: Option<String>,
    /// Maximum batch size in bytes.
    /// Prevents OOM from events with excessive field counts.
    /// Defaults to 10 MB.
    pub max_batch_bytes: usize,
}

impl Clone for TransmissionOptions {
    /// A copy with the same fields.
    fn clone(&self) -> (c: Self)
        ensures
            c == *self,
    {
        TransmissionOptions {
            max_batch_size: self.max_batch_size,
            max_concurrent_batches: self.max_concurrent_batches,
            batch_timeout: self.batch_timeout,
            pending_work_capacity: self.pending_work_capacity,
            user_agent_addition: match &self.user_agent_addition {
                Some(s) => Some(s.clone()),
                None => None,
            },
            max_batch_bytes: self.max_batch_bytes,
        }
    }
}

impl Default for TransmissionOptions {
    /// Batches of 50 events, 10 concurrent batches, a 100 ms batch timeout,
    /// room for 10,000 pending events, no user agent addition and batches of
    /// at most 10 MB.
    fn default() -> (o: Self)
        ensures
            o.is_default(),
    {
        TransmissionOptions {
            max_batch_size: DEFAULT_MAX_BATCH_SIZE,
            max_concurrent_batches: DEFAULT_MAX_CONCURRENT_BATCHES,
            batch_timeout: Duration::from_millis(DEFAULT_BATCH_TIMEOUT_MILLIS),
            pending_work_capacity: DEFAULT_PENDING_WORK_CAPACITY,
            user_agent_addition: None,
            max_batch_bytes: DEFAULT_MAX_BATCH_BYTES,
        }
    }
}

impl TransmissionOptions {
    /// Whether every option has its default value.
    pub open spec fn is_default(&self) -> bool {
        &&& self.max_batch_size == DEFAULT_MAX_BATCH_SIZE
        &&& self.max_concurrent_batches == DEFAULT_MAX_CONCURRENT_BATCHES
        &&& self.batch_timeout@ == DEFAULT_BATCH_TIMEOUT_MILLIS as nat * 1_000_000
        &&& self.pending_work_capacity == DEFAULT_PENDING_WORK_CAPACITY
        &&& self.user_agent_addition is None
        &&& self.max_batch_bytes == DEFAULT_MAX_BATCH_BYTES
    }

    /// Create new transmission options with the defaults.
    pub fn new() -> (o: Self)
        ensures
            o.is_default(),
    {
        Self::default()
    }

    /// Set the maximum batch size.
    pub fn with_max_batch_size(self, size: usize) -> (o: Self)
        ensures
            o == (TransmissionOptions { max_batch_size: size, ..self }),
    {
        TransmissionOptions { max_batch_size: size, ..self }
    }

    /// Set the maximum concurrent batches.
    pub fn with_max_concurrent_batches(self, count: usize) -> (o: Self)
        ensures
            o == (TransmissionOptions { max_concurrent_batches: count, ..self }),
    {
        TransmissionOptions { max_concurrent_batches: count, ..self }
    }

    /// Set the batch timeout.
    pub fn with_batch_timeout(self, timeout: Duration) -> (o: Self)
        ensures
            o == (TransmissionOptions { batch_timeout: timeout, ..self }),
    {
        TransmissionOptions { batch_timeout: timeout, ..self }
    }

    /// Set the pending work capacity.
    pub fn with_pending_work_capacity(self, capacity: usize) -> (o: Self)
        ensures
            o == (TransmissionOptions { pending_work_capacity: capacity, ..self }),
    {
        TransmissionOptions { pending_work_capacity: capacity, ..self }
    }

    /// Set the user agent addition.
    pub fn with_user_agent_addition(self, addition: &str) -> (o: Self)
        ensures
            o.user_agent_addition matches Some(a) && a@ == addition@,
            o.max_batch_size == self.max_batch_size,
            o.max_concurrent_batches == self.max_concurrent_batches,
            o.batch_timeout == self.batch_timeout,
            o.pending_work_capacity == self.pending_work_capacity,
            o.max_batch_bytes == self.max_batch_bytes,
    {
        TransmissionOptions { user_agent_addition: Some(String::from_str(addition)), ..self }
    }

    /// Set the maximum batch size in bytes.
    ///
    /// This prevents OOM from events with excessive field counts.
    pub fn with_max_batch_bytes(self, bytes: usize) -> (o: Self)
        ensures
            o == (TransmissionOptions { max_batch_bytes: bytes, ..self }),
    {
        TransmissionOptions { max_batch_bytes: bytes, ..self }
    }

    /// The message of the first check that the options fail: the batch
    /// size, the number of concurrent batches, the pending work capacity and
    /// the batch byte limit must each be positive; `None` when every check
    /// passes.
    pub open spec fn validation_error(&self) -> Option<Seq<char>> {
        if self.max_batch_size == 0 {
            Some("Max batch size must be greater than 0"@)
        } else if self.max_concurrent_batches == 0 {
            Some("Max concurrent batches must be greater than 0"@)
        } else if self.pending_work_capacity == 0 {
            Some("Pending work capacity must be greater than 0"@)
        } else if self.max_batch_bytes == 0 {
            Some("Max batch bytes must be greater than 0"@)
        } else {
            None
        }
    }

    /// Validate the transmission options, returning a configuration error
    /// with the message of the first failed check.
    pub fn validate(&self) -> (r: Result<(), Error>)
        ensures
            r is Ok <==> self.validation_error() is None,
            self.validation_error() matches Some(m) ==> is_config_error(r, m),
    {
        if self.max_batch_size == 0 {
            return Err(Error::Config(String::from_str("Max batch size must be greater than 0")));
        }
        if self.max_concurrent_batches == 0 {
            return Err(
                Error::Config(String::from_str("Max concurrent batches must be greater than 0")),
            );
        }
        if self.pending_work_capacity == 0 {
            return Err(
                Error::Config(String::from_str("Pending work capacity must be greater than 0")),
            );
        }
        if self.max_batch_bytes == 0 {
            return Err(Error::Config(String::from_str("Max batch bytes must be greater than 0")));
        }
        Ok(())
    }
}

/// Main configuration struct for the Honeycomb client.
#[derive(Debug)]
pub struct Config {
    /// Client options (API key, dataset, etc.).
    pub options: Options,
    /// Transmission options (batching behavior).
    pub transmission_options: TransmissionOptions,
}

impl Clone for Config {
    /// A copy with the same fields.
    fn clone(&self) -> (c: Self)
        ensures
            c == *self,
    {
        Config {
            options: self.options.clone(),
            transmission_options: self.transmission_options.clone(),
        }
    }
}

impl Default for Config {
    /// Default options and default transmission options.
    fn default() -> (c: Self)
        ensures
            c.options.api_key@.len() == 0,
            c.options.api_host@ == DEFAULT_API_HOST@,
            c.options.dataset@.len() == 0,
            c.options.sample_rate == 1,
            c.transmission_options.is_default(),
    {
        Config { options: Options::default(), transmission_options: TransmissionOptions::default() }
    }
}

impl Config {
    /// Create a new config with the given API key and dataset.
    pub fn new(api_key: &str, dataset: &str) -> (c: Self)
        ensures
            c.options.api_key@ == api_key@,
            c.options.dataset@ == dataset@,
            c.options.api_host@ == DEFAULT_API_HOST@,
            c.options.sample_rate == 1,
            c.transmission_options.is_default(),
    {
        Config {
            options: Options::new(api_key, dataset),
            transmission_options: TransmissionOptions::default(),
        }
    }

    /// Set the API key.
    pub fn with_api_key(self, api_key: &str) -> (c: Self)
        ensures
            c.options.api_key@ == api_key@,
            c.options.api_host == self.options.api_host,
            c.options.dataset == self.options.dataset,
            c.options.sample_rate == self.options.sample_rate,
            c.transmission_options == self.transmission_options,
    {
        Config { options: self.options.with_api_key(api_key), ..self }
    }

    /// Set the dataset.
    pub fn with_dataset(self, dataset: &str) -> (c: Self)
        ensures
            c.options.dataset@ == dataset@,
            c.options.api_key == self.options.api_key,
            c.options.api_host == self.options.api_host,
            c.options.sample_rate == self.options.sample_rate,
            c.transmission_options == self.transmission_options,
    {
        Config { options: self.options.with_dataset(dataset), ..self }
    }

    /// Set the API host.
    pub fn with_api_host(self, api_host: &str) -> (c: Self)
        ensures
            c.options.api_host@ == api_host@,
            c.options.api_key == self.options.api_key,
            c.options.dataset == self.options.dataset,
            c.options.sample_rate == self.options.sample_rate,
            c.transmission_options == self.transmission_options,
    {
        Config { options: self.options.with_api_host(api_host), ..self }
    }

    /// Set custom client options.
    pub fn with_options(self, options: Options) -> (c: Self)
        ensures
            c.options == options,
            c.transmission_options == self.transmission_options,
    {
        Config { options, ..self }
    }

    /// Set custom transmission options.
    pub fn with_transmission_options(self, options: TransmissionOptions) -> (c: Self)
        ensures
            c.options == self.options,
            c.transmission_options == options,
    {
        Config { transmission_options: options, ..self }
    }

    /// The message of the first check that the configuration fails: the
    /// client options are checked before the transmission options.
    pub open spec fn validation_error(&self) -> Option<Seq<char>> {
        if self.options.validation_error() is Some {
            self.options.validation_error()
        } else {
            self.transmission_options.validation_error()
        }
    }

    /// Validate the entire configuration, returning a configuration error
    /// with the message of the first failed check.
    pub fn validate(&self) -> (r: Result<(), Error>)
        ensures
            r is Ok <==> self.validation_error() is None,
            self.validation_error() matches Some(m) ==> is_config_error(r, m),
    {
        match self.options.validate() {
            Err(e) => {
                return Err(e);
            },
            Ok(()) => {},
        }
        match self.transmission_options.validate() {
            Err(e) => {
                return Err(e);
            },
            Ok(()) => {},
        }
        Ok(())
    }
}

} // verus!
