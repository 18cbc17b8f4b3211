//! Download planning: what to fetch and where, when a file already on disk
//! can be kept, how a finished download is checked, how often a failed one
//! is retried, and how progress is described.

use vstd::prelude::*;
use crate::error::LauncherError;
use crate::paths;
use crate::text;

verus! {

/// One file to fetch.
#[derive(Debug, Clone)]
pub struct DownloadItem {
    pub url: String,
    pub destination: String,
    pub sha1: Option<String>,
    pub size: Option<u64>,
}

/// The text form of an optional string.
pub open spec fn opt_view(o: Option<String>) -> Option<Seq<char>> {
    match o {
        Some(s) => Some(s@),
        None => None,
    }
}

/// A copy of an optional string.
pub fn owned_opt(o: &Option<String>) -> (r: Option<String>)
    ensures
        opt_view(r) == opt_view(*o),
{
    match o {
        Some(s) => Some(text::owned(s.as_str())),
        None => None,
    }
}

impl View for DownloadItem {
    type V = (Seq<char>, Seq<char>, Option<Seq<char>>, Option<u64>);

    open spec fn view(&self) -> Self::V {
        (self.url@, self.destination@, opt_view(self.sha1), self.size)
    }
}

impl DownloadItem {
    /// An item with no checksum and no size.
    pub fn new(url: &str, destination: &str) -> (r: Self)
        ensures
            r@ == (url@, destination@, None::<Seq<char>>, None::<u64>),
    {
        DownloadItem { url: text::owned(url), destination: text::owned(destination), sha1: None, size: None }
    }

    /// The same item with an expected SHA-1.
    pub fn with_sha1(self, sha1: &str) -> (r: Self)
        ensures
            r@ == (self@.0, self@.1, Some(sha1@), self@.3),
    {
        let mut s = self;
        s.sha1 = Some(text::owned(sha1));
        s
    }

    /// The same item with an expected size.
    pub fn with_size(self, size: u64) -> (r: Self)
        ensures
            r@ == (self@.0, self@.1, self@.2, Some(size)),
    {
        let mut s = self;
        s.size = Some(size);
        s
    }
}

// ---------------------------------------------------------------------------
// SHA-1
// ---------------------------------------------------------------------------

/// The SHA-1 digest of `data` (FIPS 180-4), as the `sha1` crate computes it.
pub uninterp spec fn sha1_of(data: Seq<u8>) -> Seq<u8>;

/// `sha1::Sha1` over `data`: the digest of the bytes, twenty bytes long.
#[verifier::external_body]
fn sha1_digest(data: &[u8]) -> (r: Vec<u8>)
    ensures
        r@ == sha1_of(data@),
        r@.len() == 20,
{
    <sha1::Sha1 as sha1::Digest>::digest(data).to_vec()
}

/// Lower-case hexadecimal SHA-1 of `bytes`.
pub fn sha1_hex(bytes: &[u8]) -> (r: String)
    ensures
        r@ == text::hex_lower(sha1_of(bytes@)),
        r@.len() == 40,
{
    let d = sha1_digest(bytes);
    text::hex_string(d.as_slice())
}

/// Whether a computed checksum `actual` is the `expected` one, ignoring
/// ASCII case.
pub fn checksum_matches(actual: &str, expected: &str) -> (r: bool)
    ensures
        r == text::eq_ignore_ascii_case(actual@, expected@),
{
    text::str_eq_ignore_ascii_case(actual, expected)
}

// ---------------------------------------------------------------------------
// Engine decisions
// ---------------------------------------------------------------------------

/// What a file already at the destination shows: its SHA-1 when it could be
/// read, and its length.
pub struct ExistingFile {
    pub sha1: Option<String>,
    pub len: Option<u64>,
}

/// A file already at the destination is kept when the item has a checksum
/// and the file's SHA-1 matches it, or, for an item without checksum but with
/// a size, when the file has that size.
pub open spec fn keeps_existing(item: (Seq<char>, Seq<char>, Option<Seq<char>>, Option<u64>), file: Option<(Option<Seq<char>>, Option<u64>)>) -> bool {
    match file {
        None => false,
        Some((sha, len)) => match item.2 {
            Some(expected) => match sha {
                Some(actual) => text::eq_ignore_ascii_case(actual, expected),
                None => false,
            },
            None => match item.3 {
                Some(size) => len == Some(size),
                None => false,
            },
        },
    }
}

pub open spec fn existing_view(f: Option<ExistingFile>) -> Option<(Option<Seq<char>>, Option<u64>)> {
    match f {
        Some(e) => Some((opt_view(e.sha1), e.len)),
        None => None,
    }
}

impl DownloadItem {
    /// Whether the file already at the destination (`None`: no file there)
    /// can be kept instead of downloading.
    pub fn can_skip(&self, existing: &Option<ExistingFile>) -> (r: bool)
        ensures
            r == keeps_existing(self@, existing_view(*existing)),
    {
        match existing {
            None => false,
            Some(e) => match &self.sha1 {
                Some(expected) => match &e.sha1 {
                    Some(actual) => checksum_matches(actual.as_str(), expected.as_str()),
                    None => false,
                },
                None => match self.size {
                    Some(size) => match e.len {
                        Some(l) => l == size,
                        None => false,
                    },
                    None => false,
                },
            },
        }
    }

    /// The name shown while this item downloads: the destination's file
    /// name, or "download" when it has none.
    pub fn display_name(&self) -> (r: String)
        ensures
            r@ == (if paths::file_name(self.destination@).len() == 0 {
                "download"@
            } else {
                paths::file_name(self.destination@)
            }),
    {
        let n = paths::file_name_of(self.destination.as_str());
        if n.as_str().is_empty() {
            proof {
                reveal_strlit("download");
            }
            text::owned("download")
        } else {
            n
        }
    }

    /// Checks the bytes a download produced against the item's checksum:
    /// without a checksum everything passes; otherwise the SHA-1 must match,
    /// ignoring case, or the error names the file, the expected and the
    /// computed checksum.
    pub fn verify_download(&self, data: &[u8], file_name: &str) -> (r: Result<(), LauncherError>)
        ensures
            match self.sha1 {
                None => r is Ok,
                Some(expected) => if text::eq_ignore_ascii_case(
                    text::hex_lower(sha1_of(data@)),
                    expected@,
                ) {
                    r is Ok
                } else {
                    r matches Err(LauncherError::ChecksumMismatch { file, expected: e, actual })
                        && file@ == file_name@ && e@ == expected@ && actual@ == text::hex_lower(
                        sha1_of(data@),
                    )
                },
            },
    {
        match &self.sha1 {
            None => Ok(()),
            Some(expected) => {
                let actual = sha1_hex(data);
                if checksum_matches(actual.as_str(), expected.as_str()) {
                    Ok(())
                } else {
                    Err(
                        LauncherError::ChecksumMismatch {
                            file: text::owned(file_name),
                            expected: text::owned(expected.as_str()),
                            actual,
                        },
                    )
                }
            },
        }
    }
}

/// How many times a download is attempted before its error is reported.
pub const DOWNLOAD_ATTEMPTS: u32 = 3;

/// Pause between two attempts, in milliseconds.
pub const RETRY_DELAY_MS: u64 = 500;

/// What to do after an attempt failed.
#[derive(Debug, Clone, Copy, PartialEq, Eq, Structural)]
pub enum RetryDecision {
    /// Report the attempt's error.
    GiveUp,
    /// Wait `RETRY_DELAY_MS` and try again, with this many attempts left.
    RetryAfterDelay { remaining: u32 },
}

/// The decision after a failed attempt when `remaining` attempts (counting
/// the failed one) were left.
pub fn after_failure(remaining: u32) -> (r: RetryDecision)
    requires
        remaining >= 1,
    ensures
        remaining == 1 ==> r == RetryDecision::GiveUp,
        remaining > 1 ==> r == (RetryDecision::RetryAfterDelay { remaining: (remaining - 1) as u32 }),
{
    let left = remaining - 1;
    if left == 0 {
        RetryDecision::GiveUp
    } else {
        RetryDecision::RetryAfterDelay { remaining: left }
    }
}

/// Sum of the known sizes of `items`.
pub open spec fn known_size_total(items: Seq<DownloadItem>) -> int
    decreases items.len(),
{
    if items.len() == 0 {
        0
    } else {
        known_size_total(items.drop_last()) + match items.last().size {
            Some(s) => s as int,
            None => 0int,
        }
    }
}

/// The byte total announced before a batch starts: the sum of the sizes the
/// items declare.
pub fn total_bytes(items: &Vec<DownloadItem>) -> (r: u64)
    requires
        known_size_total(items@) <= u64::MAX,
    ensures
        r == known_size_total(items@),
{
    let mut total: u64 = 0;
    let mut i: usize = 0;
    while i < items.len()
        invariant
            i <= items@.len(),
            known_size_total(items@) <= u64::MAX,
            total == known_size_total(items@.subrange(0, i as int)),
        decreases items@.len() - i,
    {
        proof {
            lemma_total_prefix_mono(items@, (i + 1) as int);
            assert(items@.subrange(0, i + 1).drop_last() =~= items@.subrange(0, i as int));
        }
        match items[i].size {
            Some(s) => {
                total = total + s;
            },
            None => {},
        }
        i = i + 1;
    }
    assert(items@.subrange(0, items@.len() as int) =~= items@);
    total
}

proof fn lemma_total_prefix_mono(items: Seq<DownloadItem>, k: int)
    requires
        0 <= k <= items.len(),
    ensures
        known_size_total(items.subrange(0, k)) <= known_size_total(items),
    decreases items.len() - k,
{
    if k < items.len() {
        lemma_total_prefix_mono(items, k + 1);
        assert(items.subrange(0, k + 1).drop_last() =~= items.subrange(0, k));
    } else {
        assert(items.subrange(0, k) =~= items);
    }
}

/// The `.amctmp` file a download is written to before it replaces the
/// destination (`Path::with_extension`).
pub fn temp_path(destination: &str) -> (r: String)
    ensures
        r@ == paths::with_extension(destination@, "amctmp"@),
{
    paths::replace_extension(destination, "amctmp")
}

/// The remaining time as the progress overlay shows it.
pub open spec fn eta_text(eta: Option<u64>) -> Seq<char> {
    match eta {
        Some(secs) => if secs >= 60 {
            text::decimal((secs / 60) as nat) + " мин "@ + text::decimal((secs % 60) as nat)
                + " сек"@
        } else {
            text::decimal(secs as nat) + " сек"@
        },
        None => "--"@,
    }
}

/// Formats an estimated remaining time in seconds: minutes and seconds from
/// one minute on, seconds below, `--` when unknown.
pub fn format_eta(eta_seconds: Option<u64>) -> (r: String)
    ensures
        r@ == eta_text(eta_seconds),
{
    match eta_seconds {
        Some(secs) => {
            if secs >= 60 {
                let mut out = text::decimal_string(secs / 60);
                out.append(" мин ");
                let s = text::decimal_string(secs % 60);
                out.append(s.as_str());
                out.append(" сек");
                out
            } else {
                let mut out = text::decimal_string(secs);
                out.append(" сек");
                out
            }
        },
        None => text::owned("--"),
    }
}

} // verus!
