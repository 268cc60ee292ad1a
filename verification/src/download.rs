//! The decisions of a release asset download: the response must come from
//! a GitHub host over HTTPS on the default port, announce the declared size,
//! deliver exactly that many bytes, and hash to the published digest.

use vstd::prelude::*;
use crate::community_release::{VerifiedAsset, MAX_ASSET_BYTES};
use crate::digest::{hex_lower, sha256_digest, BoundedDigest, BoundedDigestView};
use crate::text::{concat2, str_eq, string_of};

verus! {

// ---------------------------------------------------------------------------
// Hosts

/// The parts of a URL that the host policy reads: its scheme, its port or
/// the scheme's known default port, and its host; `None` for text that is
/// not a URL. (The result of `url::Url::parse` followed by `scheme`,
/// `port_or_known_default` and `host_str`.)
pub uninterp spec fn url_parts_of(url: Seq<char>) -> Option<(Seq<char>, Option<u16>, Option<Seq<char>>)>;

/// The abstract form of parsed URL parts.
pub open spec fn url_parts_view(p: Option<(String, Option<u16>, Option<String>)>) -> Option<
    (Seq<char>, Option<u16>, Option<Seq<char>>),
> {
    match p {
        None => None,
        Some((s, port, h)) => Some(
            (
                s@,
                port,
                match h {
                    None => None,
                    Some(x) => Some(x@),
                },
            ),
        ),
    }
}

/// `url::Url::parse`, read for its scheme, its port (or the scheme's known
/// default) and its host; the contract names the result, which depends on
/// the text alone.
#[verifier::external_body]
fn parse_url_parts(url: &str) -> (r: Option<(String, Option<u16>, Option<String>)>)
    ensures
        url_parts_view(r) == url_parts_of(url@),
{
    url::Url::parse(url).ok().map(
        |u| (u.scheme().to_string(), u.port_or_known_default(), u.host_str().map(|h| h.to_string())),
    )
}

/// The GitHub hosts that serve release metadata and assets.
pub open spec fn github_host(h: Seq<char>) -> bool {
    ||| h == "api.github.com"@
    ||| h == "github.com"@
    ||| h == "release-assets.githubusercontent.com"@
    ||| h == "github-releases.githubusercontent.com"@
    ||| h == "objects.githubusercontent.com"@
}

/// HTTPS, port 443, and a GitHub host.
pub open spec fn allowed_parts(scheme: Seq<char>, port: Option<u16>, host: Option<Seq<char>>) -> bool {
    scheme == "https"@ && port == Some(443u16) && match host {
        Some(h) => github_host(h),
        None => false,
    }
}

/// The host policy accepts HTTPS on port 443 to each of the five GitHub
/// hosts, and nothing on another scheme or port or without a host.
pub proof fn lemma_github_hosts_allowed(scheme: Seq<char>, port: Option<u16>, host: Option<Seq<char>>)
    ensures
        allowed_parts("https"@, Some(443u16), Some("api.github.com"@)),
        allowed_parts("https"@, Some(443u16), Some("github.com"@)),
        allowed_parts("https"@, Some(443u16), Some("release-assets.githubusercontent.com"@)),
        allowed_parts("https"@, Some(443u16), Some("github-releases.githubusercontent.com"@)),
        allowed_parts("https"@, Some(443u16), Some("objects.githubusercontent.com"@)),
        scheme != "https"@ ==> !allowed_parts(scheme, port, host),
        port != Some(443u16) ==> !allowed_parts(scheme, port, host),
        host is None ==> !allowed_parts(scheme, port, host),
{
}

/// Whether URL parts pass the host policy (see [`allowed_parts`]).
pub fn allowed_github_url_parts(scheme: &str, port: Option<u16>, host: Option<&str>) -> (r: bool)
    ensures
        r == allowed_parts(
            scheme@,
            port,
            match host {
                Some(h) => Some(h@),
                None => None,
            },
        ),
{
    if !str_eq(scheme, "https") {
        return false;
    }
    match port {
        Some(p) => {
            if p != 443 {
                return false;
            }
        },
        None => {
            return false;
        },
    }
    match host {
        None => false,
        Some(h) => str_eq(h, "api.github.com") || str_eq(h, "github.com") || str_eq(
            h,
            "release-assets.githubusercontent.com",
        ) || str_eq(h, "github-releases.githubusercontent.com") || str_eq(
            h,
            "objects.githubusercontent.com",
        ),
    }
}

/// Whether the URL `url` passes the host policy; text that is not a URL
/// does not.
pub fn allowed_github_url(url: &str) -> (r: bool)
    ensures
        r == match url_parts_of(url@) {
            None => false,
            Some((s, p, h)) => allowed_parts(s, p, h),
        },
{
    match parse_url_parts(url) {
        None => false,
        Some((scheme, port, host)) => {
            let h = match &host {
                Some(x) => Some(x.as_str()),
                None => None,
            };
            allowed_github_url_parts(scheme.as_str(), port, h)
        },
    }
}

// ---------------------------------------------------------------------------
// Download verdicts

/// Why a download was refused (abstract form).
pub enum DownloadFailure {
    Status(Seq<char>),
    UntrustedRedirect,
    LengthMismatch,
    Overrun,
    Truncated,
    DigestMismatch,
}

/// Why a download was refused.
#[derive(Clone, Debug, PartialEq, Eq)]
pub enum DownloadError {
    /// The server answered with a status other than success (its text).
    Status(String),
    /// The final URL after redirects is not an approved GitHub URL.
    UntrustedRedirect,
    /// The announced length differs from the asset's declared size.
    LengthMismatch,
    /// More bytes arrived than declared.
    Overrun,
    /// Fewer bytes arrived than declared.
    Truncated,
    /// The SHA-256 of the bytes differs from the published digest.
    DigestMismatch,
}

impl View for DownloadError {
    type V = DownloadFailure;

    open spec fn view(&self) -> DownloadFailure {
        match self {
            DownloadError::Status(s) => DownloadFailure::Status(s@),
            DownloadError::UntrustedRedirect => DownloadFailure::UntrustedRedirect,
            DownloadError::LengthMismatch => DownloadFailure::LengthMismatch,
            DownloadError::Overrun => DownloadFailure::Overrun,
            DownloadError::Truncated => DownloadFailure::Truncated,
            DownloadError::DigestMismatch => DownloadFailure::DigestMismatch,
        }
    }
}

/// The user-facing text of a refused download.
pub open spec fn download_failure_text(f: DownloadFailure) -> Seq<char> {
    match f {
        DownloadFailure::Status(s) => "GitHub release asset download returned "@ + s,
        DownloadFailure::UntrustedRedirect => "GitHub release asset redirected to an untrusted host"@,
        DownloadFailure::LengthMismatch => "GitHub release asset Content-Length does not match its metadata"@,
        DownloadFailure::Overrun => "release asset exceeded its declared size"@,
        DownloadFailure::Truncated => "release asset was truncated"@,
        DownloadFailure::DigestMismatch => "release asset SHA-256 does not match GitHub metadata"@,
    }
}

impl DownloadError {
    /// The user-facing message.
    pub fn message(&self) -> (r: String)
        ensures
            r@ == download_failure_text(self@),
    {
        match self {
            DownloadError::Status(s) => concat2("GitHub release asset download returned ", s.as_str()),
            DownloadError::UntrustedRedirect => string_of(
                "GitHub release asset redirected to an untrusted host",
            ),
            DownloadError::LengthMismatch => string_of(
                "GitHub release asset Content-Length does not match its metadata",
            ),
            DownloadError::Overrun => string_of("release asset exceeded its declared size"),
            DownloadError::Truncated => string_of("release asset was truncated"),
            DownloadError::DigestMismatch => string_of(
                "release asset SHA-256 does not match GitHub metadata",
            ),
        }
    }
}

/// A download in progress: the bytes received so far, bounded by the
/// asset's declared size and the asset size limit, and the digest they
/// must have.
pub struct DownloadCheck {
    stream: BoundedDigest,
    expected: String,
}

/// The abstract form of a [`DownloadCheck`].
pub struct DownloadCheckView {
    pub stream: BoundedDigestView,
    pub expected: Seq<char>,
}

impl View for DownloadCheck {
    type V = DownloadCheckView;

    closed spec fn view(&self) -> DownloadCheckView {
        DownloadCheckView { stream: self.stream@, expected: self.expected@ }
    }
}

/// Why a response for `asset` is refused before its body is read, if it
/// is: a failure status, a final URL outside the host policy, or an
/// announced length other than the declared size.
pub open spec fn response_failure(
    asset_size: nat,
    status_ok: bool,
    status_text: Seq<char>,
    final_url: Seq<char>,
    content_length: Option<u64>,
) -> Option<DownloadFailure> {
    if !status_ok {
        Some(DownloadFailure::Status(status_text))
    } else if !(match url_parts_of(final_url) {
        None => false,
        Some((s, p, h)) => allowed_parts(s, p, h),
    }) {
        Some(DownloadFailure::UntrustedRedirect)
    } else if content_length matches Some(len) && len != asset_size {
        Some(DownloadFailure::LengthMismatch)
    } else {
        None
    }
}

impl DownloadCheck {
    /// The invariant of the stream.
    pub closed spec fn wf(&self) -> bool {
        self.stream.wf()
    }

    /// Checks the response for `asset` (its status, the text of that status,
    /// the final URL after redirects, the announced length) and starts
    /// receiving its body.
    pub fn start(
        asset: &VerifiedAsset,
        status_ok: bool,
        status_text: &str,
        final_url: &str,
        content_length: Option<u64>,
    ) -> (r: Result<DownloadCheck, DownloadError>)
        ensures
            match response_failure(
                asset.size as nat,
                status_ok,
                status_text@,
                final_url@,
                content_length,
            ) {
                Some(f) => r matches Err(e) && e@ == f,
                None => r matches Ok(c) && c.wf() && c@ == (DownloadCheckView {
                    stream: BoundedDigestView {
                        declared: asset.size as nat,
                        limit: MAX_ASSET_BYTES as nat,
                        data: Seq::empty(),
                    },
                    expected: asset.sha256@,
                }),
            },
    {
        if !status_ok {
            return Err(DownloadError::Status(string_of(status_text)));
        }
        if !allowed_github_url(final_url) {
            return Err(DownloadError::UntrustedRedirect);
        }
        if let Some(len) = content_length {
            if len != asset.size {
                return Err(DownloadError::LengthMismatch);
            }
        }
        Ok(DownloadCheck { stream: BoundedDigest::new(asset.size, MAX_ASSET_BYTES), expected: asset.sha256.clone() })
    }

    /// Receives the next bytes of the body; more than the declared size (or
    /// the limit) is refused.
    pub fn absorb(&mut self, chunk: &[u8]) -> (r: Result<(), DownloadError>)
        requires
            old(self).wf(),
        ensures
            final(self).wf(),
            final(self)@.expected == old(self)@.expected,
            final(self)@.stream.declared == old(self)@.stream.declared,
            final(self)@.stream.limit == old(self)@.stream.limit,
            ({
                let fits = old(self)@.stream.data.len() + chunk@.len() <= old(self)@.stream.declared
                    && old(self)@.stream.data.len() + chunk@.len() <= old(self)@.stream.limit;
                &&& fits ==> r is Ok && final(self)@.stream.data == old(self)@.stream.data + chunk@
                &&& !fits ==> (r matches Err(e) && e@ == DownloadFailure::Overrun)
            }),
    {
        if self.stream.absorb(chunk) {
            Ok(())
        } else {
            Err(DownloadError::Overrun)
        }
    }

    /// The verdict once the body ended: exactly the declared size, with the
    /// published digest.
    pub fn finish(self) -> (r: Result<(), DownloadError>)
        requires
            self.wf(),
        ensures
            self@.stream.data.len() != self@.stream.declared ==> (r matches Err(e) && e@
                == DownloadFailure::Truncated),
            self@.stream.data.len() == self@.stream.declared ==> (hex_lower(
                sha256_digest(self@.stream.data),
            ) == self@.expected <==> r is Ok),
            self@.stream.data.len() == self@.stream.declared && hex_lower(
                sha256_digest(self@.stream.data),
            ) != self@.expected ==> (r matches Err(e) && e@ == DownloadFailure::DigestMismatch),
    {
        let expected = self.expected;
        match self.stream.finish() {
            None => Err(DownloadError::Truncated),
            Some(actual) => {
                if str_eq(actual.as_str(), expected.as_str()) {
                    Ok(())
                } else {
                    Err(DownloadError::DigestMismatch)
                }
            },
        }
    }
}

} // verus!
