//! Configuration of the VMs that the harness runs in: where their kernel comes from.

use vstd::prelude::*;

verus! {

#[verifier::external_type_specification]
#[verifier::external_body]
pub struct ExParseError(url::ParseError);

/// The serialized form of the absolute URL that a string denotes, if it denotes one.
pub uninterp spec fn url_parse(s: Seq<char>) -> Option<Seq<char>>;

/// Relies on `url::Url::parse`, whose result depends on the input alone, and on
/// `String::from(Url)`, which hands back the URL's serialized form.
#[verifier::external_body]
fn parse_absolute_url(s: &str) -> (r: Result<String, url::ParseError>)
    ensures
        r is Ok <==> url_parse(s@) is Some,
        r matches Ok(u) ==> url_parse(s@) == Some(u@),
{
    url::Url::parse(s).map(String::from)
}

/// Source of the Linux kernel to boot.
pub enum LinuxKernelSource {
    /// A remote URL, held in its serialized form.
    Url(String),
    /// The path of a local bootable image.
    BzImage(String),
}

/// Why a kernel source could not be built.
#[derive(Debug, Clone, Copy, PartialEq, Eq, Structural)]
pub enum KernelSourceError {
    /// The text is not an absolute URL.
    InvalidUrl,
}

impl LinuxKernelSource {
    /// A kernel fetched from `s`, which must be an absolute URL.
    pub fn url(s: &str) -> (r: Result<LinuxKernelSource, KernelSourceError>)
        ensures
            url_parse(s@) is None <==> r == Err::<LinuxKernelSource, KernelSourceError>(
                KernelSourceError::InvalidUrl,
            ),
            r matches Ok(src) ==> (src matches LinuxKernelSource::Url(u) && Some(u@) == url_parse(s@)),
    {
        match parse_absolute_url(s) {
            Ok(u) => Ok(LinuxKernelSource::Url(u)),
            Err(_) => Err(KernelSourceError::InvalidUrl),
        }
    }

    /// A kernel read from the local image at `path`.
    pub fn bz_image(path: String) -> (r: LinuxKernelSource)
        ensures
            r matches LinuxKernelSource::BzImage(p) && p == path,
    {
        LinuxKernelSource::BzImage(path)
    }
}

/// Configuration for spawning a VM.
pub struct VmConfig {
    pub kernel_source: LinuxKernelSource,
}

} // verus!
