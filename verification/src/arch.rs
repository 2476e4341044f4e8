//! Platform tokens and the download address derived from them.

use vstd::prelude::*;
use vstd::string::*;
use crate::error::BootstrapError;

verus! {

/// The platform token of an (operating system, CPU architecture) pair, as the
/// distribution server spells it, or `None` for a pair outside the supported
/// set.
pub open spec fn conda_architecture(os: Seq<char>, arch: Seq<char>) -> Option<Seq<char>> {
    if os == "linux"@ && arch == "x86_64"@ {
        Some("linux-64"@)
    } else if os == "linux"@ && arch == "aarch64"@ {
        Some("linux-aarch64"@)
    } else if os == "linux"@ && arch == "powerpc64le"@ {
        Some("linux-ppc64le"@)
    } else if os == "macos"@ && arch == "x86_64"@ {
        Some("osx-64"@)
    } else if os == "macos"@ && arch == "aarch64"@ {
        Some("osx-arm64"@)
    } else {
        None
    }
}

/// Whether two strings hold the same characters.
pub fn same_text(a: &str, b: &str) -> (r: bool)
    ensures
        r == (a@ == b@),
{
    let left = a.to_owned();
    let right = b.to_owned();
    left == right
}

/// Resolves the platform token for the named operating system and CPU
/// architecture. Both are spelled as the compiler spells its targets
/// (`linux`, `macos`; `x86_64`, `aarch64`, `powerpc64le`).
pub fn get_conda_architecture(os: &str, arch: &str) -> (r: Option<&'static str>)
    ensures
        r.is_some() == conda_architecture(os@, arch@).is_some(),
        r matches Some(token) ==> conda_architecture(os@, arch@) == Some(token@),
{
    if same_text(os, "linux") && same_text(arch, "x86_64") {
        Some("linux-64")
    } else if same_text(os, "linux") && same_text(arch, "aarch64") {
        Some("linux-aarch64")
    } else if same_text(os, "linux") && same_text(arch, "powerpc64le") {
        Some("linux-ppc64le")
    } else if same_text(os, "macos") && same_text(arch, "x86_64") {
        Some("osx-64")
    } else if same_text(os, "macos") && same_text(arch, "aarch64") {
        Some("osx-arm64")
    } else {
        None
    }
}

/// The address from which the distribution for a platform token is fetched.
pub open spec fn mamba_url_text(token: Seq<char>) -> Seq<char> {
    "https://micro.mamba.pm/api/micromamba/"@ + token + "/latest"@
}

/// Builds the download address for the named operating system and CPU
/// architecture, or `None` where the pair is not supported.
pub fn get_mamba_url(os: &str, arch: &str) -> (r: Option<String>)
    ensures
        r.is_some() == conda_architecture(os@, arch@).is_some(),
        r matches Some(url) ==> url@ == mamba_url_text(conda_architecture(os@, arch@).unwrap()),
{
    match get_conda_architecture(os, arch) {
        None => None,
        Some(token) => Some(url_for_token(token)),
    }
}

/// Substitutes a platform token into the address template.
pub fn url_for_token(token: &str) -> (r: String)
    ensures
        r@ == mamba_url_text(token@),
{
    "https://micro.mamba.pm/api/micromamba/".to_owned().concat(token).concat("/latest")
}

/// What `Url::parse` makes of a text: the serialization of the URL it parsed,
/// or `None` where it rejects the text.
pub uninterp spec fn url_parse(text: Seq<char>) -> Option<Seq<char>>;

/// Calls `reqwest::Url::parse` on `text`. On success the parsed URL is handed
/// back in its serialized form (`String::from(Url)`); a rejected text gives
/// `None`. The contract only names that outcome: it claims that parsing is a
/// function of the text alone.
#[verifier::external_body]
pub(crate) fn parse_url(text: &str) -> (r: Option<String>)
    ensures
        r.is_some() == url_parse(text@).is_some(),
        r matches Some(url) ==> url_parse(text@) == Some(url@),
{
    match reqwest::Url::parse(text) {
        Ok(url) => Some(String::from(url)),
        Err(_) => None,
    }
}

/// Turns the outcome of parsing an address into the address to download
/// from: a parsed address is kept as it is, a rejected one is a
/// [`BootstrapError::MalformedUrl`].
pub fn download_url_from_parse(parsed: Option<String>) -> (r: Result<String, BootstrapError>)
    ensures
        match parsed {
            Some(url) => r == Ok::<String, BootstrapError>(url),
            None => r == Err::<String, BootstrapError>(BootstrapError::MalformedUrl),
        },
{
    match parsed {
        Some(url) => Ok(url),
        None => Err(BootstrapError::MalformedUrl),
    }
}

/// The download address for a platform token, checked to be a valid URL and
/// returned in its serialized form.
pub fn build_download_url(token: &str) -> (r: Result<String, BootstrapError>)
    ensures
        match url_parse(mamba_url_text(token@)) {
            Some(url) => r.is_ok() && r.unwrap()@ == url,
            None => r == Err::<String, BootstrapError>(BootstrapError::MalformedUrl),
        },
{
    let text = url_for_token(token);
    download_url_from_parse(parse_url(text.as_str()))
}

/// Every supported platform has a non-empty token, and the download address
/// holds exactly that token between the fixed head and tail of the template.
pub proof fn supported_platform_token_in_url(os: Seq<char>, arch: Seq<char>)
    requires
        conda_architecture(os, arch).is_some(),
    ensures
        ({
            let token = conda_architecture(os, arch).unwrap();
            let url = mamba_url_text(token);
            let head = "https://micro.mamba.pm/api/micromamba/"@;
            &&& token.len() > 0
            &&& url.len() == head.len() + token.len() + "/latest"@.len()
            &&& url.subrange(0, head.len() as int) == head
            &&& url.subrange(head.len() as int, (head.len() + token.len()) as int) == token
            &&& url.subrange((head.len() + token.len()) as int, url.len() as int) == "/latest"@
        }),
{
    reveal_strlit("linux-64");
    reveal_strlit("linux-aarch64");
    reveal_strlit("linux-ppc64le");
    reveal_strlit("osx-64");
    reveal_strlit("osx-arm64");
    let token = conda_architecture(os, arch).unwrap();
    let url = mamba_url_text(token);
    let head = "https://micro.mamba.pm/api/micromamba/"@;
    assert(url.subrange(0, head.len() as int) =~= head);
    assert(url.subrange(head.len() as int, (head.len() + token.len()) as int) =~= token);
    assert(url.subrange((head.len() + token.len()) as int, url.len() as int) =~= "/latest"@);
}

/// The supported platforms are exactly the five pairs listed here.
pub proof fn supported_platforms(os: Seq<char>, arch: Seq<char>)
    ensures
        conda_architecture(os, arch).is_some() <==> {
            ||| (os == "linux"@ && arch == "x86_64"@)
            ||| (os == "linux"@ && arch == "aarch64"@)
            ||| (os == "linux"@ && arch == "powerpc64le"@)
            ||| (os == "macos"@ && arch == "x86_64"@)
            ||| (os == "macos"@ && arch == "aarch64"@)
        },
{
}

} // verus!
