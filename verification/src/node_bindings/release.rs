//! The decisions behind downloading, verifying and unpacking release binaries of
//! `arkiv-op-geth` for [`crate::node_bindings::Arkiv`].
use vstd::prelude::*;
use vstd::string::StringExecFns;

use alloy::signers::k256::sha2::Digest;

verus! {

/// The name that every release asset starts with.
pub const ASSET_NAME: &'static str = "arkiv-op-geth";

/// A release asset: its file name and where to download it.
#[derive(Debug, Clone)]
pub struct Asset {
    pub name: String,
    pub browser_download_url: String,
}

/// A tagged release and its assets.
#[derive(Debug, Clone)]
pub struct Release {
    pub tag_name: String,
    pub assets: Vec<Asset>,
}

/// The operating system name in asset names, for the OS name that Rust reports.
pub open spec fn release_os_spec(os: Seq<char>) -> Option<Seq<char>> {
    if os == "macos"@ {
        Some("darwin"@)
    } else if os == "linux"@ {
        Some("linux"@)
    } else if os == "windows"@ {
        Some("windows"@)
    } else {
        None
    }
}

/// The architecture name in asset names, for the architecture name that Rust reports.
pub open spec fn release_arch_spec(arch: Seq<char>) -> Option<Seq<char>> {
    if arch == "x86_64"@ {
        Some("amd64"@)
    } else if arch == "aarch64"@ {
        Some("arm64"@)
    } else {
        None
    }
}

/// Whether two strings are equal.
fn str_eq(a: &str, b: &str) -> (r: bool)
    ensures
        r == (a@ == b@),
{
    String::from_str(a) == String::from_str(b)
}

/// The operating system name in asset names; `None` for an unsupported OS.
pub fn release_os(os: &str) -> (r: Option<&'static str>)
    ensures
        match r {
            Some(s) => release_os_spec(os@) == Some(s@),
            None => release_os_spec(os@) is None,
        },
{
    if str_eq(os, "macos") {
        Some("darwin")
    } else if str_eq(os, "linux") {
        Some("linux")
    } else if str_eq(os, "windows") {
        Some("windows")
    } else {
        None
    }
}

/// The architecture name in asset names; `None` for an unsupported architecture.
pub fn release_arch(arch: &str) -> (r: Option<&'static str>)
    ensures
        match r {
            Some(s) => release_arch_spec(arch@) == Some(s@),
            None => release_arch_spec(arch@) is None,
        },
{
    if str_eq(arch, "x86_64") {
        Some("amd64")
    } else if str_eq(arch, "aarch64") {
        Some("arm64")
    } else {
        None
    }
}

/// `arkiv-op-geth-{tag}-{os}-{arch}.{ext}`.
pub open spec fn asset_name_spec(tag: Seq<char>, os: Seq<char>, arch: Seq<char>, ext: Seq<char>) -> Seq<char> {
    ASSET_NAME@ + "-"@ + tag + "-"@ + os + "-"@ + arch + "."@ + ext
}

/// The name of the asset of a release for an OS and an architecture, with extension `ext`.
pub fn asset_name(tag: &str, os: &str, arch: &str, ext: &str) -> (r: String)
    ensures
        r@ == asset_name_spec(tag@, os@, arch@, ext@),
{
    let mut s = String::from_str(ASSET_NAME);
    s.append("-");
    s.append(tag);
    s.append("-");
    s.append(os);
    s.append("-");
    s.append(arch);
    s.append(".");
    s.append(ext);
    s
}

/// The index of the first asset named `name`, if any.
pub open spec fn first_asset_named(assets: Seq<Asset>, name: Seq<char>) -> Option<int>
    decreases assets.len(),
{
    if assets.len() == 0 {
        None
    } else {
        match first_asset_named(assets.drop_last(), name) {
            Some(i) => Some(i),
            None => if assets.last().name@ == name {
                Some(assets.len() - 1)
            } else {
                None
            },
        }
    }
}

/// Find the first asset named `name`.
pub fn find_asset(assets: &Vec<Asset>, name: &str) -> (r: Option<usize>)
    ensures
        match r {
            Some(i) => first_asset_named(assets@, name@) == Some(i as int),
            None => first_asset_named(assets@, name@) is None,
        },
{
    let n = assets.len();
    let mut i: usize = 0;
    let wanted = String::from_str(name);
    while i < n
        invariant
            n == assets@.len(),
            i <= n,
            wanted@ == name@,
            first_asset_named(assets@.subrange(0, i as int), name@) is None,
        decreases n - i,
    {
        let ghost prefix = assets@.subrange(0, i + 1);
        assert(prefix.drop_last() =~= assets@.subrange(0, i as int));
        if assets[i].name == wanted {
            proof {
                lemma_first_asset_prefix(assets@, name@, i + 1);
            }
            return Some(i);
        }
        i += 1;
    }
    assert(assets@.subrange(0, n as int) =~= assets@);
    None
}

/// Where the first match lies in a prefix, it is the first match of the whole list.
proof fn lemma_first_asset_prefix(assets: Seq<Asset>, name: Seq<char>, k: int)
    requires
        0 <= k <= assets.len(),
        first_asset_named(assets.subrange(0, k), name) is Some,
    ensures
        first_asset_named(assets, name) == first_asset_named(assets.subrange(0, k), name),
    decreases assets.len() - k,
{
    if k < assets.len() {
        assert(assets.subrange(0, k + 1).drop_last() =~= assets.subrange(0, k));
        lemma_first_asset_prefix(assets, name, k + 1);
    } else {
        assert(assets.subrange(0, k) =~= assets);
    }
}

/// Why a release cannot be downloaded.
#[derive(Debug, Clone)]
pub enum ReleaseError {
    /// The OS is not one that releases are built for.
    UnsupportedOs(String),
    /// The architecture is not one that releases are built for.
    UnsupportedArch(String),
    /// The release has no tarball asset with this name.
    TarballNotFound(String),
    /// The release has no checksum asset with this name.
    ChecksumNotFound(String),
}

/// The assets to download: the tarball and its checksum, by index into the release's assets.
#[derive(Debug, Clone, Copy)]
pub struct AssetChoice {
    pub tarball: usize,
    pub checksum: usize,
}

impl Release {
    /// Choose the tarball asset (`….tar.gz`) and its checksum asset
    /// (`….tar.gz.sha256`) for the OS and architecture that Rust reports.
    pub fn choose_assets(&self, os: &str, arch: &str) -> (r: Result<AssetChoice, ReleaseError>)
        ensures
            release_os_spec(os@) is None ==> (r matches Err(ReleaseError::UnsupportedOs(o)) && o@
                == os@),
            release_os_spec(os@) is Some && release_arch_spec(arch@) is None ==> (r matches Err(
                ReleaseError::UnsupportedArch(a),
            ) && a@ == arch@),
            release_os_spec(os@) matches Some(o) ==> release_arch_spec(arch@) matches Some(a) ==> {
                let tarname = asset_name_spec(self.tag_name@, o, a, "tar.gz"@);
                let shaname = asset_name_spec(self.tag_name@, o, a, "tar.gz.sha256"@);
                match first_asset_named(self.assets@, tarname) {
                    None => r matches Err(ReleaseError::TarballNotFound(n)) && n@ == tarname,
                    Some(t) => match first_asset_named(self.assets@, shaname) {
                        None => r matches Err(ReleaseError::ChecksumNotFound(n)) && n@ == shaname,
                        Some(c) => r matches Ok(choice) && choice.tarball == t && choice.checksum
                            == c,
                    },
                }
            },
    {
        let o = match release_os(os) {
            Some(o) => o,
            None => return Err(ReleaseError::UnsupportedOs(String::from_str(os))),
        };
        let a = match release_arch(arch) {
            Some(a) => a,
            None => return Err(ReleaseError::UnsupportedArch(String::from_str(arch))),
        };
        let tarname = asset_name(self.tag_name.as_str(), o, a, "tar.gz");
        let tarball = match find_asset(&self.assets, tarname.as_str()) {
            Some(t) => t,
            None => return Err(ReleaseError::TarballNotFound(tarname)),
        };
        let shaname = asset_name(self.tag_name.as_str(), o, a, "tar.gz.sha256");
        let checksum = match find_asset(&self.assets, shaname.as_str()) {
            Some(c) => c,
            None => return Err(ReleaseError::ChecksumNotFound(shaname)),
        };
        Ok(AssetChoice { tarball, checksum })
    }
}

/// The SHA-256 digest of a byte string.
pub uninterp spec fn sha256_digest(data: Seq<u8>) -> Seq<u8>;

/// Calls `Sha256::digest` of `alloy::signers::k256::sha2` on `data`. Its result is
/// the SHA-256 digest of the bytes, named `sha256_digest` here, which depends on
/// the bytes alone.
#[verifier::external_body]
fn sha256(data: &[u8]) -> (r: Vec<u8>)
    ensures
        r@ == sha256_digest(data@),
{
    alloy::signers::k256::sha2::Sha256::digest(data).to_vec()
}

/// The lowercase hex digit of a nibble.
pub open spec fn hex_digit(n: u8) -> char {
    if n < 10 {
        ((n + 0x30) as u8) as char
    } else {
        ((n - 10 + 0x61) as u8) as char
    }
}

/// The lowercase hex encoding of bytes: two digits per byte, high nibble first.
pub open spec fn hex_lower(b: Seq<u8>) -> Seq<char>
    decreases b.len(),
{
    if b.len() == 0 {
        seq![]
    } else {
        hex_lower(b.drop_last()) + seq![hex_digit(b.last() / 16), hex_digit(b.last() % 16)]
    }
}

/// Calls `hex::encode` on `data`: the lowercase hex encoding, two digits per
/// byte, high nibble first, from the table `0123456789abcdef`.
#[verifier::external_body]
fn hex_encode(data: &[u8]) -> (r: String)
    ensures
        r@ == hex_lower(data@),
{
    hex::encode(data)
}

/// The lowercase hex SHA-256 digest of `data`.
pub fn sha256_hex(data: &[u8]) -> (r: String)
    ensures
        r@ == hex_lower(sha256_digest(data@)),
{
    let digest = sha256(data);
    hex_encode(digest.as_slice())
}

/// Check the downloaded checksum text against the tarball: it must be exactly
/// the lowercase hex SHA-256 digest of the tarball; else the digest comes back as
/// the error. A mismatch could indicate a man-in-the-middle attack, and the binary
/// is not run.
pub fn verify_checksum(checksum: &str, tarball: &[u8]) -> (r: Result<(), String>)
    ensures
        r is Ok <==> checksum@ == hex_lower(sha256_digest(tarball@)),
        r matches Err(h) ==> h@ == hex_lower(sha256_digest(tarball@)),
{
    let hash = sha256_hex(tarball);
    if String::from_str(checksum) == hash {
        Ok(())
    } else {
        Err(hash)
    }
}

} // verus!
