use vstd::prelude::*;

verus! {

/// An operating system that the server is published for.
#[derive(Clone, Copy, Debug, PartialEq, Eq, Structural)]
pub enum Os {
    Mac,
    Linux,
    Windows,
}

/// A CPU architecture that the host reports.
#[derive(Clone, Copy, Debug, PartialEq, Eq, Structural)]
pub enum Arch {
    Aarch64,
    X86,
    X86_64,
}

/// The kind of archive that a release asset is packed in.
#[derive(Clone, Copy, Debug, PartialEq, Eq, Structural)]
pub enum ArchiveFormat {
    GzipTar,
    Zip,
}

/// The platform the server runs on: an operating system and an architecture
/// identifier as it appears in asset names.
#[derive(Debug)]
pub struct Platform {
    pub os: Os,
    pub arch: String,
}

pub open spec fn os_name_spec(os: Os) -> Seq<char> {
    match os {
        Os::Mac => "mac"@,
        Os::Linux => "linux"@,
        Os::Windows => "windows"@,
    }
}

pub open spec fn arch_name_spec(arch: Arch) -> Seq<char> {
    match arch {
        Arch::Aarch64 => "aarch64"@,
        Arch::X86 => "x86"@,
        Arch::X86_64 => "x86_64"@,
    }
}

/// Archives for macOS and Linux are gzipped tarballs; for Windows, zips.
pub open spec fn archive_format_spec(os: Os) -> ArchiveFormat {
    match os {
        Os::Mac | Os::Linux => ArchiveFormat::GzipTar,
        Os::Windows => ArchiveFormat::Zip,
    }
}

pub open spec fn extension_spec(format: ArchiveFormat) -> Seq<char> {
    match format {
        ArchiveFormat::GzipTar => "tar.gz"@,
        ArchiveFormat::Zip => "zip"@,
    }
}

/// `<stem>-<os>-<arch>.<ext>`
pub open spec fn asset_name_spec(stem: Seq<char>, os: Os, arch: Seq<char>) -> Seq<char> {
    stem + "-"@ + os_name_spec(os) + "-"@ + arch + "."@ + extension_spec(
        archive_format_spec(os),
    )
}

/// `<stem>-<version>`: the directory that holds one installed version.
pub open spec fn version_dir_spec(stem: Seq<char>, version: Seq<char>) -> Seq<char> {
    stem + "-"@ + version
}

/// `<version dir>/<stem>`, with `.exe` appended on Windows.
pub open spec fn binary_path_spec(stem: Seq<char>, version: Seq<char>, os: Os) -> Seq<char> {
    version_dir_spec(stem, version) + "/"@ + stem + if os == Os::Windows {
        ".exe"@
    } else {
        ""@
    }
}

impl Os {
    /// The name of the operating system in asset names.
    pub fn name(&self) -> (r: &'static str)
        ensures
            r@ == os_name_spec(*self),
    {
        match self {
            Os::Mac => "mac",
            Os::Linux => "linux",
            Os::Windows => "windows",
        }
    }
}

impl Arch {
    /// The identifier of the architecture in asset names.
    pub fn name(&self) -> (r: &'static str)
        ensures
            r@ == arch_name_spec(*self),
    {
        match self {
            Arch::Aarch64 => "aarch64",
            Arch::X86 => "x86",
            Arch::X86_64 => "x86_64",
        }
    }
}

impl ArchiveFormat {
    /// The file extension of an asset packed in this format.
    pub fn extension(&self) -> (r: &'static str)
        ensures
            r@ == extension_spec(*self),
    {
        match self {
            ArchiveFormat::GzipTar => "tar.gz",
            ArchiveFormat::Zip => "zip",
        }
    }
}

/// The archive format of the assets published for `os`.
pub fn archive_format(os: Os) -> (r: ArchiveFormat)
    ensures
        r == archive_format_spec(os),
{
    match os {
        Os::Mac | Os::Linux => ArchiveFormat::GzipTar,
        Os::Windows => ArchiveFormat::Zip,
    }
}

impl Platform {
    pub fn new(os: Os, arch: String) -> (r: Platform)
        ensures
            r.os == os,
            r.arch@ == arch@,
    {
        Platform { os, arch }
    }

    /// The platform as the host reports it.
    pub fn from_host(os: Os, arch: Arch) -> (r: Platform)
        ensures
            r.os == os,
            r.arch@ == arch_name_spec(arch),
    {
        Platform { os, arch: String::from_str(arch.name()) }
    }

    /// The archive format of the assets for this platform.
    pub fn archive_format(&self) -> (r: ArchiveFormat)
        ensures
            r == archive_format_spec(self.os),
    {
        archive_format(self.os)
    }

    /// The name of the asset that holds `stem` for this platform.
    pub fn asset_name(&self, stem: &str) -> (r: String)
        ensures
            r@ == asset_name_spec(stem@, self.os, self.arch@),
    {
        let mut r = String::from_str(stem);
        r.append("-");
        r.append(self.os.name());
        r.append("-");
        r.append(self.arch.as_str());
        r.append(".");
        r.append(self.archive_format().extension());
        r
    }
}

/// The directory that holds `version` of the server named `stem`.
pub fn version_dir(stem: &str, version: &str) -> (r: String)
    ensures
        r@ == version_dir_spec(stem@, version@),
{
    let mut r = String::from_str(stem);
    r.append("-");
    r.append(version);
    r
}

/// The path of the binary of `version` of the server named `stem` on `os`.
pub fn binary_path(stem: &str, version: &str, os: Os) -> (r: String)
    ensures
        r@ == binary_path_spec(stem@, version@, os),
{
    let mut r = version_dir(stem, version);
    r.append("/");
    r.append(stem);
    match os {
        Os::Windows => r.append(".exe"),
        _ => r.append(""),
    }
    r
}

/// Archive formats follow the operating system: gzipped tarballs on macOS and
/// Linux, zips on Windows, and no other format for any of them.
pub proof fn lemma_archive_format_by_os(os: Os)
    ensures
        (os == Os::Mac || os == Os::Linux) <==> archive_format_spec(os) == ArchiveFormat::GzipTar,
        os == Os::Windows <==> archive_format_spec(os) == ArchiveFormat::Zip,
{
}

} // verus!
