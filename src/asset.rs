//! The release asset published for one version, OS and architecture.
use vstd::prelude::*;
use crate::error::Error;
use crate::version::{version_text, Version};

verus! {

#[derive(Debug, Clone, Copy, PartialEq, Eq, Structural)]
pub enum TargetOS {
    Linux,
    Darwin,
    Windows,
}

#[derive(Debug, Clone, Copy, PartialEq, Eq, Structural)]
pub enum TargetArch {
    X86_64,
    Aarch64,
}

/// How an asset is packed.
#[derive(Debug, Clone, Copy, PartialEq, Eq, Structural)]
pub enum ArchiveFormat {
    TarGz,
    Zip,
}

/// The identity of one release asset.
#[derive(Debug)]
pub struct Asset {
    /// Name of the published file, also its key in the checksum manifest.
    pub filename: String,
    /// Name of the directory the asset is staged and unpacked under.
    pub install_name: String,
    /// Where the file is downloaded from.
    pub url: String,
    pub format: ArchiveFormat,
}

pub open spec fn os_name(os: TargetOS) -> Seq<char> {
    match os {
        TargetOS::Linux => "Linux"@,
        TargetOS::Darwin => "Darwin"@,
        TargetOS::Windows => "Windows"@,
    }
}

/// The platform part of an asset's file name; none for an unsupported pair.
pub open spec fn platform_tag(os: TargetOS, arch: TargetArch) -> Option<Seq<char>> {
    match (os, arch) {
        (TargetOS::Linux, TargetArch::X86_64) => Some("manylinux_2_28_x86_64"@),
        (TargetOS::Linux, TargetArch::Aarch64) => Some("manylinux_2_28_aarch64"@),
        (TargetOS::Darwin, TargetArch::X86_64) => Some("darwin_x86_64"@),
        (TargetOS::Darwin, TargetArch::Aarch64) => Some("darwin_arm64"@),
        (TargetOS::Windows, TargetArch::X86_64) => Some("windows"@),
        (TargetOS::Windows, TargetArch::Aarch64) => None,
    }
}

pub open spec fn format_of(os: TargetOS) -> ArchiveFormat {
    match os {
        TargetOS::Windows => ArchiveFormat::Zip,
        _ => ArchiveFormat::TarGz,
    }
}

pub open spec fn extension_of(f: ArchiveFormat) -> Seq<char> {
    match f {
        ArchiveFormat::TarGz => ".tar.gz"@,
        ArchiveFormat::Zip => ".zip"@,
    }
}

/// The address under which the files of a release are published.
pub open spec fn release_base(version: Seq<char>) -> Seq<char> {
    "https://github.com/WasmEdge/WasmEdge/releases/download/"@ + version + "/"@
}

pub open spec fn asset_filename(version: Seq<char>, tag: Seq<char>, os: TargetOS) -> Seq<char> {
    "WasmEdge-"@ + version + "-"@ + tag + extension_of(format_of(os))
}

pub open spec fn asset_install_name(version: Seq<char>, os: TargetOS) -> Seq<char> {
    "WasmEdge-"@ + version + "-"@ + os_name(os)
}

fn os_name_text(os: TargetOS) -> (r: &'static str)
    ensures
        r@ == os_name(os),
{
    match os {
        TargetOS::Linux => "Linux",
        TargetOS::Darwin => "Darwin",
        TargetOS::Windows => "Windows",
    }
}

fn arch_name_text(arch: TargetArch) -> &'static str {
    match arch {
        TargetArch::X86_64 => "x86_64",
        TargetArch::Aarch64 => "aarch64",
    }
}

fn platform_tag_text(os: TargetOS, arch: TargetArch) -> (r: Option<&'static str>)
    ensures
        match r {
            Some(t) => platform_tag(os, arch) == Some(t@),
            None => platform_tag(os, arch) is None,
        },
{
    match (os, arch) {
        (TargetOS::Linux, TargetArch::X86_64) => Some("manylinux_2_28_x86_64"),
        (TargetOS::Linux, TargetArch::Aarch64) => Some("manylinux_2_28_aarch64"),
        (TargetOS::Darwin, TargetArch::X86_64) => Some("darwin_x86_64"),
        (TargetOS::Darwin, TargetArch::Aarch64) => Some("darwin_arm64"),
        (TargetOS::Windows, TargetArch::X86_64) => Some("windows"),
        (TargetOS::Windows, TargetArch::Aarch64) => None,
    }
}

/// The archive format used on `os`.
pub fn archive_format(os: TargetOS) -> (r: ArchiveFormat)
    ensures
        r == format_of(os),
{
    match os {
        TargetOS::Windows => ArchiveFormat::Zip,
        _ => ArchiveFormat::TarGz,
    }
}

fn extension_text(f: ArchiveFormat) -> (r: &'static str)
    ensures
        r@ == extension_of(f),
{
    match f {
        ArchiveFormat::TarGz => ".tar.gz",
        ArchiveFormat::Zip => ".zip",
    }
}

fn release_base_text(version: &str) -> (r: String)
    ensures
        r@ == release_base(version@),
{
    let mut r = "https://github.com/WasmEdge/WasmEdge/releases/download/".to_owned();
    r.append(version);
    r.append("/");
    r
}

/// Where the checksum manifest of a release is published.
pub fn checksum_manifest_url(version: &Version) -> (r: String)
    ensures
        r@ == release_base(version_text(version.parts())) + "SHA256SUM"@,
{
    let v = version.to_string();
    let mut r = release_base_text(v.as_str());
    r.append("SHA256SUM");
    r
}

impl Asset {
    /// The asset for `version` on `os` and `arch`; an unsupported pair is refused.
    pub fn new(version: &Version, os: TargetOS, arch: TargetArch) -> (r: Result<Asset, Error>)
        ensures
            platform_tag(os, arch) is Some <==> r is Ok,
            r matches Ok(a) ==> {
                let v = version_text(version.parts());
                &&& a.filename@ == asset_filename(v, platform_tag(os, arch)->0, os)
                &&& a.install_name@ == asset_install_name(v, os)
                &&& a.url@ == release_base(v) + a.filename@
                &&& a.format == format_of(os)
            },
            r matches Err(e) ==> e matches Error::AssetResolution { .. },
    {
        let v = version.to_string();
        let tag = match platform_tag_text(os, arch) {
            Some(t) => t,
            None => {
                return Err(
                    Error::AssetResolution {
                        os: os_name_text(os).to_owned(),
                        arch: arch_name_text(arch).to_owned(),
                    },
                );
            },
        };
        let format = archive_format(os);
        let mut filename = "WasmEdge-".to_owned();
        filename.append(v.as_str());
        filename.append("-");
        filename.append(tag);
        filename.append(extension_text(format));
        let mut install_name = "WasmEdge-".to_owned();
        install_name.append(v.as_str());
        install_name.append("-");
        install_name.append(os_name_text(os));
        let mut url = release_base_text(v.as_str());
        url.append(filename.as_str());
        Ok(Asset { filename, install_name, url, format })
    }
}

} // verus!
