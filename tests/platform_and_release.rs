use sieve_extension::command::{launch_command, Tool};
use sieve_extension::error::ResolveError;
use sieve_extension::platform::{archive_format, binary_path, version_dir, Arch, ArchiveFormat, Os, Platform};
use sieve_extension::release::{find_asset, match_asset, Asset, ReleaseInfo};

fn asset(name: &str) -> Asset {
    Asset::new(name.to_string(), format!("https://example.com/{name}"))
}

#[test]
fn archive_format_follows_os() {
    assert_eq!(archive_format(Os::Mac), ArchiveFormat::GzipTar);
    assert_eq!(archive_format(Os::Linux), ArchiveFormat::GzipTar);
    assert_eq!(archive_format(Os::Windows), ArchiveFormat::Zip);
    for arch in [Arch::Aarch64, Arch::X86, Arch::X86_64] {
        assert_eq!(Platform::from_host(Os::Mac, arch).archive_format(), ArchiveFormat::GzipTar);
        assert_eq!(Platform::from_host(Os::Linux, arch).archive_format(), ArchiveFormat::GzipTar);
        assert_eq!(Platform::from_host(Os::Windows, arch).archive_format(), ArchiveFormat::Zip);
    }
}

#[test]
fn host_platform_names() {
    assert_eq!(Platform::from_host(Os::Linux, Arch::X86_64).arch, "x86_64");
    assert_eq!(Platform::from_host(Os::Mac, Arch::Aarch64).arch, "aarch64");
    assert_eq!(Platform::from_host(Os::Windows, Arch::X86).arch, "x86");
    assert_eq!(Os::Mac.name(), "mac");
    assert_eq!(Os::Windows.name(), "windows");
}

#[test]
fn asset_names_per_platform() {
    let linux = Platform::new(Os::Linux, "x64".to_string());
    assert_eq!(linux.asset_name("toolx-lsp"), "toolx-lsp-linux-x64.tar.gz");
    let mac = Platform::from_host(Os::Mac, Arch::Aarch64);
    assert_eq!(mac.asset_name("sieve-lsp"), "sieve-lsp-mac-aarch64.tar.gz");
    let windows = Platform::from_host(Os::Windows, Arch::X86_64);
    assert_eq!(windows.asset_name("sieve-lsp"), "sieve-lsp-windows-x86_64.zip");
}

#[test]
fn version_dir_and_binary_path() {
    assert_eq!(version_dir("sieve-lsp", "v1.2.0"), "sieve-lsp-v1.2.0");
    assert_eq!(binary_path("sieve-lsp", "v1.2.0", Os::Linux), "sieve-lsp-v1.2.0/sieve-lsp");
    assert_eq!(binary_path("sieve-lsp", "v1.2.0", Os::Mac), "sieve-lsp-v1.2.0/sieve-lsp");
    assert_eq!(binary_path("sieve-lsp", "v1.2.0", Os::Windows), "sieve-lsp-v1.2.0/sieve-lsp.exe");
}

#[test]
fn match_asset_finds_exact_name() {
    let release = ReleaseInfo::new(
        "v1".to_string(),
        vec![
            asset("toolx-lsp-mac-x64.tar.gz"),
            asset("toolx-lsp-linux-x64.tar.gz"),
            asset("toolx-lsp-windows-x64.zip"),
        ],
    );
    let platform = Platform::new(Os::Linux, "x64".to_string());
    let found = match_asset(&release, &platform, "toolx-lsp").unwrap();
    assert_eq!(found.name, "toolx-lsp-linux-x64.tar.gz");
    assert_eq!(found.download_url, "https://example.com/toolx-lsp-linux-x64.tar.gz");
}

#[test]
fn match_asset_reports_expected_name() {
    let release = ReleaseInfo::new(
        "v1".to_string(),
        vec![asset("toolx-lsp-linux-x64.tar.gz.sha256"), asset("toolx-lsp-linux-arm64.tar.gz")],
    );
    let platform = Platform::new(Os::Linux, "x64".to_string());
    match match_asset(&release, &platform, "toolx-lsp") {
        Err(ResolveError::AssetNotFound(name)) => {
            assert_eq!(name, "toolx-lsp-linux-x64.tar.gz");
            assert!(ResolveError::AssetNotFound(name).message().contains("toolx-lsp-linux-x64.tar.gz"));
        }
        other => panic!("expected a missing asset, got {other:?}"),
    }
}

#[test]
fn match_asset_takes_first_of_equal_names() {
    let mut second = asset("toolx-lsp-linux-x64.tar.gz");
    second.download_url = "https://mirror.example.com/second".to_string();
    let release = ReleaseInfo::new(
        "v1".to_string(),
        vec![asset("other"), asset("toolx-lsp-linux-x64.tar.gz"), second],
    );
    let platform = Platform::new(Os::Linux, "x64".to_string());
    let found = match_asset(&release, &platform, "toolx-lsp").unwrap();
    assert_eq!(found.download_url, "https://example.com/toolx-lsp-linux-x64.tar.gz");
    assert_eq!(find_asset(&release.assets, &"toolx-lsp-linux-x64.tar.gz".to_string()), Some(1));
}

#[test]
fn match_asset_on_empty_release() {
    let release = ReleaseInfo::new("v1".to_string(), vec![]);
    let platform = Platform::new(Os::Windows, "x64".to_string());
    match match_asset(&release, &platform, "toolx-lsp") {
        Err(ResolveError::AssetNotFound(name)) => assert_eq!(name, "toolx-lsp-windows-x64.zip"),
        other => panic!("expected a missing asset, got {other:?}"),
    }
}

#[test]
fn tool_ids() {
    assert!(matches!(Tool::from_id("sieve_lsp"), Ok(Tool::SieveLsp)));
    assert!(matches!(Tool::from_id("rust_analyzer"), Err(ResolveError::UnknownTool)));
    assert!(matches!(Tool::from_id(""), Err(ResolveError::UnknownTool)));
    assert_eq!(Tool::SieveLsp.stem(), "sieve-lsp");
    assert_eq!(Tool::SieveLsp.repository(), "yourusername/sieve-language-server");
}

#[test]
fn launch_command_uses_stdio() {
    let c = launch_command("sieve-lsp-v1/sieve-lsp".to_string());
    assert_eq!(c.command, "sieve-lsp-v1/sieve-lsp");
    assert_eq!(c.args, vec!["--stdio".to_string()]);
}

#[test]
fn error_messages() {
    assert_eq!(ResolveError::UnknownTool.message(), "Unknown language server");
    assert_eq!(ResolveError::Release("rate limited".to_string()).message(), "rate limited");
    assert_eq!(ResolveError::Download("timeout".to_string()).message(), "failed to download file: timeout");
    assert_eq!(
        ResolveError::ListDir("denied".to_string()).message(),
        "failed to list working directory denied"
    );
    assert_eq!(ResolveError::Permission("read-only".to_string()).message(), "read-only");
}
