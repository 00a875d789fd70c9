use arkiv_sdk::node_bindings::release::{
    asset_name, find_asset, release_arch, release_os, sha256_hex, verify_checksum, ReleaseError,
};
use arkiv_sdk::node_bindings::{
    http_endpoint, startup_line, startup_timed_out, ws_endpoint, Arkiv, Asset, Release,
    StartupLine, Tag, API,
    GITHUB_RELEASE_URL,
};

fn strs(v: &[String]) -> Vec<&str> {
    v.iter().map(|s| s.as_str()).collect()
}

#[test]
fn default_builder_runs_documented_command() {
    let args = Arkiv::default().command_args();
    assert_eq!(
        strs(&args),
        vec![
            "--dev",
            "--networkid",
            "1337",
            "--http",
            "--http.api",
            "eth,web3,net,debug,arkiv",
            "--http.addr",
            "0.0.0.0",
            "--http.port",
            "8545",
            "--http.corsdomain",
            "*",
            "--http.vhosts",
            "*",
            "--ws",
            "--ws.api",
            "eth,web3,net,debug,arkiv",
            "--ws.addr",
            "0.0.0.0",
            "--ws.port",
            "8546",
            "--datadir",
            "./geth_data",
            "--verbosity",
            "3",
        ]
    );
}

#[test]
fn unset_builder_has_no_arguments() {
    assert!(Arkiv::new().command_args().is_empty());
}

#[test]
fn http_port_alone_turns_http_on() {
    let args = Arkiv::new().http_port(9000).command_args();
    assert_eq!(
        strs(&args),
        vec!["--http", "--http.api", API, "--http.addr", "localhost", "--http.port", "9000"]
    );
}

#[test]
fn ws_with_own_api_and_port() {
    let args = Arkiv::new().ws().ws_api("eth").ws_port(1234).command_args();
    assert_eq!(
        strs(&args),
        vec!["--ws", "--ws.api", "eth", "--ws.addr", "localhost", "--ws.port", "1234"]
    );
}

#[test]
fn spawn_plan_of_default_builder() {
    let plan = Arkiv::default().spawn_plan();
    assert!(plan.download.is_none());
    assert_eq!(plan.program, "geth");
    assert_eq!(plan.http_addr, "0.0.0.0");
    assert_eq!(plan.http_port, 8545);
    assert_eq!(plan.ws_addr, "0.0.0.0");
    assert_eq!(plan.ws_port, 8546);
    assert_eq!(plan.networkid, 1337);
    assert_eq!(plan.datadir.as_deref(), Some("./geth_data"));
    assert!(plan.ephemeral_datadir);
    assert!(!plan.keep_stderr);
    assert_eq!(plan.args.len(), 25);
}

#[test]
fn spawn_plan_downloads_a_fetched_tag() {
    let plan = Arkiv::new().fetch_tag(Tag::Latest).download_dir("/tmp/bin").spawn_plan();
    let (url, dir) = plan.download.expect("a download is planned");
    assert_eq!(url, format!("{GITHUB_RELEASE_URL}/latest"));
    assert_eq!(dir.as_deref(), Some("/tmp/bin"));
    assert_eq!(plan.http_addr, "localhost");
    assert_eq!(plan.networkid, 0);

    let plan = Arkiv::new().fetch_tag(Tag::Name("v1.2.3".to_string())).spawn_plan();
    let (url, dir) = plan.download.expect("a download is planned");
    assert_eq!(url, format!("{GITHUB_RELEASE_URL}/tags/v1.2.3"));
    assert!(dir.is_none());
}

#[test]
fn spawn_plan_given_program_downloads_nothing() {
    let plan = Arkiv::new().fetch_tag(Tag::Latest).program("/usr/bin/geth").spawn_plan();
    assert!(plan.download.is_none());
    assert_eq!(plan.program, "/usr/bin/geth");
}

#[test]
fn startup_lines() {
    assert_eq!(startup_line("Fatal: could not open database"), StartupLine::Fatal);
    assert_eq!(
        startup_line("INFO HTTP server started endpoint=127.0.0.1:8545 prefix= cors=* vhosts=*"),
        StartupLine::Ready
    );
    assert_eq!(
        startup_line("INFO HTTP server started endpoint=127.0.0.1:8551 auth=true"),
        StartupLine::Pending
    );
    assert_eq!(startup_line("INFO Starting peer-to-peer node"), StartupLine::Pending);
    assert_eq!(startup_line("HTTP server started Fatal: oops"), StartupLine::Fatal);
    assert_eq!(startup_line(""), StartupLine::Pending);
}

#[test]
fn endpoints() {
    assert_eq!(http_endpoint("localhost", 8545), "http://localhost:8545");
    assert_eq!(ws_endpoint("0.0.0.0", 8546), "ws://0.0.0.0:8546");
    assert_eq!(http_endpoint("::1", 0), "http://::1:0");
    assert_eq!(ws_endpoint("h", 65535), "ws://h:65535");
}

#[test]
fn release_names() {
    assert_eq!(release_os("macos"), Some("darwin"));
    assert_eq!(release_os("linux"), Some("linux"));
    assert_eq!(release_os("windows"), Some("windows"));
    assert_eq!(release_os("freebsd"), None);
    assert_eq!(release_arch("x86_64"), Some("amd64"));
    assert_eq!(release_arch("aarch64"), Some("arm64"));
    assert_eq!(release_arch("riscv64"), None);
    assert_eq!(
        asset_name("v1.0.0", "linux", "amd64", "tar.gz"),
        "arkiv-op-geth-v1.0.0-linux-amd64.tar.gz"
    );
}

fn asset(name: &str) -> Asset {
    Asset { name: name.to_string(), browser_download_url: format!("https://example.org/{name}") }
}

#[test]
fn find_asset_takes_the_first_match() {
    let assets = vec![asset("a"), asset("b"), asset("b")];
    assert_eq!(find_asset(&assets, "b"), Some(1));
    assert_eq!(find_asset(&assets, "a"), Some(0));
    assert_eq!(find_asset(&assets, "c"), None);
    assert_eq!(find_asset(&Vec::new(), "a"), None);
}

#[test]
fn choose_assets_of_a_release() {
    let release = Release {
        tag_name: "v1.0.0".to_string(),
        assets: vec![
            asset("arkiv-op-geth-v1.0.0-darwin-arm64.tar.gz"),
            asset("arkiv-op-geth-v1.0.0-linux-amd64.tar.gz.sha256"),
            asset("arkiv-op-geth-v1.0.0-linux-amd64.tar.gz"),
        ],
    };
    let choice = release.choose_assets("linux", "x86_64").expect("assets are there");
    assert_eq!(choice.tarball, 2);
    assert_eq!(choice.checksum, 1);

    match release.choose_assets("macos", "aarch64") {
        Err(ReleaseError::ChecksumNotFound(n)) => {
            assert_eq!(n, "arkiv-op-geth-v1.0.0-darwin-arm64.tar.gz.sha256")
        }
        other => panic!("unexpected {other:?}"),
    }
    match release.choose_assets("windows", "x86_64") {
        Err(ReleaseError::TarballNotFound(n)) => {
            assert_eq!(n, "arkiv-op-geth-v1.0.0-windows-amd64.tar.gz")
        }
        other => panic!("unexpected {other:?}"),
    }
    match release.choose_assets("plan9", "x86_64") {
        Err(ReleaseError::UnsupportedOs(o)) => assert_eq!(o, "plan9"),
        other => panic!("unexpected {other:?}"),
    }
    match release.choose_assets("linux", "mips") {
        Err(ReleaseError::UnsupportedArch(a)) => assert_eq!(a, "mips"),
        other => panic!("unexpected {other:?}"),
    }
}

const EMPTY_SHA256: &str = "e3b0c44298fc1c149afbf4c8996fb92427ae41e4649b934ca495991b7852b855";
const ABC_SHA256: &str = "ba7816bf8f01cfea414140de5dae2223b00361a396177a9cb410ff61f20015ad";

#[test]
fn sha256_hex_digests() {
    assert_eq!(sha256_hex(b""), EMPTY_SHA256);
    assert_eq!(sha256_hex(b"abc"), ABC_SHA256);
}

#[test]
fn checksum_mismatch_is_refused_with_the_digest() {
    assert_eq!(verify_checksum(ABC_SHA256, b"abc"), Ok(()));
    assert_eq!(verify_checksum(EMPTY_SHA256, b"abc"), Err(ABC_SHA256.to_string()));
    let upper = ABC_SHA256.to_uppercase();
    assert_eq!(verify_checksum(&upper, b"abc"), Err(ABC_SHA256.to_string()));
    let with_newline = format!("{ABC_SHA256}\n");
    assert_eq!(verify_checksum(&with_newline, b"abc"), Err(ABC_SHA256.to_string()));
}

#[test]
fn startup_timeout_is_ten_seconds() {
    assert!(!startup_timed_out(0));
    assert!(!startup_timed_out(9_999_999_999));
    assert!(startup_timed_out(10_000_000_000));
    assert!(startup_timed_out(u128::MAX));
}
