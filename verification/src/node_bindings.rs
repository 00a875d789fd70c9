//! The decisions behind running a `geth` node with `arkiv` capabilities locally,
//! for development and testing. Constructor semantics work like
//! `alloy::node_bindings::Anvil` and `alloy::node_bindings::Geth`.
//!
//! The builder [`Arkiv`] collects options; [`Arkiv::spawn_plan`] turns them into the
//! program to run, its arguments and the endpoints it will serve;
//! [`startup_line`] reads what the node prints while it starts.
pub mod release;

pub use release::{Asset, Release};

use vstd::prelude::*;
use vstd::string::StringExecFns;

use crate::decimal::{decimal, decimal_string};
use crate::text::{contains_str, str_contains};

verus! {

/// The GitHub API endpoint of the `arkiv-op-geth` releases.
pub const GITHUB_RELEASE_URL: &'static str = "https://api.github.com/repos/Arkiv-Network/arkiv-op-geth/releases";

/// The program that runs when none is given.
pub const PROGRAM: &'static str = "geth";

/// The network id that [`Arkiv::default`] sets. The node sets it on startup
/// anyway; setting it up front avoids a race for wallets and providers that read
/// the chain id.
pub const ARKIV_NETWORKID: u64 = 1337;

/// The APIs served over HTTP and Websocket when none are given.
pub const API: &'static str = "eth,web3,net,debug,arkiv";

/// The address served when none is given.
pub const DEFAULT_ADDR: &'static str = "localhost";

/// The HTTP port served when none is given.
pub const DEFAULT_HTTP_PORT: u16 = 8545;

/// The Websocket port served when none is given.
pub const DEFAULT_WS_PORT: u16 = 8546;

/// How long the node may take to start, in seconds.
pub const NODE_STARTUP_TIMEOUT_SECS: u64 = 10;

/// The release tag to fetch from GitHub.
#[derive(Debug, Clone)]
pub enum Tag {
    /// The latest available tag.
    Latest,
    /// A tag given by name.
    Name(String),
}

/// The options of an [`Arkiv`] builder, as mathematical values.
pub ghost struct ArkivModel {
    pub program: Option<Seq<char>>,
    pub dev: bool,
    pub http: bool,
    pub http_api: Option<Seq<char>>,
    pub http_addr: Option<Seq<char>>,
    pub http_port: Option<u16>,
    pub http_corsdomain: Option<Seq<char>>,
    pub http_vhosts: Option<Seq<char>>,
    pub ws: bool,
    pub ws_api: Option<Seq<char>>,
    pub ws_addr: Option<Seq<char>>,
    pub ws_port: Option<u16>,
    pub networkid: Option<u64>,
    pub datadir: Option<Seq<char>>,
    pub ephemeral_datadir: bool,
    pub verbosity: Option<u8>,
    pub keep_stderr: bool,
    pub release_url: Option<Seq<char>>,
    pub download_dir: Option<Seq<char>>,
}

/// The view of an optional string.
pub open spec fn opt_view(o: Option<String>) -> Option<Seq<char>> {
    match o {
        Some(s) => Some(s@),
        None => None,
    }
}

/// The views of a sequence of strings.
pub open spec fn views(v: Seq<String>) -> Seq<Seq<char>> {
    v.map_values(|s: String| s@)
}

/// A builder with every option unset.
pub open spec fn unset_model() -> ArkivModel {
    ArkivModel {
        program: None,
        dev: false,
        http: false,
        http_api: None,
        http_addr: None,
        http_port: None,
        http_corsdomain: None,
        http_vhosts: None,
        ws: false,
        ws_api: None,
        ws_addr: None,
        ws_port: None,
        networkid: None,
        datadir: None,
        ephemeral_datadir: false,
        verbosity: None,
        keep_stderr: false,
        release_url: None,
        download_dir: None,
    }
}

/// The options of [`Arkiv::default`]:
/// `geth --dev --networkid 1337 --http --http.api 'eth,web3,net,debug,arkiv'
/// --http.addr '0.0.0.0' --http.port 8545 --http.corsdomain '*' --http.vhosts '*'
/// --ws --ws.api 'eth,web3,net,debug,arkiv' --ws.addr '0.0.0.0' --ws.port 8546
/// --datadir './geth_data' --verbosity 3`, with an ephemeral datadir.
pub open spec fn default_model() -> ArkivModel {
    ArkivModel {
        dev: true,
        networkid: Some(ARKIV_NETWORKID),
        http_addr: Some("0.0.0.0"@),
        http_corsdomain: Some("*"@),
        http_vhosts: Some("*"@),
        ws_addr: Some("0.0.0.0"@),
        datadir: Some("./geth_data"@),
        ephemeral_datadir: true,
        verbosity: Some(3),
        ..unset_model()
    }
}

/// The URL of the release information of a tag.
pub open spec fn release_url_of(tag: Tag) -> Seq<char> {
    match tag {
        Tag::Latest => GITHUB_RELEASE_URL@ + "/latest"@,
        Tag::Name(name) => GITHUB_RELEASE_URL@ + "/tags/"@ + name@,
    }
}

pub open spec fn or_default(o: Option<Seq<char>>, d: Seq<char>) -> Seq<char> {
    match o {
        Some(s) => s,
        None => d,
    }
}

pub open spec fn port_or(o: Option<u16>, d: u16) -> u16 {
    match o {
        Some(p) => p,
        None => d,
    }
}

/// A flag and its value where the value is given, nothing otherwise.
pub open spec fn opt_flag(flag: Seq<char>, o: Option<Seq<char>>) -> Seq<Seq<char>> {
    match o {
        Some(v) => seq![flag, v],
        None => seq![],
    }
}

/// HTTP is served where it is asked for, or where an HTTP address or port is given.
pub open spec fn http_enabled(m: ArkivModel) -> bool {
    m.http || m.http_addr is Some || m.http_port is Some
}

/// Websocket is served where it is asked for, or where a Websocket address or port is given.
pub open spec fn ws_enabled(m: ArkivModel) -> bool {
    m.ws || m.ws_addr is Some || m.ws_port is Some
}

pub open spec fn dev_args(m: ArkivModel) -> Seq<Seq<char>> {
    if m.dev {
        seq!["--dev"@]
    } else {
        seq![]
    }
}

pub open spec fn networkid_args(m: ArkivModel) -> Seq<Seq<char>> {
    match m.networkid {
        Some(n) => seq!["--networkid"@, decimal(n as nat)],
        None => seq![],
    }
}

pub open spec fn http_args(m: ArkivModel) -> Seq<Seq<char>> {
    if http_enabled(m) {
        seq![
            "--http"@,
            "--http.api"@,
            or_default(m.http_api, API@),
            "--http.addr"@,
            or_default(m.http_addr, DEFAULT_ADDR@),
            "--http.port"@,
            decimal(port_or(m.http_port, DEFAULT_HTTP_PORT) as nat),
        ] + opt_flag("--http.corsdomain"@, m.http_corsdomain) + opt_flag(
            "--http.vhosts"@,
            m.http_vhosts,
        )
    } else {
        seq![]
    }
}

pub open spec fn ws_args(m: ArkivModel) -> Seq<Seq<char>> {
    if ws_enabled(m) {
        seq![
            "--ws"@,
            "--ws.api"@,
            or_default(m.ws_api, API@),
            "--ws.addr"@,
            or_default(m.ws_addr, DEFAULT_ADDR@),
            "--ws.port"@,
            decimal(port_or(m.ws_port, DEFAULT_WS_PORT) as nat),
        ]
    } else {
        seq![]
    }
}

pub open spec fn verbosity_args(m: ArkivModel) -> Seq<Seq<char>> {
    match m.verbosity {
        Some(v) => seq!["--verbosity"@, decimal(v as nat)],
        None => seq![],
    }
}

/// The arguments that the node is started with.
pub open spec fn command_args(m: ArkivModel) -> Seq<Seq<char>> {
    dev_args(m) + networkid_args(m) + http_args(m) + ws_args(m) + opt_flag("--datadir"@, m.datadir)
        + verbosity_args(m)
}

/// The default ports in decimal, and the default address and APIs.
proof fn lemma_default_ports()
    ensures
        decimal(8546nat) == "8546"@,
        decimal(8545nat) == "8545"@,
        DEFAULT_ADDR@ == "localhost"@,
        API@ == "eth,web3,net,debug,arkiv"@,
{
    reveal_strlit("8546");
    reveal_strlit("8545");
    reveal_with_fuel(decimal, 5);
}

/// `args` holds `a` somewhere.
pub open spec fn has_arg(args: Seq<Seq<char>>, a: Seq<char>) -> bool {
    exists|i: int| 0 <= i < args.len() && args[i] == a
}

/// `args` holds the flag `flag` directly followed by the value `v`.
pub open spec fn has_flag_value(args: Seq<Seq<char>>, flag: Seq<char>, v: Seq<char>) -> bool {
    exists|i: int| 0 <= i && i + 1 < args.len() && #[trigger] args[i] == flag && args[i + 1] == v
}

/// Setting a Websocket port or address, or asking for Websocket, starts the
/// Websocket server (`--ws`); the port, address and APIs given are passed on, and
/// where none is given the defaults are (`8546`, `localhost`, and
/// `eth,web3,net,debug,arkiv`).
pub proof fn law_websocket_options_are_served(m: ArkivModel)
    ensures
        m.ws ==> has_arg(command_args(m), "--ws"@),
        m.ws_addr is Some ==> has_arg(command_args(m), "--ws"@),
        m.ws_port is Some ==> has_arg(command_args(m), "--ws"@),
        m.ws_port matches Some(p) ==> has_flag_value(command_args(m), "--ws.port"@, decimal(p as nat)),
        m.ws_addr matches Some(a) ==> has_flag_value(command_args(m), "--ws.addr"@, a),
        m.ws && m.ws_port is None ==> has_flag_value(command_args(m), "--ws.port"@, "8546"@),
        m.ws && m.ws_addr is None ==> has_flag_value(command_args(m), "--ws.addr"@, "localhost"@),
        m.ws && m.ws_api is None ==> has_flag_value(
            command_args(m),
            "--ws.api"@,
            "eth,web3,net,debug,arkiv"@,
        ),
{
    lemma_default_ports();
    let args = command_args(m);
    let w = dev_args(m) + networkid_args(m) + http_args(m);
    let tail = opt_flag("--datadir"@, m.datadir) + verbosity_args(m);
    assert(args =~= w + ws_args(m) + tail);
    if m.ws_port is Some || m.ws || m.ws_addr is Some {
        let k = w.len() as int;
        let ws = ws_args(m);
        assert(args[k] == ws[0]);
        assert(args[k + 1] == ws[1]);
        assert(args[k + 2] == ws[2]);
        assert(args[k + 3] == ws[3]);
        assert(args[k + 4] == ws[4]);
        assert(args[k + 5] == ws[5]);
        assert(args[k + 6] == ws[6]);
        assert(has_arg(args, "--ws"@));
        assert(has_flag_value(args, "--ws.port"@, ws[6]));
        assert(has_flag_value(args, "--ws.addr"@, ws[4]));
        assert(has_flag_value(args, "--ws.api"@, ws[2]));
    }
}

/// Setting an HTTP port or address, or asking for HTTP, starts the HTTP server
/// (`--http`); the port, address and APIs given are passed on, and where none is
/// given the defaults are (`8545`, `localhost`, and `eth,web3,net,debug,arkiv`).
pub proof fn law_http_options_are_served(m: ArkivModel)
    ensures
        m.http ==> has_arg(command_args(m), "--http"@),
        m.http_addr is Some ==> has_arg(command_args(m), "--http"@),
        m.http_port is Some ==> has_arg(command_args(m), "--http"@),
        m.http_port matches Some(p) ==> has_flag_value(command_args(m), "--http.port"@, decimal(p as nat)),
        m.http_addr matches Some(a) ==> has_flag_value(command_args(m), "--http.addr"@, a),
        m.http && m.http_port is None ==> has_flag_value(command_args(m), "--http.port"@, "8545"@),
        m.http && m.http_addr is None ==> has_flag_value(command_args(m), "--http.addr"@, "localhost"@),
        m.http && m.http_api is None ==> has_flag_value(
            command_args(m),
            "--http.api"@,
            "eth,web3,net,debug,arkiv"@,
        ),
{
    lemma_default_ports();
    let args = command_args(m);
    let h = dev_args(m) + networkid_args(m);
    let tail = ws_args(m) + opt_flag("--datadir"@, m.datadir) + verbosity_args(m);
    assert(args =~= h + http_args(m) + tail);
    if m.http_port is Some || m.http || m.http_addr is Some {
        let k = h.len() as int;
        let hs = http_args(m);
        assert(args[k] == hs[0]);
        assert(args[k + 1] == hs[1]);
        assert(args[k + 2] == hs[2]);
        assert(args[k + 3] == hs[3]);
        assert(args[k + 4] == hs[4]);
        assert(args[k + 5] == hs[5]);
        assert(args[k + 6] == hs[6]);
        assert(has_arg(args, "--http"@));
        assert(has_flag_value(args, "--http.port"@, hs[6]));
        assert(has_flag_value(args, "--http.addr"@, hs[4]));
        assert(has_flag_value(args, "--http.api"@, hs[2]));
    }
}

/// The other options are passed on: `--dev`, `--networkid n`, `--datadir d` and
/// `--verbosity v` for the options that are set.
pub proof fn law_other_options_are_passed(m: ArkivModel)
    ensures
        m.dev ==> has_arg(command_args(m), "--dev"@),
        m.networkid matches Some(n) ==> has_flag_value(command_args(m), "--networkid"@, decimal(n as nat)),
        m.datadir matches Some(d) ==> has_flag_value(command_args(m), "--datadir"@, d),
        m.verbosity matches Some(v) ==> has_flag_value(command_args(m), "--verbosity"@, decimal(v as nat)),
{
    let args = command_args(m);
    let pre = dev_args(m) + networkid_args(m) + http_args(m) + ws_args(m);
    assert(args =~= dev_args(m) + (networkid_args(m) + http_args(m) + ws_args(m) + opt_flag(
        "--datadir"@,
        m.datadir,
    ) + verbosity_args(m)));
    if m.dev {
        assert(args[0] == "--dev"@);
    }
    if let Some(n) = m.networkid {
        let k = dev_args(m).len() as int;
        assert(args =~= dev_args(m) + networkid_args(m) + (http_args(m) + ws_args(m) + opt_flag(
            "--datadir"@,
            m.datadir,
        ) + verbosity_args(m)));
        assert(args[k] == "--networkid"@ && args[k + 1] == decimal(n as nat));
    }
    assert(args =~= pre + opt_flag("--datadir"@, m.datadir) + verbosity_args(m));
    if let Some(d) = m.datadir {
        let k = pre.len() as int;
        assert(args[k] == "--datadir"@ && args[k + 1] == d);
    }
    if let Some(v) = m.verbosity {
        let k = (pre + opt_flag("--datadir"@, m.datadir)).len() as int;
        assert(args[k] == "--verbosity"@ && args[k + 1] == decimal(v as nat));
    }
}

/// Builder for launching a local `geth` node with `arkiv` capabilities.
#[derive(Debug, Clone)]
pub struct Arkiv {
    program: Option<String>,
    dev: bool,
    http: bool,
    http_api: Option<String>,
    http_addr: Option<String>,
    http_port: Option<u16>,
    http_corsdomain: Option<String>,
    http_vhosts: Option<String>,
    ws: bool,
    ws_api: Option<String>,
    ws_addr: Option<String>,
    ws_port: Option<u16>,
    networkid: Option<u64>,
    datadir: Option<String>,
    ephemeral_datadir: bool,
    verbosity: Option<u8>,
    keep_stderr: bool,
    release_url: Option<String>,
    download_dir: Option<String>,
}

impl View for Arkiv {
    type V = ArkivModel;

    closed spec fn view(&self) -> ArkivModel {
        ArkivModel {
            program: opt_view(self.program),
            dev: self.dev,
            http: self.http,
            http_api: opt_view(self.http_api),
            http_addr: opt_view(self.http_addr),
            http_port: self.http_port,
            http_corsdomain: opt_view(self.http_corsdomain),
            http_vhosts: opt_view(self.http_vhosts),
            ws: self.ws,
            ws_api: opt_view(self.ws_api),
            ws_addr: opt_view(self.ws_addr),
            ws_port: self.ws_port,
            networkid: self.networkid,
            datadir: opt_view(self.datadir),
            ephemeral_datadir: self.ephemeral_datadir,
            verbosity: self.verbosity,
            keep_stderr: self.keep_stderr,
            release_url: opt_view(self.release_url),
            download_dir: opt_view(self.download_dir),
        }
    }
}

/// A copy of an optional string.
fn clone_opt(o: &Option<String>) -> (r: Option<String>)
    ensures
        opt_view(r) == opt_view(*o),
{
    match o {
        Some(s) => Some(s.clone()),
        None => None,
    }
}

/// Push a string onto a list of arguments.
fn push_arg(args: &mut Vec<String>, s: String)
    ensures
        views(final(args)@) == views(old(args)@).push(s@),
{
    args.push(s);
    assert(views(args@) =~= views(old(args)@).push(s@));
}

/// Push a string literal onto a list of arguments.
fn push_lit(args: &mut Vec<String>, s: &str)
    ensures
        views(final(args)@) == views(old(args)@).push(s@),
{
    push_arg(args, String::from_str(s));
}

/// What running the node needs: the release to download first (if any), the
/// program, its arguments, and what the running instance serves.
pub struct SpawnPlan {
    /// The release information URL and the download directory, where a tag is to
    /// be fetched and no program was given.
    pub download: Option<(String, Option<String>)>,
    /// The program to run (unless a download gives one).
    pub program: String,
    /// The arguments of the program.
    pub args: Vec<String>,
    pub http_addr: String,
    pub http_port: u16,
    pub ws_addr: String,
    pub ws_port: u16,
    /// The network id, zero where none was given.
    pub networkid: u64,
    pub datadir: Option<String>,
    pub ephemeral_datadir: bool,
    pub keep_stderr: bool,
}

impl Arkiv {
    /// Construct an [`Arkiv`] builder with all options unset.
    pub fn new() -> (a: Arkiv)
        ensures
            a@ == unset_model(),
    {
        Arkiv {
            program: None,
            dev: false,
            http: false,
            http_api: None,
            http_addr: None,
            http_port: None,
            http_corsdomain: None,
            http_vhosts: None,
            ws: false,
            ws_api: None,
            ws_addr: None,
            ws_port: None,
            networkid: None,
            datadir: None,
            ephemeral_datadir: false,
            verbosity: None,
            keep_stderr: false,
            release_url: None,
            download_dir: None,
        }
    }

    /// Fetch a prebuilt `op-geth` tagged release from GitHub when the node is spawned,
    /// unless a program is given.
    pub fn fetch_tag(self, tag: Tag) -> (a: Arkiv)
        ensures
            a@ == (ArkivModel { release_url: Some(release_url_of(tag)), ..self@ }),
    {
        let mut a = self;
        let url = match tag {
            Tag::Latest => {
                let mut u = String::from_str(GITHUB_RELEASE_URL);
                u.append("/latest");
                u
            },
            Tag::Name(name) => {
                let mut u = String::from_str(GITHUB_RELEASE_URL);
                u.append("/tags/");
                u.append(name.as_str());
                u
            },
        };
        a.release_url = Some(url);
        a
    }

    /// Sets the directory to download an arkiv `op-geth` release into.
    pub fn download_dir(self, download_dir: &str) -> (a: Arkiv)
        ensures
            a@ == (ArkivModel { download_dir: Some(download_dir@), ..self@ }),
    {
        let mut a = self;
        a.download_dir = Some(String::from_str(download_dir));
        a
    }

    /// Overrides the path to the `geth` program.
    pub fn program(self, path: &str) -> (a: Arkiv)
        ensures
            a@ == (ArkivModel { program: Some(path@), ..self@ }),
    {
        let mut a = self;
        a.program = Some(String::from_str(path));
        a
    }

    /// Launch the `geth` instance in `--dev` mode.
    pub fn dev(self) -> (a: Arkiv)
        ensures
            a@ == (ArkivModel { dev: true, ..self@ }),
    {
        let mut a = self;
        a.dev = true;
        a
    }

    /// Pass the `--http` flag to the `geth` instance.
    pub fn http(self) -> (a: Arkiv)
        ensures
            a@ == (ArkivModel { http: true, ..self@ }),
    {
        let mut a = self;
        a.http = true;
        a
    }

    /// The `--http.api` to launch the `geth` instance with.
    pub fn http_api(self, api: &str) -> (a: Arkiv)
        ensures
            a@ == (ArkivModel { http_api: Some(api@), ..self@ }),
    {
        let mut a = self;
        a.http_api = Some(String::from_str(api));
        a
    }

    /// The `--http.addr` to launch the `geth` instance with.
    pub fn http_addr(self, addr: &str) -> (a: Arkiv)
        ensures
            a@ == (ArkivModel { http_addr: Some(addr@), ..self@ }),
    {
        let mut a = self;
        a.http_addr = Some(String::from_str(addr));
        a
    }

    /// The `--http.port` to launch the `geth` instance with.
    pub fn http_port(self, port: u16) -> (a: Arkiv)
        ensures
            a@ == (ArkivModel { http_port: Some(port), ..self@ }),
    {
        let mut a = self;
        a.http_port = Some(port);
        a
    }

    /// Comma separated list of domains from which to accept cross origin requests.
    pub fn http_corsdomain(self, cors: &str) -> (a: Arkiv)
        ensures
            a@ == (ArkivModel { http_corsdomain: Some(cors@), ..self@ }),
    {
        let mut a = self;
        a.http_corsdomain = Some(String::from_str(cors));
        a
    }

    /// Comma separated list of virtual hostnames from which to accept requests.
    pub fn http_vhosts(self, vhosts: &str) -> (a: Arkiv)
        ensures
            a@ == (ArkivModel { http_vhosts: Some(vhosts@), ..self@ }),
    {
        let mut a = self;
        a.http_vhosts = Some(String::from_str(vhosts));
        a
    }

    /// Pass the `--ws` flag to the `geth` instance.
    pub fn ws(self) -> (a: Arkiv)
        ensures
            a@ == (ArkivModel { ws: true, ..self@ }),
    {
        let mut a = self;
        a.ws = true;
        a
    }

    /// The `--ws.api` to launch the `geth` instance with.
    pub fn ws_api(self, api: &str) -> (a: Arkiv)
        ensures
            a@ == (ArkivModel { ws_api: Some(api@), ..self@ }),
    {
        let mut a = self;
        a.ws_api = Some(String::from_str(api));
        a
    }

    /// The `--ws.addr` to launch the `geth` instance with.
    pub fn ws_addr(self, addr: &str) -> (a: Arkiv)
        ensures
            a@ == (ArkivModel { ws_addr: Some(addr@), ..self@ }),
    {
        let mut a = self;
        a.ws_addr = Some(String::from_str(addr));
        a
    }

    /// The `--ws.port` to launch the `geth` instance with.
    pub fn ws_port(self, port: u16) -> (a: Arkiv)
        ensures
            a@ == (ArkivModel { ws_port: Some(port), ..self@ }),
    {
        let mut a = self;
        a.ws_port = Some(port);
        a
    }

    /// The `--networkid` to launch the `geth` instance with.
    pub fn networkid(self, networkid: u64) -> (a: Arkiv)
        ensures
            a@ == (ArkivModel { networkid: Some(networkid), ..self@ }),
    {
        let mut a = self;
        a.networkid = Some(networkid);
        a
    }

    /// The `--datadir` to launch the `geth` instance with.
    pub fn datadir(self, datadir: &str) -> (a: Arkiv)
        ensures
            a@ == (ArkivModel { datadir: Some(datadir@), ..self@ }),
    {
        let mut a = self;
        a.datadir = Some(String::from_str(datadir));
        a
    }

    /// Remove the data directory when the node shuts down.
    pub fn ephemeral_datadir(self) -> (a: Arkiv)
        ensures
            a@ == (ArkivModel { ephemeral_datadir: true, ..self@ }),
    {
        let mut a = self;
        a.ephemeral_datadir = true;
        a
    }

    /// The `--verbosity` level to launch the `geth` instance with.
    pub fn verbosity(self, verbosity: u8) -> (a: Arkiv)
        ensures
            a@ == (ArkivModel { verbosity: Some(verbosity), ..self@ }),
    {
        let mut a = self;
        a.verbosity = Some(verbosity);
        a
    }

    /// Keep the handle to geth's stderr in order to read from it.
    pub fn keep_stderr(self) -> (a: Arkiv)
        ensures
            a@ == (ArkivModel { keep_stderr: true, ..self@ }),
    {
        let mut a = self;
        a.keep_stderr = true;
        a
    }

    fn push_dev_args(&self, args: &mut Vec<String>)
        ensures
            views(final(args)@) == views(old(args)@) + dev_args(self@),
    {
        let ghost before = views(args@);
        if self.dev {
            push_lit(args, "--dev");
        }
        assert(views(args@) =~= before + dev_args(self@));
    }

    fn push_networkid_args(&self, args: &mut Vec<String>)
        ensures
            views(final(args)@) == views(old(args)@) + networkid_args(self@),
    {
        let ghost before = views(args@);
        if let Some(networkid) = self.networkid {
            push_lit(args, "--networkid");
            push_arg(args, decimal_string(networkid));
        }
        assert(views(args@) =~= before + networkid_args(self@));
    }

    fn push_http_args(&self, args: &mut Vec<String>)
        ensures
            views(final(args)@) == views(old(args)@) + http_args(self@),
    {
        let ghost before = views(args@);
        let http_enabled = self.http || self.http_addr.is_some() || self.http_port.is_some();
        if http_enabled {
            push_lit(args, "--http");
            push_lit(args, "--http.api");
            match &self.http_api {
                Some(api) => push_arg(args, api.clone()),
                None => push_lit(args, API),
            }
            push_lit(args, "--http.addr");
            match &self.http_addr {
                Some(addr) => push_arg(args, addr.clone()),
                None => push_lit(args, DEFAULT_ADDR),
            }
            push_lit(args, "--http.port");
            let port = match self.http_port {
                Some(p) => p,
                None => DEFAULT_HTTP_PORT,
            };
            push_arg(args, decimal_string(port as u64));
            let ghost mid = views(args@);
            if let Some(cors) = &self.http_corsdomain {
                push_lit(args, "--http.corsdomain");
                push_arg(args, cors.clone());
            }
            assert(views(args@) =~= mid + opt_flag("--http.corsdomain"@, self@.http_corsdomain));
            let ghost mid2 = views(args@);
            if let Some(vhosts) = &self.http_vhosts {
                push_lit(args, "--http.vhosts");
                push_arg(args, vhosts.clone());
            }
            assert(views(args@) =~= mid2 + opt_flag("--http.vhosts"@, self@.http_vhosts));
        }
        assert(views(args@) =~= before + http_args(self@));
    }

    fn push_ws_args(&self, args: &mut Vec<String>)
        ensures
            views(final(args)@) == views(old(args)@) + ws_args(self@),
    {
        let ghost before = views(args@);
        let ws_enabled = self.ws || self.ws_addr.is_some() || self.ws_port.is_some();
        if ws_enabled {
            push_lit(args, "--ws");
            push_lit(args, "--ws.api");
            match &self.ws_api {
                Some(api) => push_arg(args, api.clone()),
                None => push_lit(args, API),
            }
            push_lit(args, "--ws.addr");
            match &self.ws_addr {
                Some(addr) => push_arg(args, addr.clone()),
                None => push_lit(args, DEFAULT_ADDR),
            }
            push_lit(args, "--ws.port");
            let port = match self.ws_port {
                Some(p) => p,
                None => DEFAULT_WS_PORT,
            };
            push_arg(args, decimal_string(port as u64));
        }
        assert(views(args@) =~= before + ws_args(self@));
    }

    fn push_datadir_and_verbosity_args(&self, args: &mut Vec<String>)
        ensures
            views(final(args)@) == views(old(args)@) + opt_flag("--datadir"@, self@.datadir)
                + verbosity_args(self@),
    {
        let ghost before = views(args@);
        if let Some(datadir) = &self.datadir {
            push_lit(args, "--datadir");
            push_arg(args, datadir.clone());
        }
        assert(views(args@) =~= before + opt_flag("--datadir"@, self@.datadir));
        let ghost mid = views(args@);
        if let Some(verbosity) = self.verbosity {
            push_lit(args, "--verbosity");
            push_arg(args, decimal_string(verbosity as u64));
        }
        assert(views(args@) =~= mid + verbosity_args(self@));
    }

    /// The arguments that the node is started with.
    pub fn command_args(&self) -> (args: Vec<String>)
        ensures
            views(args@) == command_args(self@),
    {
        let mut args: Vec<String> = Vec::new();
        assert(views(args@) =~= Seq::<Seq<char>>::empty());
        self.push_dev_args(&mut args);
        self.push_networkid_args(&mut args);
        self.push_http_args(&mut args);
        self.push_ws_args(&mut args);
        self.push_datadir_and_verbosity_args(&mut args);
        assert(views(args@) =~= command_args(self@));
        args
    }

    /// Everything that spawning the node needs, decided from the options.
    pub fn spawn_plan(&self) -> (p: SpawnPlan)
        ensures
            self@.release_url is Some && self@.program is None ==> (p.download matches Some(
                (url, dir),
            ) && url@ == self@.release_url->0 && opt_view(dir) == self@.download_dir),
            !(self@.release_url is Some && self@.program is None) ==> p.download is None,
            p.program@ == or_default(self@.program, PROGRAM@),
            views(p.args@) == command_args(self@),
            p.http_addr@ == or_default(self@.http_addr, DEFAULT_ADDR@),
            p.http_port == port_or(self@.http_port, DEFAULT_HTTP_PORT),
            p.ws_addr@ == or_default(self@.ws_addr, DEFAULT_ADDR@),
            p.ws_port == port_or(self@.ws_port, DEFAULT_WS_PORT),
            p.networkid == (match self@.networkid {
                Some(n) => n,
                None => 0,
            }),
            opt_view(p.datadir) == self@.datadir,
            p.ephemeral_datadir == self@.ephemeral_datadir,
            p.keep_stderr == self@.keep_stderr,
    {
        let download = match (&self.release_url, &self.program) {
            (Some(url), None) => Some((url.clone(), clone_opt(&self.download_dir))),
            _ => None,
        };
        let program = match &self.program {
            Some(p) => p.clone(),
            None => String::from_str(PROGRAM),
        };
        let http_addr = match &self.http_addr {
            Some(a) => a.clone(),
            None => String::from_str(DEFAULT_ADDR),
        };
        let ws_addr = match &self.ws_addr {
            Some(a) => a.clone(),
            None => String::from_str(DEFAULT_ADDR),
        };
        SpawnPlan {
            download,
            program,
            args: self.command_args(),
            http_addr,
            http_port: match self.http_port {
                Some(p) => p,
                None => DEFAULT_HTTP_PORT,
            },
            ws_addr,
            ws_port: match self.ws_port {
                Some(p) => p,
                None => DEFAULT_WS_PORT,
            },
            networkid: match self.networkid {
                Some(n) => n,
                None => 0,
            },
            datadir: clone_opt(&self.datadir),
            ephemeral_datadir: self.ephemeral_datadir,
            keep_stderr: self.keep_stderr,
        }
    }
}

impl Default for Arkiv {
    /// A builder with an ephemeral datadir whose command is
    /// `geth --dev --networkid 1337 --http --http.api 'eth,web3,net,debug,arkiv'
    /// --http.addr '0.0.0.0' --http.port 8545 --http.corsdomain '*' --http.vhosts '*'
    /// --ws --ws.api 'eth,web3,net,debug,arkiv' --ws.addr '0.0.0.0' --ws.port 8546
    /// --datadir './geth_data' --verbosity 3`.
    fn default() -> (a: Arkiv)
        ensures
            a@ == default_model(),
    {
        Self::new().dev().networkid(ARKIV_NETWORKID).http_addr("0.0.0.0").http_corsdomain(
            "*",
        ).http_vhosts("*").ws_addr("0.0.0.0").datadir("./geth_data").ephemeral_datadir().verbosity(
            3,
        )
    }
}

/// What one line of the node's standard error says about its startup.
#[derive(Debug, Clone, Copy, PartialEq, Eq, Structural)]
pub enum StartupLine {
    /// The node reported a fatal error.
    Fatal,
    /// The HTTP server has started: the node is ready to be queried.
    Ready,
    /// Neither: keep reading.
    Pending,
}

/// What a line says: `Fatal:` anywhere in it is a fatal error; otherwise
/// `HTTP server started` without `auth=true` means the node is ready.
pub open spec fn startup_line_spec(line: &str) -> StartupLine {
    if str_contains(line, "Fatal:") {
        StartupLine::Fatal
    } else if str_contains(line, "HTTP server started") && !str_contains(line, "auth=true") {
        StartupLine::Ready
    } else {
        StartupLine::Pending
    }
}

/// Read one line that the node printed while starting.
pub fn startup_line(line: &str) -> (r: StartupLine)
    ensures
        r == startup_line_spec(line),
{
    let ports_started = contains_str(line, "HTTP server started") && !contains_str(
        line,
        "auth=true",
    );
    if contains_str(line, "Fatal:") {
        return StartupLine::Fatal;
    }
    if ports_started {
        StartupLine::Ready
    } else {
        StartupLine::Pending
    }
}

/// The node has taken too long to start once `elapsed_nanos` nanoseconds have
/// passed since it was spawned: the startup timeout is reached.
pub open spec fn startup_timed_out_spec(elapsed_nanos: u128) -> bool {
    elapsed_nanos >= NODE_STARTUP_TIMEOUT_SECS * 1_000_000_000
}

/// Whether the node, spawned `elapsed_nanos` nanoseconds ago, has taken too long
/// to start; it is then killed and the spawn fails. Checked before each line is read.
pub fn startup_timed_out(elapsed_nanos: u128) -> (r: bool)
    ensures
        r == startup_timed_out_spec(elapsed_nanos),
{
    elapsed_nanos >= (NODE_STARTUP_TIMEOUT_SECS as u128) * 1_000_000_000
}

/// `scheme://addr:port`.
pub open spec fn endpoint_spec(scheme: Seq<char>, addr: Seq<char>, port: u16) -> Seq<char> {
    scheme + "://"@ + addr + ":"@ + decimal(port as nat)
}

/// The HTTP endpoint of an instance serving at `addr` and `port`.
pub fn http_endpoint(addr: &str, port: u16) -> (r: String)
    ensures
        r@ == endpoint_spec("http"@, addr@, port),
{
    let mut s = String::from_str("http://");
    s.append(addr);
    s.append(":");
    let p = decimal_string(port as u64);
    s.append(p.as_str());
    proof {
        reveal_strlit("http://");
        reveal_strlit("http");
        reveal_strlit("://");
    }
    assert(s@ =~= endpoint_spec("http"@, addr@, port));
    s
}

/// The Websocket endpoint of an instance serving at `addr` and `port`.
pub fn ws_endpoint(addr: &str, port: u16) -> (r: String)
    ensures
        r@ == endpoint_spec("ws"@, addr@, port),
{
    let mut s = String::from_str("ws://");
    s.append(addr);
    s.append(":");
    let p = decimal_string(port as u64);
    s.append(p.as_str());
    proof {
        reveal_strlit("ws://");
        reveal_strlit("ws");
        reveal_strlit("://");
    }
    assert(s@ =~= endpoint_spec("ws"@, addr@, port));
    s
}

} // verus!
