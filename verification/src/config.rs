//! Orchestrator configuration: the options for the public server, the
//! chain node and the indexer, and the argument vectors built from them.
//!
//! Paths and URLs are carried as their text; the surrounding binary
//! turns them into its own path and URL values where it needs them.

use vstd::prelude::*;

verus! {

use crate::text::spec_decimal;
use crate::text::{decimal_string, decimal_string_u32, decimal_string_u64};

/// Directory of the dashboard's static assets.
pub const KEIKO_ASSETS: &'static str = "static/keiko/assets";

/// The dashboard's index page.
pub const KEIKO_INDEX: &'static str = "static/keiko/index.html";

/// Log sink of the chain-node process.
pub const KATANA_LOG: &'static str = "log/katana.log.json";

/// Log sink of the indexer process.
pub const TORII_LOG: &'static str = "log/torii.log";

/// File name of the indexer's database.
pub const TORII_DB: &'static str = "torii.sqlite";

/// Address text of the locally spawned chain node's RPC endpoint.
pub const LOCAL_KATANA: &'static str = "http://0.0.0.0:5050";

/// Address text of the locally spawned indexer's public endpoint.
pub const LOCAL_TORII: &'static str = "http://0.0.0.0:8080";

/// Options of the public-facing server.
#[derive(Clone, Debug)]
pub struct ServerOptions {
    pub port: u16,
    pub contract_path: String,
    pub static_path: String,
    pub prod: bool,
}

/// Chain-environment options shared by the chain node's tooling.
#[derive(Clone, Debug)]
pub struct EnvironmentOptions {
    pub chain_id: String,
    pub gas_price: Option<u128>,
    pub validate_max_steps: Option<u32>,
    pub invoke_max_steps: Option<u32>,
}

/// Options of the chain execution layer.
#[derive(Clone, Debug)]
pub struct StarknetOptions {
    pub disable_fee: bool,
    pub disable_validate: bool,
    pub environment: EnvironmentOptions,
}

/// Options of the indexer.
#[derive(Clone, Debug)]
pub struct ToriiOptions {
    pub torii_sequencer_rpc: Option<String>,
    pub torii_external_url: Option<String>,
}

/// Options of the chain-node process.
#[derive(Clone, Debug)]
pub struct KatanaOptions {
    pub world_address: String,
    pub katana_silent: bool,
    pub katana_no_mining: bool,
    pub katana_block_time: Option<u64>,
    pub katana_db_dir: Option<String>,
    pub katana_rpc_url: Option<String>,
    pub katana_dev: bool,
    pub katana_json_log: bool,
    pub katana_metrics: Option<String>,
    pub katana_fork_block_number: Option<u64>,
}

/// Everything the command line and environment provide.
#[derive(Clone, Debug)]
pub struct KeikoArgs {
    pub server: ServerOptions,
    pub starknet: StarknetOptions,
    pub katana: KatanaOptions,
    pub torii: ToriiOptions,
}

/// The orchestrator's assembled configuration.
#[derive(Clone, Debug)]
pub struct Config {
    pub server: ServerOptions,
    pub starknet: StarknetOptions,
    pub katana: KatanaOptions,
    pub torii: ToriiOptions,
    pub world_address: String,
}

/// A lone flag when `cond` holds, nothing otherwise.
pub open spec fn flag_if(cond: bool, flag: Seq<char>) -> Seq<Seq<char>> {
    if cond {
        seq![flag]
    } else {
        Seq::empty()
    }
}

/// A flag and its value when the value is present, nothing otherwise.
pub open spec fn pair_if(value: Option<Seq<char>>, flag: Seq<char>) -> Seq<Seq<char>> {
    match value {
        Some(v) => seq![flag, v],
        None => Seq::empty(),
    }
}

/// The view of an optional string.
pub open spec fn opt_view(o: Option<String>) -> Option<Seq<char>> {
    match o {
        Some(s) => Some(s@),
        None => None,
    }
}

/// The decimal view of an optional number.
pub open spec fn opt_decimal(o: Option<nat>) -> Option<Seq<char>> {
    match o {
        Some(n) => Some(spec_decimal(n)),
        None => None,
    }
}

/// The world-scoped storage directory.
pub open spec fn spec_storage_base_dir(c: &Config) -> Seq<char> {
    "storage/"@ + c.katana.world_address@
}

/// The indexer's argument vector: the world to index, the database path
/// under the world's storage directory, and the optional external URL
/// and sequencer RPC endpoints.
pub open spec fn spec_torii_args(c: &Config) -> Seq<Seq<char>> {
    seq![
        "--world"@,
        c.katana.world_address@,
        "--database"@,
        spec_storage_base_dir(c) + "/"@ + "torii.sqlite"@,
    ] + pair_if(opt_view(c.torii.torii_external_url), "--external-url"@) + pair_if(
        opt_view(c.torii.torii_sequencer_rpc),
        "--rpc"@,
    )
}

/// The storage options of the chain node's argument vector: the
/// database directory under the world's storage directory, the mode
/// flags and the interval-mining option.
pub open spec fn spec_katana_args_storage(c: &Config) -> Seq<Seq<char>> {
    seq!["--db-dir"@, spec_storage_base_dir(c) + "/katana-db"@] + flag_if(
        c.katana.katana_dev,
        "--dev"@,
    ) + flag_if(c.katana.katana_silent, "--silent"@) + flag_if(
        c.katana.katana_no_mining,
        "--no-mining"@,
    ) + pair_if(
        opt_decimal(
            match c.katana.katana_block_time {
                Some(t) => Some(t as nat),
                None => None,
            },
        ),
        "--block-time"@,
    )
}

/// The forking and fee options of the chain node's argument vector.
pub open spec fn spec_katana_args_forking(c: &Config) -> Seq<Seq<char>> {
    pair_if(opt_view(c.katana.katana_rpc_url), "--rpc-url"@) + seq!["--json-log"@] + pair_if(
        opt_decimal(
            match c.katana.katana_fork_block_number {
                Some(n) => Some(n as nat),
                None => None,
            },
        ),
        "--fork-block-number"@,
    ) + flag_if(c.starknet.disable_fee, "--disable-fee"@) + flag_if(
        c.starknet.disable_validate,
        "--disable-validate"@,
    )
}

/// The chain-environment options of the chain node's argument vector,
/// ending with the genesis file.
pub open spec fn spec_katana_args_environment(c: &Config) -> Seq<Seq<char>> {
    seq!["--chain-id"@, c.starknet.environment.chain_id@] + pair_if(
        opt_decimal(
            match c.starknet.environment.gas_price {
                Some(g) => Some(g as nat),
                None => None,
            },
        ),
        "--gas-price"@,
    ) + pair_if(
        opt_decimal(
            match c.starknet.environment.validate_max_steps {
                Some(v) => Some(v as nat),
                None => None,
            },
        ),
        "--validate-max-steps"@,
    ) + pair_if(
        opt_decimal(
            match c.starknet.environment.invoke_max_steps {
                Some(i) => Some(i as nat),
                None => None,
            },
        ),
        "--invoke-max-steps"@,
    ) + seq!["--genesis"@, spec_storage_base_dir(c) + "/config/genesis.json"@]
}

/// The chain node's argument vector, option by option in a fixed order:
/// storage and mode options, forking and fee options, then the chain
/// environment and the genesis file.
pub open spec fn spec_katana_args(c: &Config) -> Seq<Seq<char>> {
    spec_katana_args_storage(c) + spec_katana_args_forking(c) + spec_katana_args_environment(c)
}

/// Append one argument.
fn push_arg(args: &mut Vec<String>, arg: String)
    ensures
        final(args).deep_view() == old(args).deep_view().push(arg@),
{
    let ghost before = args.deep_view();
    args.push(arg);
    proof {
        assert(args.deep_view() =~= before.push(arg@));
    }
}

/// Append one literal argument.
fn push_lit(args: &mut Vec<String>, arg: &str)
    ensures
        final(args).deep_view() == old(args).deep_view().push(arg@),
{
    push_arg(args, String::from_str(arg));
}

impl Config {
    /// Assemble the configuration from the parsed options. The world
    /// address starts empty and is filled by deployment discovery.
    pub fn from(args: KeikoArgs) -> (c: Config)
        ensures
            c.server == args.server,
            c.starknet == args.starknet,
            c.katana == args.katana,
            c.torii == args.torii,
            c.world_address@ == Seq::<char>::empty(),
    {
        Config {
            server: args.server,
            starknet: args.starknet,
            katana: args.katana,
            torii: args.torii,
            world_address: String::new(),
        }
    }

    /// The storage directory scoped to the configured world.
    pub fn get_storage_base_dir(&self) -> (dir: String)
        ensures
            dir@ == spec_storage_base_dir(self),
    {
        String::from_str("storage/").concat(self.katana.world_address.as_str())
    }

    /// The argument vector the indexer process is launched with.
    pub fn get_torii_args(&self) -> (args: Vec<String>)
        ensures
            args.deep_view() == spec_torii_args(self),
    {
        let mut args: Vec<String> = Vec::new();
        push_lit(&mut args, "--world");
        push_arg(&mut args, self.katana.world_address.clone());
        push_lit(&mut args, "--database");
        push_arg(
            &mut args,
            self.get_storage_base_dir().concat("/").concat("torii.sqlite"),
        );
        let ghost base = args.deep_view();

        if let Some(torii_external_url) = &self.torii.torii_external_url {
            push_lit(&mut args, "--external-url");
            push_arg(&mut args, torii_external_url.clone());
        }
        let ghost with_ext = args.deep_view();
        proof {
            assert(with_ext =~= base + pair_if(
                opt_view(self.torii.torii_external_url),
                "--external-url"@,
            ));
        }

        if let Some(sequencer_rpc) = &self.torii.torii_sequencer_rpc {
            push_lit(&mut args, "--rpc");
            push_arg(&mut args, sequencer_rpc.clone());
        }
        proof {
            assert(args.deep_view() =~= with_ext + pair_if(
                opt_view(self.torii.torii_sequencer_rpc),
                "--rpc"@,
            ));
            assert(args.deep_view() =~= spec_torii_args(self));
        }
        args
    }

    /// The storage and mode options of the chain node's arguments.
    fn katana_args_storage(&self) -> (args: Vec<String>)
        ensures
            args.deep_view() == spec_katana_args_storage(self),
    {
        let mut args: Vec<String> = Vec::new();

        push_lit(&mut args, "--db-dir");
        push_arg(&mut args, self.get_storage_base_dir().concat("/katana-db"));
        let ghost s0 = args.deep_view();

        if self.katana.katana_dev {
            push_lit(&mut args, "--dev");
        }
        let ghost s1 = s0 + flag_if(self.katana.katana_dev, "--dev"@);
        proof {
            assert(args.deep_view() =~= s1);
        }

        if self.katana.katana_silent {
            push_lit(&mut args, "--silent");
        }
        let ghost s2 = s1 + flag_if(self.katana.katana_silent, "--silent"@);
        proof {
            assert(args.deep_view() =~= s2);
        }

        if self.katana.katana_no_mining {
            push_lit(&mut args, "--no-mining");
        }
        let ghost s3 = s2 + flag_if(self.katana.katana_no_mining, "--no-mining"@);
        proof {
            assert(args.deep_view() =~= s3);
        }

        if let Some(block_time) = &self.katana.katana_block_time {
            push_lit(&mut args, "--block-time");
            push_arg(&mut args, decimal_string_u64(*block_time));
        }
        proof {
            assert(args.deep_view() =~= s3 + pair_if(
                opt_decimal(
                    match self.katana.katana_block_time {
                        Some(t) => Some(t as nat),
                        None => None,
                    },
                ),
                "--block-time"@,
            ));
            assert(args.deep_view() =~= spec_katana_args_storage(self));
        }
        args
    }

    /// The forking and fee options of the chain node's arguments.
    fn katana_args_forking(&self) -> (args: Vec<String>)
        ensures
            args.deep_view() == spec_katana_args_forking(self),
    {
        let mut args: Vec<String> = Vec::new();

        if let Some(rpc_url) = &self.katana.katana_rpc_url {
            push_lit(&mut args, "--rpc-url");
            push_arg(&mut args, rpc_url.clone());
        }
        let ghost s0 = pair_if(opt_view(self.katana.katana_rpc_url), "--rpc-url"@);
        proof {
            assert(args.deep_view() =~= s0);
        }

        push_lit(&mut args, "--json-log");
        let ghost s1 = s0 + seq!["--json-log"@];
        proof {
            assert(args.deep_view() =~= s1);
        }

        if let Some(fork_block_number) = &self.katana.katana_fork_block_number {
            push_lit(&mut args, "--fork-block-number");
            push_arg(&mut args, decimal_string_u64(*fork_block_number));
        }
        let ghost s2 = s1 + pair_if(
            opt_decimal(
                match self.katana.katana_fork_block_number {
                    Some(n) => Some(n as nat),
                    None => None,
                },
            ),
            "--fork-block-number"@,
        );
        proof {
            assert(args.deep_view() =~= s2);
        }

        if self.starknet.disable_fee {
            push_lit(&mut args, "--disable-fee");
        }
        let ghost s3 = s2 + flag_if(self.starknet.disable_fee, "--disable-fee"@);
        proof {
            assert(args.deep_view() =~= s3);
        }

        if self.starknet.disable_validate {
            push_lit(&mut args, "--disable-validate");
        }
        proof {
            assert(args.deep_view() =~= s3 + flag_if(
                self.starknet.disable_validate,
                "--disable-validate"@,
            ));
            assert(args.deep_view() =~= spec_katana_args_forking(self));
        }
        args
    }

    /// The chain-environment options of the chain node's arguments.
    fn katana_args_environment(&self) -> (args: Vec<String>)
        ensures
            args.deep_view() == spec_katana_args_environment(self),
    {
        let mut args: Vec<String> = Vec::new();

        push_lit(&mut args, "--chain-id");
        push_arg(&mut args, self.starknet.environment.chain_id.clone());
        let ghost s0 = args.deep_view();

        if let Some(gas_price) = &self.starknet.environment.gas_price {
            push_lit(&mut args, "--gas-price");
            push_arg(&mut args, decimal_string(*gas_price));
        }
        let ghost s1 = s0 + pair_if(
            opt_decimal(
                match self.starknet.environment.gas_price {
                    Some(g) => Some(g as nat),
                    None => None,
                },
            ),
            "--gas-price"@,
        );
        proof {
            assert(args.deep_view() =~= s1);
        }

        if let Some(validate_max_steps) = &self.starknet.environment.validate_max_steps {
            push_lit(&mut args, "--validate-max-steps");
            push_arg(&mut args, decimal_string_u32(*validate_max_steps));
        }
        let ghost s2 = s1 + pair_if(
            opt_decimal(
                match self.starknet.environment.validate_max_steps {
                    Some(v) => Some(v as nat),
                    None => None,
                },
            ),
            "--validate-max-steps"@,
        );
        proof {
            assert(args.deep_view() =~= s2);
        }

        if let Some(invoke_max_steps) = &self.starknet.environment.invoke_max_steps {
            push_lit(&mut args, "--invoke-max-steps");
            push_arg(&mut args, decimal_string_u32(*invoke_max_steps));
        }
        let ghost s3 = s2 + pair_if(
            opt_decimal(
                match self.starknet.environment.invoke_max_steps {
                    Some(i) => Some(i as nat),
                    None => None,
                },
            ),
            "--invoke-max-steps"@,
        );
        proof {
            assert(args.deep_view() =~= s3);
        }

        push_lit(&mut args, "--genesis");
        push_arg(&mut args, self.get_storage_base_dir().concat("/config/genesis.json"));
        proof {
            assert(args.deep_view() =~= s3 + seq![
                "--genesis"@,
                spec_storage_base_dir(self) + "/config/genesis.json"@,
            ]);
            assert(args.deep_view() =~= spec_katana_args_environment(self));
        }
        args
    }

    /// The argument vector the chain-node process is launched with.
    pub fn get_katana_args(&self) -> (args: Vec<String>)
        ensures
            args.deep_view() == spec_katana_args(self),
    {
        let mut args = self.katana_args_storage();
        let mut forking = self.katana_args_forking();
        let mut environment = self.katana_args_environment();
        let ghost storage_part = args.deep_view();
        let ghost forking_part = forking.deep_view();
        let ghost environment_part = environment.deep_view();
        args.append(&mut forking);
        proof {
            assert(args.deep_view() =~= storage_part + forking_part);
        }
        args.append(&mut environment);
        proof {
            assert(args.deep_view() =~= storage_part + forking_part + environment_part);
        }
        args
    }

    /// The URL text of the chain node's RPC endpoint.
    pub fn rpc_url(&self) -> (url: String)
        ensures
            url@ == LOCAL_KATANA@,
    {
        String::from_str(LOCAL_KATANA)
    }

    /// The URL text of the indexer's public endpoint.
    pub fn torii_url(&self) -> (url: String)
        ensures
            url@ == LOCAL_TORII@,
    {
        String::from_str(LOCAL_TORII)
    }
}

/// What the public request handlers read of the running stack: the two
/// backend URLs, the manifest directory and the served world. The RPC
/// client itself is built by the surrounding binary from `rpc_url`.
#[derive(Clone, Debug)]
pub struct ServerState {
    pub rpc_url: String,
    pub manifest_base_dir: String,
    pub world_address: String,
    pub torii_url: String,
}

impl Config {
    /// The state the request handlers are given.
    pub fn server_state(&self) -> (s: ServerState)
        ensures
            s.rpc_url@ == LOCAL_KATANA@,
            s.torii_url@ == LOCAL_TORII@,
            s.manifest_base_dir@ == spec_storage_base_dir(self) + "/manifests"@,
            s.world_address@ == self.world_address@,
    {
        let manifest_base_dir = self.get_storage_base_dir().concat("/manifests");
        ServerState {
            rpc_url: self.rpc_url(),
            manifest_base_dir,
            world_address: self.world_address.clone(),
            torii_url: self.torii_url(),
        }
    }
}

/// Resolve a configuration value: the dotenv file takes precedence, then
/// the process environment, then the default. The caller performs both
/// lookups and hands in what they found.
pub fn get_env(dotenv_value: Option<String>, env_value: Option<String>, default: &str) -> (v:
    String)
    ensures
        v@ == match (dotenv_value, env_value) {
            (Some(d), _) => d@,
            (None, Some(e)) => e@,
            (None, None) => default@,
        },
{
    match dotenv_value {
        Some(d) => d,
        None => match env_value {
            Some(e) => e,
            None => String::from_str(default),
        },
    }
}

} // verus!
