use keiko::config::{
    Config, EnvironmentOptions, KatanaOptions, KeikoArgs, ServerOptions, StarknetOptions,
    ToriiOptions, get_env,
};
use keiko::text::{decimal_string, decimal_string_u64};

fn server_options() -> ServerOptions {
    ServerOptions {
        port: 3000,
        contract_path: String::from("contracts"),
        static_path: String::from("static"),
        prod: false,
    }
}

fn plain_config() -> Config {
    Config {
        server: server_options(),
        starknet: StarknetOptions {
            disable_fee: false,
            disable_validate: false,
            environment: EnvironmentOptions {
                chain_id: String::from("KATANA"),
                gas_price: None,
                validate_max_steps: None,
                invoke_max_steps: None,
            },
        },
        katana: KatanaOptions {
            world_address: String::from("0xW"),
            katana_silent: false,
            katana_no_mining: false,
            katana_block_time: None,
            katana_db_dir: None,
            katana_rpc_url: None,
            katana_dev: false,
            katana_json_log: false,
            katana_metrics: None,
            katana_fork_block_number: None,
        },
        torii: ToriiOptions { torii_sequencer_rpc: None, torii_external_url: None },
        world_address: String::from("0xW"),
    }
}

#[test]
fn the_storage_directory_is_scoped_to_the_world() {
    assert_eq!(plain_config().get_storage_base_dir(), "storage/0xW");
}

#[test]
fn minimal_torii_args() {
    let args = plain_config().get_torii_args();
    assert_eq!(
        args,
        vec![
            String::from("--world"),
            String::from("0xW"),
            String::from("--database"),
            String::from("storage/0xW/torii.sqlite"),
        ]
    );
}

#[test]
fn full_torii_args_append_the_urls() {
    let mut c = plain_config();
    c.torii.torii_external_url = Some(String::from("http://example.test/"));
    c.torii.torii_sequencer_rpc = Some(String::from("http://127.0.0.1:5050/"));
    let args = c.get_torii_args();
    assert_eq!(
        args,
        vec![
            String::from("--world"),
            String::from("0xW"),
            String::from("--database"),
            String::from("storage/0xW/torii.sqlite"),
            String::from("--external-url"),
            String::from("http://example.test/"),
            String::from("--rpc"),
            String::from("http://127.0.0.1:5050/"),
        ]
    );
}

#[test]
fn minimal_katana_args() {
    let args = plain_config().get_katana_args();
    assert_eq!(
        args,
        vec![
            String::from("--db-dir"),
            String::from("storage/0xW/katana-db"),
            String::from("--json-log"),
            String::from("--chain-id"),
            String::from("KATANA"),
            String::from("--genesis"),
            String::from("storage/0xW/config/genesis.json"),
        ]
    );
}

#[test]
fn full_katana_args_keep_the_fixed_option_order() {
    let mut c = plain_config();
    c.katana.katana_dev = true;
    c.katana.katana_silent = true;
    c.katana.katana_no_mining = true;
    c.katana.katana_block_time = Some(1500);
    c.katana.katana_rpc_url = Some(String::from("http://fork.test/"));
    c.katana.katana_fork_block_number = Some(42);
    c.starknet.disable_fee = true;
    c.starknet.disable_validate = true;
    c.starknet.environment.gas_price = Some(20000);
    c.starknet.environment.validate_max_steps = Some(1000000);
    c.starknet.environment.invoke_max_steps = Some(2000000);
    let args = c.get_katana_args();
    assert_eq!(
        args,
        vec![
            String::from("--db-dir"),
            String::from("storage/0xW/katana-db"),
            String::from("--dev"),
            String::from("--silent"),
            String::from("--no-mining"),
            String::from("--block-time"),
            String::from("1500"),
            String::from("--rpc-url"),
            String::from("http://fork.test/"),
            String::from("--json-log"),
            String::from("--fork-block-number"),
            String::from("42"),
            String::from("--disable-fee"),
            String::from("--disable-validate"),
            String::from("--chain-id"),
            String::from("KATANA"),
            String::from("--gas-price"),
            String::from("20000"),
            String::from("--validate-max-steps"),
            String::from("1000000"),
            String::from("--invoke-max-steps"),
            String::from("2000000"),
            String::from("--genesis"),
            String::from("storage/0xW/config/genesis.json"),
        ]
    );
}

#[test]
fn decimal_rendering_is_exact() {
    assert_eq!(decimal_string(0), "0");
    assert_eq!(decimal_string(7), "7");
    assert_eq!(decimal_string(10), "10");
    assert_eq!(decimal_string(12345), "12345");
    assert_eq!(decimal_string_u64(u64::MAX), "18446744073709551615");
}

#[test]
fn environment_lookup_prefers_dotenv_then_environment_then_default() {
    assert_eq!(
        get_env(Some(String::from("a")), Some(String::from("b")), "c"),
        "a"
    );
    assert_eq!(get_env(None, Some(String::from("b")), "c"), "b");
    assert_eq!(get_env(None, None, "c"), "c");
}

#[test]
fn the_local_urls_point_at_the_spawned_processes() {
    let c = plain_config();
    assert_eq!(c.rpc_url(), "http://0.0.0.0:5050");
    assert_eq!(c.torii_url(), "http://0.0.0.0:8080");
}

#[test]
fn the_server_state_carries_the_urls_and_the_manifest_dir() {
    let s = plain_config().server_state();
    assert_eq!(s.rpc_url, "http://0.0.0.0:5050");
    assert_eq!(s.torii_url, "http://0.0.0.0:8080");
    assert_eq!(s.manifest_base_dir, "storage/0xW/manifests");
    assert_eq!(s.world_address, "0xW");
}

#[test]
fn a_config_starts_with_an_empty_world_address() {
    let args = KeikoArgs {
        server: server_options(),
        starknet: plain_config().starknet,
        katana: plain_config().katana,
        torii: plain_config().torii,
    };
    let c = Config::from(args);
    assert_eq!(c.world_address, "");
    assert_eq!(c.server.port, 3000);
    assert_eq!(c.katana.world_address, "0xW");
}
