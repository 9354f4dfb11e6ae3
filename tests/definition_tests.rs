use lambda_endpoint::config::{address, database_url, submit_url, DataBaseConfig, GlobalConfig};
use lambda_endpoint::definition::{DefinitionError, PutTrace};

fn put(functions: usize, env: usize, values: usize) -> PutTrace {
    PutTrace {
        process: "p".to_string(),
        function_list: vec!["f".to_string(); functions],
        environment: vec!["E".to_string(); env],
        values: vec!["v".to_string(); values],
        options: vec![],
    }
}

#[test]
fn definitions_are_checked() {
    assert_eq!(put(1, 0, 0).check(), Ok(()));
    assert_eq!(put(2, 1, 1).check(), Ok(()));
    assert_eq!(put(0, 0, 0).check(), Err(DefinitionError::EmptyFunctionList));
    assert_eq!(put(0, 1, 0).check(), Err(DefinitionError::EmptyFunctionList));
    assert_eq!(put(1, 1, 0).check(), Err(DefinitionError::EnvironmentMismatch));
    assert_eq!(DefinitionError::EmptyFunctionList.message(), "empty function list");
    assert_eq!(DefinitionError::EnvironmentMismatch.message(), "wrong size of environment values");
}

#[test]
fn addresses_are_rendered() {
    let cfg = GlobalConfig {
        root_password: String::new(),
        bpf_path: String::new(),
        stap_path: String::new(),
        submit_chunk_size: 1,
        platform_url: "https://platform.example".to_string(),
        secret: String::new(),
        endpoint_uuid: String::new(),
        listen_address: "0.0.0.0".to_string(),
        listen_port: 7878,
        pool_size: 7,
        database_config: DataBaseConfig {
            address: "db".to_string(),
            port: 5432,
            username: "user".to_string(),
            password: "pass".to_string(),
            database: "traces".to_string(),
        },
    };
    assert_eq!(address(&cfg), "0.0.0.0:7878");
    assert_eq!(database_url(&cfg.database_config), "postgres://user:pass@db:5432/traces");
    assert_eq!(submit_url(&cfg), "https://platform.example/submit");
}
