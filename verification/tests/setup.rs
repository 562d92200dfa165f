use perfmax::config::{config_path, config_path_under, Config};
use perfmax::discovery::{models_url, provider_status, Probe};
use perfmax::metrics::bytes_to_mib;
use perfmax::model_manager::{
    default_model_path, model_path_under, model_url, models_dir, models_dir_under, partial_model_path,
};
use perfmax::paths::join_path;
use perfmax::server_manager::{
    first_found,
    health_url, resolve_candidate, server_args, should_restart, start_error_message, start_plan,
    StartError,
};

#[test]
fn default_config_values() {
    let c = Config::default();
    assert_eq!(c.ai.endpoint, "http://127.0.0.1:8081/v1");
    assert_eq!(c.ai.model, "mimo-7b");
    assert_eq!(c.ai.interval_secs, 30);
    assert_eq!(c.ai.max_tokens, 512);
    assert!(c.optimizer.enabled);
    assert_eq!(c.optimizer.ryzenadj_path, "/usr/local/bin/ryzenadj");
    assert!(!c.optimizer.dry_run);
    assert_eq!(c.metrics.interval_ms, 1000);
}

#[test]
fn path_joining() {
    assert_eq!(join_path("", "a"), "a");
    assert_eq!(join_path("/x/", "a"), "/x/a");
    assert_eq!(join_path("/x", "a"), "/x/a");
    assert_eq!(join_path("/x", "/abs"), "/abs");
    let expected = std::path::PathBuf::from("/home/u/.local/share").join("perfmax").join("models");
    assert_eq!(models_dir_under(Some("/home/u/.local/share".to_string())), expected.to_str().unwrap());
}

#[test]
fn settings_and_model_paths() {
    assert_eq!(config_path_under(None), "./perfmax/config.toml");
    assert_eq!(config_path_under(Some("/home/u/.config".to_string())), "/home/u/.config/perfmax/config.toml");
    assert_eq!(models_dir_under(None), "./perfmax/models");
    assert_eq!(model_path_under(Some("/d".to_string())), "/d/perfmax/models/MiMo-7B-RL-Q8_0.gguf");
    assert!(default_model_path().ends_with("/perfmax/models/MiMo-7B-RL-Q8_0.gguf"));
    assert!(models_dir().ends_with("perfmax/models"));
    assert!(config_path().ends_with("perfmax/config.toml"));
    assert_eq!(partial_model_path("/d/m"), "/d/m/MiMo-7B-RL-Q8_0.gguf.part");
    let dest = std::path::PathBuf::from("/d/m/MiMo-7B-RL-Q8_0.gguf");
    assert_eq!(partial_model_path("/d/m"), dest.with_extension("gguf.part").to_str().unwrap());
}

#[test]
fn model_download_address() {
    assert_eq!(model_url(), "https://huggingface.co/jedisct1/MiMo-7B-RL-GGUF/resolve/main/MiMo-7B-RL-Q8_0.gguf");
}

#[test]
fn server_start_plans() {
    let args = server_args("/m.gguf");
    assert_eq!(
        args,
        vec!["--model", "/m.gguf", "--port", "8081", "--n-gpu-layers", "999", "--ctx-size", "8192", "--host", "127.0.0.1"]
            .into_iter()
            .map(String::from)
            .collect::<Vec<_>>()
    );
    match start_plan(None, true, "/m.gguf".to_string()) {
        Err(e) => {
            assert!(matches!(e, StartError::ServerNotFound));
            assert_eq!(start_error_message(&e), "llama-server not found — install with: sudo pacman -S llama.cpp");
        }
        Ok(_) => panic!("expected an error"),
    }
    match start_plan(Some("/usr/bin/llama-server".to_string()), false, "/m.gguf".to_string()) {
        Err(e) => assert_eq!(start_error_message(&e), "Model not found at /m.gguf"),
        Ok(_) => panic!("expected an error"),
    }
    match start_plan(Some("/usr/bin/llama-server".to_string()), true, "/m.gguf".to_string()) {
        Ok((prog, a)) => {
            assert_eq!(prog, "/usr/bin/llama-server");
            assert_eq!(a, args);
        }
        Err(_) => panic!("expected a plan"),
    }
}

#[test]
fn server_supervision() {
    assert_eq!(health_url(), "http://127.0.0.1:8081/health");
    assert!(should_restart(false, false, true, true));
    assert!(!should_restart(true, false, true, true));
    assert!(!should_restart(false, true, true, true));
    assert!(!should_restart(false, false, false, true));
    assert!(!should_restart(false, false, true, false));
    assert_eq!(resolve_candidate("llama-server", Some("/usr/bin/llama-server".to_string()), false), Some("/usr/bin/llama-server".to_string()));
    assert_eq!(resolve_candidate("/opt/llama.cpp/llama-server", None, true), Some("/opt/llama.cpp/llama-server".to_string()));
    assert_eq!(resolve_candidate("llama-server", None, false), None);
}

#[test]
fn provider_probing() {
    assert_eq!(models_url("http://h/v1"), "http://h/v1/models");
    let (online, models) = provider_status(Probe::Unreachable);
    assert!(!online && models.is_empty());
    let (online, models) = provider_status(Probe::Answered(Some(vec!["aeon".to_string()])));
    assert!(online);
    assert_eq!(models, vec!["aeon".to_string()]);
    let (online, models) = provider_status(Probe::Answered(None));
    assert!(online && models.is_empty());
}

#[test]
fn mebibytes() {
    assert_eq!(bytes_to_mib(5 * 1024 * 1024 + 7), 5);
    assert_eq!(bytes_to_mib(1024 * 1024 - 1), 0);
    assert_eq!(bytes_to_mib(u64::MAX), u64::MAX / 1048576);
}


#[test]
fn first_found_takes_the_first_hit_in_order() {
    let miss = (None, false);
    assert_eq!(first_found(&vec![miss.clone(), miss.clone(), miss.clone(), miss.clone(), miss.clone()]), None);
    assert_eq!(
        first_found(&vec![miss.clone(), (None, true), (Some("/x/llama-server".to_string()), true), miss.clone(), miss.clone()]),
        Some("llama.cpp/llama-server".to_string())
    );
    assert_eq!(
        first_found(&vec![miss.clone(), (Some("/bin/llama-server".to_string()), true), (None, true), miss.clone(), miss.clone()]),
        Some("/bin/llama-server".to_string())
    );
    assert_eq!(
        first_found(&vec![miss.clone(), miss.clone(), miss.clone(), miss.clone(), (None, true)]),
        Some("/opt/llama.cpp/llama-server".to_string())
    );
}
