use ai_mergetool::Config;
use ai_mergetool::GenerateConfigArgs;
use ai_mergetool::GenerateConfigError;
use ai_mergetool::default_config_path;

#[test]
fn permission_mode_default() {
    let config = Config::default();
    assert_eq!(config.permission_mode(), "acceptEdits");
}

#[test]
fn permission_mode_override() {
    let config = Config {
        permission_mode: Some("plan".to_string()),
        ..Config::default()
    };
    assert_eq!(config.permission_mode(), "plan");
}

#[test]
fn extra_args_default() {
    let config = Config::default();
    assert_eq!(config.extra_args(), &[] as &[String]);
}

#[test]
fn extra_args_override() {
    let config = Config {
        extra_args: Some(vec!["--model".to_string(), "opus".to_string()]),
        ..Config::default()
    };
    assert_eq!(config.extra_args(), &["--model", "opus"]);
}

#[test]
fn append_system_prompt_none() {
    let config = Config::default();
    let mut prompt = "base prompt".to_string();
    config.append_system_prompt(&mut prompt);
    assert_eq!(prompt, "base prompt");
}

#[test]
fn append_system_prompt_some() {
    let config = Config {
        extra_system_prompt: Some("Be concise.".to_string()),
        ..Config::default()
    };
    let mut prompt = "base prompt".to_string();
    config.append_system_prompt(&mut prompt);
    assert_eq!(prompt, "base prompt\n\nBe concise.");
}

#[test]
fn default_config_path_joins() {
    assert_eq!(
        default_config_path(Some("/home/u/.config".to_string())),
        Some("/home/u/.config/ai-mergetool/config.toml".to_string())
    );
    assert_eq!(default_config_path(None), None);
}

#[test]
fn generate_config_target_explicit() {
    let args = GenerateConfigArgs {
        output: Some("/x/config.toml".to_string()),
        force: false,
    };
    assert_eq!(
        args.target_path(Some("/default.toml".to_string())),
        Ok("/x/config.toml".to_string())
    );
}

#[test]
fn generate_config_target_default() {
    let args = GenerateConfigArgs {
        output: None,
        force: false,
    };
    assert_eq!(
        args.target_path(Some("/default.toml".to_string())),
        Ok("/default.toml".to_string())
    );
    assert_eq!(
        args.target_path(None),
        Err(GenerateConfigError::NoDefaultDirectory)
    );
}

#[test]
fn generate_config_overwrite_rules() {
    let plain = GenerateConfigArgs {
        output: None,
        force: false,
    };
    let forced = GenerateConfigArgs {
        output: None,
        force: true,
    };
    assert_eq!(plain.check_overwrite(false), Ok(()));
    assert_eq!(
        plain.check_overwrite(true),
        Err(GenerateConfigError::AlreadyExists)
    );
    assert_eq!(forced.check_overwrite(true), Ok(()));
}
