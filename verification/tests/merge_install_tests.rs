use ai_mergetool::InstallArgs;
use ai_mergetool::InstallError;
use ai_mergetool::InstallProgram;
use ai_mergetool::MergeArgs;
use ai_mergetool::MergeArgsError;

fn merge_args_git_mode() -> MergeArgs {
    MergeArgs {
        git_merge_driver: true,
        base: "/tmp/base.txt".to_string(),
        left: "/tmp/left.txt".to_string(),
        right: "/tmp/right.txt".to_string(),
        output: None,
        ancestor_label: None,
        left_label: "ours".to_string(),
        right_label: "theirs".to_string(),
        filepath: Some("src/lib.rs".to_string()),
        marker_size: None,
    }
}

#[test]
fn command_git_mode() {
    let args = merge_args_git_mode();
    let argv = args.assistant_args().unwrap();
    assert_eq!(
        argv,
        vec![
            "--print".to_string(),
            "--verbose".to_string(),
            "--output-format=stream-json".to_string(),
            "--permission-mode=acceptEdits".to_string(),
            "--append-system-prompt".to_string(),
            "You are resolving a merge conflict in `src/lib.rs`. Your working directory \
             is the root of the repository, so you can browse and edit other files if \
             needed (e.g. if code moved between files).\n\nThree versions of the file \
             are provided as temporary files: the base (common ancestor), left (ours), \
             and right (theirs). Read all three, understand what each side changed \
             relative to the base, and write a resolved version to the output path. If \
             changes are compatible, merge them cleanly. If they genuinely conflict, \
             use your best judgment and explain your reasoning."
                .to_string(),
            "Resolve the merge conflict in `src/lib.rs`.\n\nRead these three versions \
             of the file:\n- Base (common ancestor): /tmp/base.txt\n- Left (ours): \
             /tmp/left.txt\n- Right (theirs): /tmp/right.txt\n\nWrite the resolved \
             file to: /tmp/left.txt"
                .to_string(),
            "--add-dir".to_string(),
            "/tmp".to_string(),
        ]
    );
}

#[test]
fn command_output_mode() {
    let args = MergeArgs {
        git_merge_driver: false,
        base: "/tmp/base.txt".to_string(),
        left: "/tmp/left.txt".to_string(),
        right: "/tmp/right.txt".to_string(),
        output: Some("/tmp/output.txt".to_string()),
        ancestor_label: Some("ancestor".to_string()),
        left_label: "current".to_string(),
        right_label: "incoming".to_string(),
        filepath: Some("README.md".to_string()),
        marker_size: Some(7),
    };
    let argv = args.assistant_args().unwrap();
    assert_eq!(
        argv,
        vec![
            "--print".to_string(),
            "--verbose".to_string(),
            "--output-format=stream-json".to_string(),
            "--permission-mode=acceptEdits".to_string(),
            "--append-system-prompt".to_string(),
            "You are resolving a merge conflict in `README.md`. Your working directory \
             is the root of the repository, so you can browse and edit other files if \
             needed (e.g. if code moved between files).\n\nThree versions of the file \
             are provided as temporary files: the base (common ancestor), left \
             (current), and right (incoming). Read all three, understand what each \
             side changed relative to the base, and write a resolved version to the \
             output path. If changes are compatible, merge them cleanly. If they \
             genuinely conflict, use your best judgment and explain your reasoning."
                .to_string(),
            "Resolve the merge conflict in `README.md`.\n\nRead these three versions \
             of the file:\n- Base (common ancestor): /tmp/base.txt\n- Left (current): \
             /tmp/left.txt\n- Right (incoming): /tmp/right.txt\n\nWrite the resolved \
             file to: /tmp/output.txt"
                .to_string(),
            "--add-dir".to_string(),
            "/tmp".to_string(),
        ]
    );
}

#[test]
fn output_path_resolution() {
    let args = merge_args_git_mode();
    assert_eq!(args.output_path().unwrap(), "/tmp/left.txt");
    let mut no_output = merge_args_git_mode();
    no_output.git_merge_driver = false;
    assert_eq!(no_output.output_path(), Err(MergeArgsError::NoOutputPath));
    let mut explicit = merge_args_git_mode();
    explicit.output = Some("/out.txt".to_string());
    assert_eq!(explicit.output_path().unwrap(), "/out.txt");
}

#[test]
fn filepath_defaults_to_placeholder() {
    let mut args = merge_args_git_mode();
    assert_eq!(args.filepath(), "src/lib.rs");
    args.filepath = None;
    assert_eq!(args.filepath(), "unknown file");
}

#[test]
fn access_dirs_deduplicates_parents() {
    let mut args = merge_args_git_mode();
    args.base = "/a/base.txt".to_string();
    args.output = Some("/b/out.txt".to_string());
    let dirs = args.access_dirs().unwrap();
    assert_eq!(
        dirs,
        vec!["/a".to_string(), "/tmp".to_string(), "/b".to_string()]
    );
}

#[test]
fn install_program_names() {
    assert_eq!(InstallProgram::Git.program(), "git");
    assert_eq!(InstallProgram::Jj.program(), "jj");
}

#[test]
fn default_values_filter_by_availability() {
    assert_eq!(
        InstallProgram::default_values(true, true),
        vec![InstallProgram::Git, InstallProgram::Jj]
    );
    assert_eq!(
        InstallProgram::default_values(false, true),
        vec![InstallProgram::Jj]
    );
    assert_eq!(InstallProgram::default_values(false, false), vec![]);
}

#[test]
fn config_set_args_per_program() {
    assert_eq!(
        InstallProgram::Git.config_set_args("k", "v"),
        vec!["config", "set", "--global", "k", "v"]
    );
    assert_eq!(
        InstallProgram::Jj.config_set_args("k", "v"),
        vec!["config", "set", "--user", "k", "v"]
    );
}

#[test]
fn install_settings_exact() {
    let git = InstallProgram::Git.install_settings();
    assert_eq!(
        git,
        vec![
            (
                "mergetool.ai.cmd".to_string(),
                r#"ai-mergetool merge "$BASE" "$LOCAL" "$REMOTE" -o "$MERGED""#.to_string()
            ),
            (
                "mergetool.ai.trustExitCode".to_string(),
                "true".to_string()
            ),
            (
                "mergetool.ai.trustExitCode".to_string(),
                "true".to_string()
            ),
        ]
    );
    let jj = InstallProgram::Jj.install_settings();
    assert_eq!(
        jj,
        vec![
            (
                "merge-tools.ai.program".to_string(),
                "ai-mergetool".to_string()
            ),
            (
                "merge-tools.ai.merge-args".to_string(),
                r#"["merge", "$base", "$left", "$right", "-o", "$output", "-p", "$path"]"#
                    .to_string()
            ),
        ]
    );
}

#[test]
fn programs_to_configure_cases() {
    let named = InstallArgs {
        programs: vec![InstallProgram::Jj],
    };
    assert_eq!(
        named.programs_to_configure(vec![InstallProgram::Git]),
        Ok(vec![InstallProgram::Jj])
    );
    let unnamed = InstallArgs { programs: vec![] };
    assert_eq!(
        unnamed.programs_to_configure(vec![InstallProgram::Git]),
        Ok(vec![InstallProgram::Git])
    );
    assert_eq!(
        unnamed.programs_to_configure(vec![]),
        Err(InstallError::NoProgramAvailable)
    );
}
