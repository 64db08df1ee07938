use wasmerenv::error::Error;
use wasmerenv::execute::setup_exec;
use wasmerenv::execute::ExecPlan;
use wasmerenv::install::current_dir;
use wasmerenv::install::old_dir;
use wasmerenv::install::version_dir;
use wasmerenv::shellcfg::fish_config_contents;
use wasmerenv::shellcfg::sh_config_contents;
use wasmerenv::shellcfg::shell_code;
use wasmerenv::shellcfg::shell_name_of;
use wasmerenv::version::Constraint;
use wasmerenv::version::Version;

#[test]
fn shell_name_is_the_last_path_component() {
    assert_eq!(shell_name_of("/usr/bin/zsh"), "zsh");
    assert_eq!(shell_name_of("bash"), "bash");
    assert_eq!(shell_name_of("/usr/bin/"), "bin");
    assert_eq!(shell_name_of(""), "");
}

#[test]
fn bash_snippet_exports_the_config_directory() {
    let code = shell_code("/bin/bash", "/home/u/.config/wasmerenv").unwrap();
    assert_eq!(
        code,
        "\n# bash config for wasmerenv\n\
         # copy this to ~/.bashrc\n\
         export WASMERENV_DIR=\"/home/u/.config/wasmerenv\"\n\
         [ -s \"/home/u/.config/wasmerenv/wasmerenv.sh\" ] && source \"/home/u/.config/wasmerenv/wasmerenv.sh\"\n"
    );
}

#[test]
fn zsh_snippet_names_the_zshrc() {
    let code = shell_code("/usr/bin/zsh", "/cfg").unwrap();
    assert!(code.contains("# zsh config for wasmerenv"));
    assert!(code.contains("~/.zshrc"));
}

#[test]
fn fish_snippet_sets_the_fish_variables() {
    let code = shell_code("/usr/bin/fish", "/cfg").unwrap();
    assert_eq!(
        code,
        "\n# fish config for wasmerenv\n\
         # Copy this to ~/.config/fish/config.fish\n\
         set -x WASMER_DIR \"/cfg\"\n\
         set -x PATH $WASMER_DIR/bin $PATH\n"
    );
}

#[test]
fn unknown_shell_is_refused_by_name() {
    let err = shell_code("/usr/bin/nushell", "/cfg").unwrap_err();
    assert!(matches!(err, Error::ShellNotRecognized { .. }));
    assert_eq!(
        err.message(),
        "Shell `nushell` not recognized. Try one of `bash`, `zsh` or `fish`"
    );
}

#[test]
fn empty_shell_path_is_invalid() {
    let err = shell_code("", "/cfg").unwrap_err();
    assert!(matches!(err, Error::InvalidShellPath));
    assert_eq!(err.message(), "Invalid shell name");
}

#[test]
fn generated_config_files_point_at_the_current_installation() {
    assert_eq!(
        sh_config_contents("/data/wasmerenv/current"),
        "# wasmer config\n\
         export WASMER_DIR=\"/data/wasmerenv/current\"\n\
         export PATH=\"$WASMER_DIR/bin\":$PATH\n"
    );
    assert_eq!(
        fish_config_contents("/data/wasmerenv/current"),
        "# wasmer config for fish\n\
         set -x WASMER_DIR \"/data/wasmerenv/current\"\n\
         set -x PATH $WASMER_DIR/bin $PATH\n"
    );
}

#[test]
fn layout_paths_join_under_the_data_root() {
    assert_eq!(version_dir("/data", "2.5.0"), "/data/2.5.0");
    assert_eq!(current_dir("/data"), "/data/current");
    assert_eq!(old_dir("/data"), "/data/.wasmerenv/old");
}

#[test]
fn exec_uses_current_when_no_version_is_requested() {
    assert!(matches!(setup_exec(&None, &None), ExecPlan::UseCurrent));
}

#[test]
fn exec_uses_current_when_it_satisfies_the_request() {
    let constraint = Some(Constraint::parse("^2.0.0").unwrap());
    let current = Some(Version::parse("2.5.0").unwrap());
    assert!(matches!(setup_exec(&constraint, &current), ExecPlan::UseCurrent));
}

#[test]
fn exec_installs_a_scratch_copy_otherwise() {
    let constraint = Some(Constraint::parse("^3.0.0").unwrap());
    let current = Some(Version::parse("2.5.0").unwrap());
    assert!(matches!(setup_exec(&constraint, &current), ExecPlan::InstallTemporary));
    assert!(matches!(setup_exec(&constraint, &None), ExecPlan::InstallTemporary));
}
