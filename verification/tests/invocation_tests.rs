use pakr::cli::{verbosity, Orphans};
use pakr::config::{Config, Wrapper};
use pakr::invocation::CommandMaker;
use pakr::wrapper::PacmanWrapper;

fn escalated_maker(command: &str) -> CommandMaker {
    CommandMaker::from_wrapper_config(Wrapper {
        command: command.to_string(),
        requires_root: true,
    })
}

fn direct_maker(command: &str) -> CommandMaker {
    CommandMaker::from_wrapper_config(Wrapper {
        command: command.to_string(),
        requires_root: false,
    })
}

fn direct_wrapper(command: &str) -> PacmanWrapper {
    PacmanWrapper::from_config(Config {
        wrapper: Wrapper {
            command: command.to_string(),
            requires_root: false,
        },
    })
}

fn escalated_wrapper(command: &str) -> PacmanWrapper {
    PacmanWrapper::from_config(Config {
        wrapper: Wrapper {
            command: command.to_string(),
            requires_root: true,
        },
    })
}

#[test]
fn escalated_invocation_uses_helper_path() {
    let inv = escalated_maker("pacman").construct();
    assert_eq!(inv.program, "/usr/bin/sudo");
    assert_eq!(inv.args, vec!["pacman".to_string()]);
}

#[test]
fn direct_invocation_uses_command_itself() {
    let inv = direct_maker("paru").construct();
    assert_eq!(inv.program, "paru");
    assert!(inv.args.is_empty());
}

#[test]
fn building_twice_is_identical() {
    let pac = escalated_wrapper("pacman");
    let packages = vec!["vim".to_string(), "git".to_string()];
    let a = pac.install(&packages, true);
    let b = pac.install(&packages, true);
    assert_eq!(a.program, b.program);
    assert_eq!(a.args, b.args);

    let c = pac.upgrade();
    let d = pac.upgrade();
    assert_eq!(c.program, d.program);
    assert_eq!(c.args, d.args);
}

#[test]
fn install_without_as_deps_has_no_as_deps_flag() {
    let pac = direct_wrapper("pacman");
    let packages = vec!["vim".to_string()];
    let inv = pac.install(&packages, false);
    assert_eq!(inv.args, vec!["-S".to_string(), "vim".to_string()]);
    assert!(!inv.args.iter().any(|a| a == "--asdeps"));
}

#[test]
fn install_with_as_deps_places_flag_before_names() {
    let pac = direct_wrapper("pacman");
    let packages = vec!["vim".to_string(), "git".to_string()];
    let inv = pac.install(&packages, true);
    assert_eq!(
        inv.args,
        vec![
            "-S".to_string(),
            "--asdeps".to_string(),
            "vim".to_string(),
            "git".to_string(),
        ]
    );
}

#[test]
fn escalated_install_keeps_command_first() {
    let pac = escalated_wrapper("pacman");
    let packages = vec!["vim".to_string()];
    let inv = pac.install(&packages, false);
    assert_eq!(inv.program, "/usr/bin/sudo");
    assert_eq!(
        inv.args,
        vec!["pacman".to_string(), "-S".to_string(), "vim".to_string()]
    );
}

#[test]
fn uninstall_uses_remove_flag() {
    let pac = direct_wrapper("pacman");
    let inv = pac.uninstall(&vec!["vim".to_string()]);
    assert_eq!(inv.args, vec!["-Rs".to_string(), "vim".to_string()]);
}

#[test]
fn info_uses_query_info_flag() {
    let pac = direct_wrapper("pacman");
    let inv = pac.info(&vec!["vim".to_string(), "git".to_string()]);
    assert_eq!(
        inv.args,
        vec!["-Qi".to_string(), "vim".to_string(), "git".to_string()]
    );
}

#[test]
fn upgrade_clean_and_listing_flags() {
    let pac = direct_wrapper("pacman");
    assert_eq!(pac.upgrade().args, vec!["-Syu".to_string()]);
    assert_eq!(pac.clean().args, vec!["-Sc".to_string()]);
    assert_eq!(pac.list_orphans().args, vec!["-Qtd".to_string()]);
    assert_eq!(pac.silent_list_orphans().args, vec!["-Qtdq".to_string()]);
}

#[test]
fn as_string_shows_escalation_prefix() {
    assert_eq!(escalated_maker("pacman").as_string(), "/usr/bin/sudo pacman");
    assert_eq!(direct_maker("paru").as_string(), "paru");
}

#[test]
fn check_command_runs_shell_lookup() {
    let inv = direct_maker("pacman").check_command();
    assert_eq!(inv.program, "sh");
    assert_eq!(
        inv.args,
        vec!["-c".to_string(), "command -v pacman".to_string()]
    );
}

#[test]
fn check_command_escalates_like_operations() {
    let inv = escalated_maker("pacman").check_command();
    assert_eq!(inv.program, "/usr/bin/sudo");
    assert_eq!(
        inv.args,
        vec![
            "sh".to_string(),
            "-c".to_string(),
            "command -v pacman".to_string(),
        ]
    );
}

#[test]
fn default_configuration_is_escalated_pacman() {
    let config = Config::default();
    assert_eq!(config.wrapper.command, "pacman");
    assert!(config.wrapper.requires_root);
}

#[test]
fn default_orphans_operation_is_remove() {
    assert_eq!(Orphans::default(), Orphans::Remove);
}

#[test]
fn verbosity_levels() {
    assert_eq!(verbosity(false), 2);
    assert_eq!(verbosity(true), 3);
}
