use pakr::config::{Config, Wrapper};
use pakr::orphans::parse_orphans;
use pakr::outcome::{check_gate, ProcessOutcome};
use pakr::wrapper::{OrphanNext, PacmanWrapper};

fn direct_wrapper(command: &str) -> PacmanWrapper {
    PacmanWrapper::from_config(Config {
        wrapper: Wrapper {
            command: command.to_string(),
            requires_root: false,
        },
    })
}

#[test]
fn parse_orphans_empty_output() {
    assert!(parse_orphans(&Vec::new()).is_empty());
    assert!(parse_orphans(&b"  \n\t ".to_vec()).is_empty());
}

#[test]
fn parse_orphans_splits_on_whitespace() {
    let names = parse_orphans(&b"foo bar".to_vec());
    assert_eq!(names, vec!["foo".to_string(), "bar".to_string()]);
}

#[test]
fn parse_orphans_keeps_order_and_duplicates() {
    let names = parse_orphans(&b"zeta alpha\nzeta\t\talpha\r\n".to_vec());
    assert_eq!(
        names,
        vec![
            "zeta".to_string(),
            "alpha".to_string(),
            "zeta".to_string(),
            "alpha".to_string(),
        ]
    );
}

#[test]
fn remove_orphans_short_circuits_on_empty_listing() {
    let pac = direct_wrapper("pacman");
    let mut launches = 0;
    let _listing_invocation = pac.silent_list_orphans();
    launches += 1;
    // Stubbed delegate: the listing succeeded and printed nothing.
    let next = pac.remove_orphans(&ProcessOutcome::exited(0), &Vec::new());
    match next {
        OrphanNext::Finish(outcome) => {
            assert_eq!(outcome.exit_code, Some(0));
            assert_eq!(outcome.terminating_signal, None);
        }
        OrphanNext::Delete(_) => panic!("no delete phase may run on an empty orphan set"),
    }
    assert_eq!(launches, 1);
}

#[test]
fn remove_orphans_deletes_exactly_the_listed_set() {
    let pac = direct_wrapper("pacman");
    let mut launches = 0;
    let _listing_invocation = pac.silent_list_orphans();
    launches += 1;
    // Stubbed delegate: the listing succeeded and printed "foo bar".
    let next = pac.remove_orphans(&ProcessOutcome::exited(0), &b"foo bar".to_vec());
    match next {
        OrphanNext::Delete(inv) => {
            launches += 1;
            assert_eq!(inv.program, "pacman");
            assert_eq!(
                inv.args,
                vec!["-Rns".to_string(), "foo".to_string(), "bar".to_string()]
            );
        }
        OrphanNext::Finish(_) => panic!("a non-empty orphan set must reach the delete phase"),
    }
    assert_eq!(launches, 2);
}

#[test]
fn remove_orphans_propagates_failed_listing() {
    let pac = direct_wrapper("pacman");
    let next = pac.remove_orphans(&ProcessOutcome::exited(4), &b"foo".to_vec());
    match next {
        OrphanNext::Finish(outcome) => assert_eq!(outcome.exit_code, Some(4)),
        OrphanNext::Delete(_) => panic!("a failed listing must end the workflow"),
    }
}

#[test]
fn exit_code_is_forwarded() {
    assert_eq!(ProcessOutcome::exited(3).exit_value(), 3);
    assert_eq!(ProcessOutcome::exited(0).exit_value(), 0);
}

#[test]
fn terminating_signal_is_forwarded() {
    assert_eq!(ProcessOutcome::signaled(9).exit_value(), 9);
}

#[test]
fn failed_check_blocks_dispatch() {
    let pac = direct_wrapper("missing-cmd");
    let _check_invocation = pac.verify_command();
    // Stubbed check outcome: the command did not resolve.
    let gate = check_gate(&ProcessOutcome::exited(127));
    assert_eq!(gate, Some(127));
    // The caller aborts here: no operation invocation is ever built.
}

#[test]
fn successful_check_lets_operations_proceed() {
    assert_eq!(check_gate(&ProcessOutcome::exited(0)), None);
    assert_eq!(check_gate(&ProcessOutcome::signaled(15)), Some(15));
}
