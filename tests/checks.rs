use shellfirm::challenge::{
    confirm, evaluate, generate_token, scan, settle, token_from_draws, Decision, Status,
};
use shellfirm::check::{Catalog, CatalogError, CheckDef, RiskLevel};
use shellfirm::exit::{exit_plan, CmdExit, DEFAULT_ERR_EXIT_CODE, EXIT_ABORT, EXIT_CONFIG};
use shellfirm::matcher::run_check_on_command;
use shellfirm::rules::{default_catalog, default_definitions};
use shellfirm::settings::{resolve, Settings};

fn def(id: u64, pattern: &str, risk: RiskLevel, category: &str) -> CheckDef {
    CheckDef {
        id,
        pattern: pattern.to_string(),
        description: format!("rule {}", id),
        risk,
        category: category.to_string(),
    }
}

fn all_active() -> Vec<shellfirm::check::Check> {
    let catalog = default_catalog().unwrap();
    resolve(&catalog, &Settings::new_default())
}

#[test]
fn test_checks() {
    let checks = all_active();
    let fixtures: Vec<(&str, Vec<u64>)> = vec![
        ("rm -rf /", vec![2, 1]),
        ("rm -rf ~", vec![2, 1]),
        ("rm -r ./build", vec![2]),
        ("rm file.txt", vec![]),
        ("ls -la", vec![]),
        ("dd if=/dev/zero of=/dev/sda", vec![3]),
        ("mkfs.ext4 /dev/sdb1", vec![4]),
        ("chmod -R 777 .", vec![5]),
        ("git reset --hard HEAD~1", vec![6]),
        ("git push origin main --force", vec![7]),
        ("git push -f", vec![7]),
        ("git branch -D feature", vec![8]),
        ("git clean -fd", vec![9]),
        ("kubectl delete ns prod", vec![10]),
        ("git reset --hard && rm -rf *", vec![6, 2, 1]),
        ("RM -RF /", vec![]),
    ];
    for (command, expected) in fixtures {
        assert_eq!(run_check_on_command(&checks, command), expected, "command: {}", command);
    }
}

#[test]
fn matching_is_deterministic() {
    let checks = all_active();
    let a = run_check_on_command(&checks, "git reset --hard && rm -rf *");
    let b = run_check_on_command(&checks, "git reset --hard && rm -rf *");
    assert_eq!(a, b);
}

#[test]
fn each_check_contributes_once() {
    let checks = all_active();
    assert_eq!(run_check_on_command(&checks, "rm -rf / ; rm -rf / ; rm -rf /"), vec![2, 1]);
}

#[test]
fn rm_rf_root_is_rejected_on_wrong_token() {
    let catalog = default_catalog().unwrap();
    let high = catalog.checks().iter().find(|c| c.id == 1).unwrap();
    assert_eq!(high.risk, RiskLevel::High);
    assert_eq!(high.category, "fs");
    let active = resolve(&catalog, &Settings::new_default());
    match scan(&active, "rm -rf /", &vec![0, 1, 2, 3, 4, 5]) {
        Decision::Clear => panic!("rm -rf / must be challenged"),
        Decision::Challenge { matched, token } => {
            assert!(matched.contains(&1));
            assert_eq!(token, "ABCDEF");
            let status = confirm(&token, &Some("abcdef".to_string()));
            assert_eq!(status, Status::Abort);
            let exit = CmdExit::from_status(status);
            assert_ne!(exit.code, 0);
            assert_eq!(exit.code, EXIT_ABORT);
        }
    }
}

#[test]
fn exact_token_confirms() {
    let active = all_active();
    match evaluate(&active, "git reset --hard", 8) {
        Decision::Clear => panic!("a hard reset must be challenged"),
        Decision::Challenge { matched, token } => {
            assert_eq!(matched, vec![6]);
            assert_eq!(token.chars().count(), 8);
            assert_eq!(confirm(&token, &Some(token.clone())), Status::Allow);
            assert_eq!(confirm(&token, &Some(format!("{} ", token))), Status::Abort);
            assert_eq!(confirm(&token, &None), Status::Abort);
        }
    }
}

#[test]
fn settle_challenge_needs_exact_token() {
    let active = all_active();
    let d = scan(&active, "rm -rf /", &vec![30, 31]);
    assert_eq!(settle(&d, &Some("ef".to_string())), Status::Allow);
    assert_eq!(settle(&d, &Some("EF".to_string())), Status::Abort);
    assert_eq!(settle(&d, &Some("".to_string())), Status::Abort);
    assert_eq!(settle(&d, &None), Status::Abort);
}

#[test]
fn ls_la_is_clear() {
    let active = all_active();
    assert!(matches!(evaluate(&active, "ls -la", 6), Decision::Clear));
    let d = scan(&active, "ls -la", &vec![1, 2, 3]);
    assert!(matches!(d, Decision::Clear));
    assert_eq!(settle(&d, &None), Status::Allow);
    let exit = CmdExit::from_status(Status::Allow);
    assert_eq!(exit.code, 0);
    assert!(exit.message.is_none());
}

#[test]
fn duplicate_ids_fail_to_load() {
    let defs = vec![
        def(7, "rm", RiskLevel::High, "fs"),
        def(3, "dd", RiskLevel::High, "fs"),
        def(7, "mkfs", RiskLevel::Low, "fs"),
    ];
    match Catalog::load(&defs) {
        Err(e) => assert_eq!(e, CatalogError::DuplicateId { id: 7 }),
        Ok(_) => panic!("duplicate ids must be refused"),
    }
}

#[test]
fn invalid_pattern_fails_to_load() {
    let defs = vec![def(1, "rm", RiskLevel::High, "fs"), def(2, "(unclosed", RiskLevel::High, "fs")];
    match Catalog::load(&defs) {
        Err(e) => assert_eq!(e, CatalogError::PatternCompile { id: 2 }),
        Ok(_) => panic!("a broken pattern must be refused"),
    }
}

#[test]
fn first_failing_entry_decides_the_error() {
    let defs = vec![
        def(1, "rm", RiskLevel::High, "fs"),
        def(1, "[", RiskLevel::High, "fs"),
        def(2, "(", RiskLevel::High, "fs"),
    ];
    match Catalog::load(&defs) {
        Err(e) => assert_eq!(e, CatalogError::PatternCompile { id: 1 }),
        Ok(_) => panic!("must fail"),
    }
}

#[test]
fn empty_definitions_give_empty_catalog() {
    let catalog = Catalog::load(&Vec::new()).unwrap();
    assert_eq!(catalog.len(), 0);
    let active = resolve(&catalog, &Settings::new_default());
    assert!(run_check_on_command(&active, "rm -rf /").is_empty());
}

#[test]
fn bundled_definitions_load() {
    let defs = default_definitions();
    assert_eq!(defs.len(), 10);
    let catalog = Catalog::load(&defs).unwrap();
    assert_eq!(catalog.len(), 10);
    assert_eq!(catalog.checks()[0].pattern.as_str(), defs[0].pattern);
}

#[test]
fn resolve_filters_and_stays_within_catalog() {
    let catalog = default_catalog().unwrap();
    let settings = Settings {
        ignored_ids: vec![2, 999],
        disabled_categories: vec!["kubernetes".to_string(), "no-such-category".to_string()],
        challenge_length: 4,
        risk_threshold: Some(RiskLevel::Medium),
    };
    let active = resolve(&catalog, &settings);
    let ids: Vec<u64> = active.iter().map(|c| c.id).collect();
    assert_eq!(ids, vec![1, 3, 4, 5, 6, 7, 9]);
    for c in &active {
        assert!(catalog.checks().iter().any(|k| k.id == c.id && k.pattern.as_str() == c.pattern.as_str()));
    }
    assert_eq!(run_check_on_command(&active, "rm -rf /"), vec![1]);
    assert!(run_check_on_command(&active, "kubectl delete ns prod").is_empty());
    assert!(run_check_on_command(&active, "git branch -D x").is_empty());
}

#[test]
fn high_threshold_keeps_high_only() {
    let catalog = default_catalog().unwrap();
    let mut settings = Settings::new_default();
    settings.risk_threshold = Some(RiskLevel::High);
    let ids: Vec<u64> = resolve(&catalog, &settings).iter().map(|c| c.id).collect();
    assert_eq!(ids, vec![1, 3, 4, 6, 10]);
    assert!(settings.is_valid());
    settings.challenge_length = 0;
    assert!(!settings.is_valid());
}

#[test]
fn risk_levels_are_ordered() {
    assert!(RiskLevel::High.at_least(&RiskLevel::Low));
    assert!(RiskLevel::Medium.at_least(&RiskLevel::Medium));
    assert!(!RiskLevel::Low.at_least(&RiskLevel::Medium));
}

#[test]
fn token_from_draws_spells_alphabet() {
    assert_eq!(token_from_draws(&vec![0, 25, 26, 51, 52, 61, 62, 125]), "AZaz09AB");
    assert_eq!(token_from_draws(&vec![]), "");
}

#[test]
fn generated_token_is_alphanumeric() {
    let token = generate_token(32);
    assert_eq!(token.chars().count(), 32);
    assert!(token.chars().all(|c| c.is_ascii_alphanumeric()));
    assert_eq!(generate_token(0), "");
}

#[test]
fn exit_plan_follows_result() {
    let plan = exit_plan(Some(CmdExit { code: 0, message: Some("ok".to_string()) }));
    assert_eq!(plan.code, 0);
    assert!(plan.success);
    assert_eq!(plan.message, Some("ok".to_string()));
    let plan = exit_plan(Some(CmdExit::from_status(Status::Abort)));
    assert_eq!(plan.code, EXIT_ABORT);
    assert!(!plan.success);
    assert!(plan.message.is_some());
    let plan = exit_plan(None);
    assert_eq!(plan.code, DEFAULT_ERR_EXIT_CODE);
    assert!(!plan.success);
    assert!(plan.message.is_none());
}

#[test]
fn config_error_has_its_own_code() {
    let exit = CmdExit::from_status(Status::ConfigError);
    assert_eq!(exit.code, EXIT_CONFIG);
    assert_ne!(exit.code, EXIT_ABORT);
    assert_ne!(exit.code, 0);
}

#[test]
fn status_messages_are_fixed() {
    assert_eq!(
        CmdExit::from_status(Status::Abort).message.as_deref(),
        Some("The command was not confirmed and will not run.")
    );
    assert_eq!(
        CmdExit::from_status(Status::ConfigError).message.as_deref(),
        Some("The checks or the settings could not be loaded.")
    );
}

#[test]
fn bundled_rules_hold_high_risk_recursive_delete() {
    let defs = default_definitions();
    let ids: Vec<u64> = defs.iter().map(|d| d.id).collect();
    assert_eq!(ids, (1..=10).collect::<Vec<u64>>());
    assert_eq!(defs[0].risk, RiskLevel::High);
    assert_eq!(defs[0].category, "fs");
    assert_eq!(defs[9].category, "kubernetes");
    assert_eq!(defs[7].risk, RiskLevel::Low);
    let catalog = default_catalog().unwrap();
    let first = &catalog.checks()[0];
    assert_eq!(first.id, 1);
    assert_eq!(first.pattern.as_str(), defs[0].pattern);
    assert_eq!(first.description, defs[0].description);
}
