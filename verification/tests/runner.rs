use port_review::checkout::Checkout;
use port_review::contract::{
    AssetsContract, ContractResult, LicenseContract, NoGitKeepContract, ReadmeContract,
    ReviewContract,
};
use port_review::record::{Level, LogRecord};
use port_review::runner::{contracts, review, Contract, Review};

fn strings(items: &[&str]) -> Vec<String> {
    items.iter().map(|item| item.to_string()).collect()
}

fn clean_repository() -> Checkout {
    Checkout {
        index_paths: strings(&["README.md", "LICENSE", "assets/mocha.webp"]),
        readme: Some("# Catppuccin for Something\n".to_string()),
        license: Some("MIT License\n\nCopyright (c) 2021 Catppuccin\n".to_string()),
        known_paths: strings(&[
            "assets/mocha.webp",
            "assets/latte.webp",
            "assets/macchiato.webp",
            "assets/frappe.webp",
        ]),
    }
}

fn info(text: &str) -> LogRecord {
    LogRecord { level: Level::Info, text: text.to_string() }
}

#[test]
fn the_contracts_run_in_a_fixed_order_with_assets_before_license() {
    assert_eq!(contracts(), [Contract::NoGitKeep, Contract::Readme, Contract::Assets, Contract::License]);
    let list = contracts();
    let names: Vec<&str> = list.iter().map(|contract| contract.name()).collect();
    assert_eq!(names, ["No .gitkeep files", "README is correct", "Assets are correct", "LICENSE is correct"]);
}

#[test]
fn a_clean_repository_passes_every_contract_and_exits_with_zero() {
    let done = review(&clean_repository());
    assert_eq!(
        done.results,
        vec![ContractResult::Pass, ContractResult::Pass, ContractResult::Pass, ContractResult::Pass]
    );
    assert_eq!(done.broke_off_at, None);
    assert_eq!(
        done.records,
        vec![
            info("Testing contract 'No .gitkeep files'"),
            info("Contract 'No .gitkeep files' passed"),
            info("Testing contract 'README is correct'"),
            info("Contract 'README is correct' passed"),
            info("Testing contract 'Assets are correct'"),
            info("Contract 'Assets are correct' passed"),
            info("Testing contract 'LICENSE is correct'"),
            info("Contract 'LICENSE is correct' passed"),
        ]
    );
    assert_eq!(done.exit_status(), 0);
}

#[test]
fn a_readme_with_the_human_line_fails_the_review_and_nothing_else() {
    let repo = Checkout {
        readme: Some("# Title\n\n- [Human](https://github.com/catppuccin)\n".to_string()),
        ..clean_repository()
    };
    let done = review(&repo);
    assert_eq!(
        done.results,
        vec![
            ContractResult::Pass,
            ContractResult::Fail {
                msg: "README contains '- [Human](https://github.com/catppuccin)'".to_string()
            },
            ContractResult::Pass,
            ContractResult::Pass,
        ]
    );
    assert_eq!(done.broke_off_at, None);
    assert_eq!(
        done.records[3],
        LogRecord {
            level: Level::Error,
            text: "Contract 'README is correct' failed:\nREADME contains '- [Human](https://github.com/catppuccin)'"
                .to_string(),
        }
    );
    assert_ne!(done.exit_status(), 0);
    assert_eq!(done.exit_status(), 1);
}

#[test]
fn every_failing_contract_is_reported() {
    let repo = Checkout {
        index_paths: strings(&["docs/.gitkeep"]),
        readme: Some("https://github.com/catppuccin/template/stargazers".to_string()),
        license: Some("MIT".to_string()),
        known_paths: strings(&["assets/mocha.webp", "assets/latte.webp"]),
    };
    let done = review(&repo);
    assert_eq!(
        done.results,
        vec![
            ContractResult::Fail { msg: "path at docs/.gitkeep".to_string() },
            ContractResult::Fail {
                msg: "README contains 'https://github.com/catppuccin/template/stargazers'".to_string()
            },
            ContractResult::Fail { msg: "path 'assets/macchiato.webp' is not valid".to_string() },
            ContractResult::Warn {
                msg: "LICENSE header is wrong, expected Copyright (c) 2021 Catppuccin".to_string()
            },
        ]
    );
    let levels: Vec<Level> = done.records.iter().map(|record| record.level).collect();
    assert_eq!(
        levels,
        vec![
            Level::Info,
            Level::Error,
            Level::Info,
            Level::Error,
            Level::Info,
            Level::Error,
            Level::Info,
            Level::Warn
        ]
    );
    assert_eq!(
        done.records[7].text,
        "Contract 'LICENSE is correct' warned: LICENSE header is wrong, expected Copyright (c) 2021 Catppuccin"
    );
    assert_eq!(done.exit_status(), 1);
}

#[test]
fn a_warning_alone_does_not_change_the_exit_status() {
    let repo = Checkout { license: Some("MIT License".to_string()), ..clean_repository() };
    let done = review(&repo);
    assert_eq!(
        done.results[3],
        ContractResult::Warn {
            msg: "LICENSE header is wrong, expected Copyright (c) 2021 Catppuccin".to_string()
        }
    );
    assert_eq!(done.exit_status(), 0);
}

#[test]
fn a_failure_in_the_last_position_is_counted() {
    let done = Review {
        records: Vec::new(),
        results: vec![
            ContractResult::Pass,
            ContractResult::Warn { msg: "w".to_string() },
            ContractResult::Pass,
            ContractResult::Fail { msg: "f".to_string() },
        ],
        broke_off_at: None,
    };
    assert_eq!(done.exit_status(), 1);
}

#[test]
fn a_review_without_results_exits_with_zero() {
    let done = Review { records: Vec::new(), results: Vec::new(), broke_off_at: None };
    assert_eq!(done.exit_status(), 0);
}

#[test]
fn a_missing_readme_breaks_the_review_off_after_its_announcement() {
    let repo = Checkout { readme: None, ..clean_repository() };
    let done = review(&repo);
    assert_eq!(done.broke_off_at, Some(Contract::Readme));
    assert_eq!(done.results, vec![ContractResult::Pass]);
    assert_eq!(
        done.records,
        vec![
            info("Testing contract 'No .gitkeep files'"),
            info("Contract 'No .gitkeep files' passed"),
            info("Testing contract 'README is correct'"),
        ]
    );
    assert_eq!(done.exit_status(), 1);
}

#[test]
fn a_missing_license_breaks_the_review_off_at_the_last_contract() {
    let repo = Checkout { license: None, ..clean_repository() };
    let done = review(&repo);
    assert_eq!(done.broke_off_at, Some(Contract::License));
    assert_eq!(done.results, vec![ContractResult::Pass, ContractResult::Pass, ContractResult::Pass]);
    assert_eq!(done.records.len(), 7);
    assert_eq!(done.records[6], info("Testing contract 'LICENSE is correct'"));
    assert_eq!(done.exit_status(), 1);
}

#[test]
fn with_both_files_missing_the_review_breaks_off_at_the_readme() {
    let repo = Checkout { readme: None, license: None, ..clean_repository() };
    let done = review(&repo);
    assert_eq!(done.broke_off_at, Some(Contract::Readme));
    assert_eq!(done.results.len(), 1);
}

#[test]
fn reviewing_twice_gives_the_same_review() {
    let repo = Checkout {
        index_paths: strings(&["docs/.gitkeep"]),
        license: Some("MIT".to_string()),
        ..clean_repository()
    };
    let first = review(&repo);
    let second = review(&repo);
    assert_eq!(first, second);
    assert_eq!(first.exit_status(), second.exit_status());

    let clean = clean_repository();
    assert_eq!(review(&clean), review(&clean));
}

#[test]
fn the_closed_set_of_contracts_tests_like_the_contracts_themselves() {
    let repo = Checkout {
        index_paths: strings(&["docs/.gitkeep"]),
        readme: Some("https://github.com/catppuccin/template/issues".to_string()),
        license: Some("MIT".to_string()),
        known_paths: Vec::new(),
    };
    assert_eq!(Contract::NoGitKeep.test(&repo), NoGitKeepContract.test(&repo));
    assert_eq!(Contract::Readme.test(&repo), ReadmeContract.test(&repo));
    assert_eq!(Contract::Assets.test(&repo), AssetsContract.test(&repo));
    assert_eq!(Contract::License.test(&repo), LicenseContract.test(&repo));
    assert_eq!(Contract::Readme.name(), ReadmeContract.name());
    let unreadable = Checkout { readme: None, license: None, ..clean_repository() };
    assert!(Contract::NoGitKeep.can_test(&unreadable));
    assert!(!Contract::Readme.can_test(&unreadable));
    assert!(Contract::Assets.can_test(&unreadable));
    assert!(!Contract::License.can_test(&unreadable));
}
