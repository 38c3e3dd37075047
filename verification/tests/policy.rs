use roblox_booster::error::BoosterError;
use roblox_booster::policy::{
    classify, classify_lowercase, evaluate, find_process, is_below, is_safe_path,
    is_safe_to_optimize, reject, ProcessCandidate, RejectionReason, SafetyVerdict,
    MIN_PROCESS_LIFETIME_SECONDS,
};
use roblox_booster::text::chars_of;

fn process(pid: u32, name: &str, path: Option<&str>, uptime: u64) -> ProcessCandidate {
    ProcessCandidate {
        pid,
        name: String::from(name),
        executable_path: path.map(String::from),
        uptime_seconds: uptime,
    }
}

fn whitelist() -> Vec<String> {
    vec![String::from(r"C:\Users\X\AppData\Local\Roblox\Versions")]
}

#[test]
fn classify_accepts_the_game_client() {
    assert!(classify("RobloxPlayerBeta.exe"));
}

#[test]
fn classify_rejects_setup_despite_the_name() {
    assert!(!classify("RobloxBoosterSetup.exe"));
}

#[test]
fn classify_rejects_the_crash_handler() {
    assert!(!classify("rbx_crashhandler.exe"));
}

#[test]
fn classify_is_blind_to_case() {
    assert!(classify("ROBLOXPLAYERBETA.EXE"));
    assert!(classify("RBXClient"));
    assert!(!classify("Roblox_UPDATE.exe"));
}

#[test]
fn classify_needs_a_target_word() {
    assert!(!classify("notepad.exe"));
    assert!(!classify(""));
    assert!(!classify("rob_lox.exe"));
}

#[test]
fn classify_knows_every_excluded_word() {
    for word in [
        "booster",
        "uninstall",
        "installer",
        "setup",
        "update",
        "crashhandler",
        "crashreporter",
        "bootstrap",
    ] {
        assert!(!classify(&format!("roblox{word}.exe")), "{word}");
        assert!(!classify(&format!("{word}_rbx")), "{word}");
    }
    assert!(classify("roblox.exe"));
    assert!(classify("rbx"));
}

#[test]
fn classify_lowercase_does_not_fold_case() {
    assert!(classify_lowercase("robloxplayerbeta.exe"));
    assert!(!classify_lowercase("RobloxPlayerBeta.exe"));
    assert!(classify_lowercase("roblox_SETUP"));
}

#[test]
fn path_under_the_whitelist_is_safe() {
    let candidate = process(
        1,
        "RobloxPlayerBeta.exe",
        Some(r"C:\Users\X\AppData\Local\Roblox\Versions\version-1\RobloxPlayerBeta.exe"),
        10,
    );
    assert!(is_safe_path(&candidate, &whitelist()));
}

#[test]
fn path_that_only_contains_the_whitelist_is_rejected() {
    let candidate = process(1, "RobloxPlayerBeta.exe", Some(r"C:\Evil\FakeRoblox\Versions\x.exe"), 10);
    assert!(!is_safe_path(&candidate, &whitelist()));
    let inside = process(
        1,
        "RobloxPlayerBeta.exe",
        Some(r"D:\Mirror\C:\Users\X\AppData\Local\Roblox\Versions\x.exe"),
        10,
    );
    assert!(!is_safe_path(&inside, &whitelist()));
}

#[test]
fn a_directory_beside_the_whitelist_is_rejected() {
    let allowed = vec![String::from(r"C:\R\Versions")];
    let sibling = process(1, "RobloxPlayerBeta.exe", Some(r"C:\R\VersionsEvil\x.exe"), 10);
    assert!(!is_safe_path(&sibling, &allowed));
    assert_eq!(
        evaluate(Some(&sibling), &allowed),
        SafetyVerdict::Rejected(RejectionReason::PathNotWhitelisted)
    );
    assert_eq!(
        is_safe_to_optimize(&vec![sibling], 1, &allowed),
        Err(BoosterError::PathValidationFailed {
            pid: 1,
            reason: String::from("Process 1 not in validated Roblox directories"),
        })
    );
    let inside = process(1, "RobloxPlayerBeta.exe", Some(r"C:\R\Versions\x.exe"), 10);
    assert!(is_safe_path(&inside, &allowed));
    let longer_name = process(1, "RobloxPlayerBeta.exe", Some(r"C:\R\Versions2"), 10);
    assert!(!is_safe_path(&longer_name, &allowed));
}

#[test]
fn a_whitelist_entry_may_end_with_a_separator() {
    let allowed = vec![String::from("C:\\R\\Versions\\")];
    let inside = process(1, "RobloxPlayerBeta.exe", Some(r"C:\R\Versions\v1\x.exe"), 10);
    assert!(is_safe_path(&inside, &allowed));
    let direct = process(1, "RobloxPlayerBeta.exe", Some(r"C:\R\Versions\x.exe"), 10);
    assert!(is_safe_path(&direct, &allowed));
    let sibling = process(1, "RobloxPlayerBeta.exe", Some(r"C:\R\VersionsEvil\x.exe"), 10);
    assert!(!is_safe_path(&sibling, &allowed));
}

#[test]
fn below_means_whole_components() {
    let below = |path: &str, entry: &str| is_below(&chars_of(path), &chars_of(entry));
    assert!(below(r"C:\R\Versions", r"C:\R\Versions"));
    assert!(below(r"C:\R\Versions\", r"C:\R\Versions"));
    assert!(below(r"C:\R\Versions\a\b.exe", r"C:\R\Versions"));
    assert!(below("C:/R/Versions/a.exe", "C:/R/Versions"));
    assert!(below("C:/R/Versions/a.exe", "C:/R/Versions/"));
    assert!(below(r"C:\R\Versions/a.exe", r"C:\R\Versions"));
    assert!(!below(r"C:\R\VersionsEvil\a.exe", r"C:\R\Versions"));
    assert!(!below(r"C:\R\Versions.old", r"C:\R\Versions"));
    assert!(!below(r"C:\R\Version", r"C:\R\Versions"));
    assert!(!below(r"C:\R", r"C:\R\Versions"));
    assert!(!below(r"D:\R\Versions\a.exe", r"C:\R\Versions"));
    assert!(!below(r"C:\r\versions\a.exe", r"C:\R\Versions"));
    assert!(below("", ""));
    assert!(below(r"\a", ""));
    assert!(!below("a", ""));
}

#[test]
fn unknown_path_is_rejected() {
    let candidate = process(1, "RobloxPlayerBeta.exe", None, 10);
    assert!(!is_safe_path(&candidate, &whitelist()));
}

#[test]
fn empty_whitelist_allows_nothing() {
    let candidate = process(1, "RobloxPlayerBeta.exe", Some(r"C:\Roblox\x.exe"), 10);
    assert!(!is_safe_path(&candidate, &Vec::new()));
}

#[test]
fn any_member_of_the_whitelist_will_do() {
    let allowed = vec![String::from(r"C:\A"), String::from(r"D:\B")];
    assert!(is_safe_path(&process(1, "roblox", Some(r"D:\B\roblox.exe"), 10), &allowed));
    assert!(is_safe_path(&process(1, "roblox", Some(r"C:\A"), 10), &allowed));
    assert!(!is_safe_path(&process(1, "roblox", Some(r"C:\"), 10), &allowed));
}

#[test]
fn evaluate_reports_a_process_that_is_gone() {
    assert_eq!(
        evaluate(None, &whitelist()),
        SafetyVerdict::Rejected(RejectionReason::ProcessGone)
    );
}

#[test]
fn evaluate_checks_in_order() {
    let allowed = whitelist();
    let good_path = r"C:\Users\X\AppData\Local\Roblox\Versions\v\RobloxPlayerBeta.exe";
    let young = process(1, "notepad.exe", Some(r"C:\Windows\notepad.exe"), 2);
    assert_eq!(
        evaluate(Some(&young), &allowed),
        SafetyVerdict::Rejected(RejectionReason::TooNew)
    );
    let other = process(1, "notepad.exe", Some(r"C:\Windows\notepad.exe"), 3);
    assert_eq!(
        evaluate(Some(&other), &allowed),
        SafetyVerdict::Rejected(RejectionReason::NameRejected)
    );
    let outside = process(1, "RobloxPlayerBeta.exe", Some(r"C:\Evil\FakeRoblox\Versions\x.exe"), 3);
    assert_eq!(
        evaluate(Some(&outside), &allowed),
        SafetyVerdict::Rejected(RejectionReason::PathNotWhitelisted)
    );
    let good = process(1, "RobloxPlayerBeta.exe", Some(good_path), 3);
    assert_eq!(evaluate(Some(&good), &allowed), SafetyVerdict::Eligible);
}

#[test]
fn a_process_is_cloned_as_it_is() {
    let with_path = process(3, "rbx", Some(r"C:\A\rbx.exe"), 17);
    assert_eq!(with_path.clone(), with_path);
    let without = process(4, "", None, 0);
    assert_eq!(without.clone(), without);
}

#[test]
fn minimum_lifetime_is_three_seconds() {
    assert_eq!(MIN_PROCESS_LIFETIME_SECONDS, 3);
}

#[test]
fn find_process_takes_the_first_match() {
    let snapshot = vec![
        process(7, "a", None, 1),
        process(9, "first", None, 2),
        process(9, "second", None, 3),
    ];
    assert_eq!(find_process(&snapshot, 9).map(|p| p.name.as_str()), Some("first"));
    assert_eq!(find_process(&snapshot, 7).map(|p| p.name.as_str()), Some("a"));
    assert!(find_process(&snapshot, 8).is_none());
    assert!(find_process(&Vec::new(), 8).is_none());
}

#[test]
fn rejections_become_errors_with_their_words() {
    let young = process(12, "RobloxPlayerBeta.exe", None, 1);
    assert_eq!(
        reject(12, None, RejectionReason::ProcessGone),
        BoosterError::SafetyCheckFailed {
            pid: 12,
            reason: String::from("Process 12 no longer exists"),
        }
    );
    assert_eq!(
        reject(12, Some(&young), RejectionReason::TooNew),
        BoosterError::SafetyCheckFailed {
            pid: 12,
            reason: String::from("Process 12 too new (1s < 3s)"),
        }
    );
    assert_eq!(
        reject(12, Some(&young), RejectionReason::NameRejected),
        BoosterError::SafetyCheckFailed {
            pid: 12,
            reason: String::from("Process name 'RobloxPlayerBeta.exe' failed validation"),
        }
    );
    assert_eq!(
        reject(12, Some(&young), RejectionReason::PathNotWhitelisted),
        BoosterError::PathValidationFailed {
            pid: 12,
            reason: String::from("Process 12 not in validated Roblox directories"),
        }
    );
}

#[test]
fn safety_check_of_a_pid() {
    let allowed = whitelist();
    let snapshot = vec![
        process(
            5,
            "RobloxPlayerBeta.exe",
            Some(r"C:\Users\X\AppData\Local\Roblox\Versions\v\RobloxPlayerBeta.exe"),
            10,
        ),
        process(6, "RobloxPlayerBeta.exe", Some(r"C:\Evil\x.exe"), 10),
    ];
    assert_eq!(is_safe_to_optimize(&snapshot, 5, &allowed), Ok(()));
    assert_eq!(
        is_safe_to_optimize(&snapshot, 6, &allowed),
        Err(BoosterError::PathValidationFailed {
            pid: 6,
            reason: String::from("Process 6 not in validated Roblox directories"),
        })
    );
    assert_eq!(
        is_safe_to_optimize(&snapshot, 99, &allowed),
        Err(BoosterError::SafetyCheckFailed {
            pid: 99,
            reason: String::from("Process 99 no longer exists"),
        })
    );
}
