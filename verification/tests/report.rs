use roblox_booster::config::Config;
use roblox_booster::error::BoosterError;
use roblox_booster::priority::{PriorityChange, PriorityClass, PriorityLevel};
use roblox_booster::report::{
    auto_detect_report, collect_lines, count_succeeded, disable_report, enable_report,
    enable_statistics, limit_report, line_of, ItemResult, LineKind, OptimizationStats, Record,
    Summary, VERSION, WARNINGS_HEADING,
};
use roblox_booster::text::{chars_of, contains, push_decimal, push_joined, starts_with};

fn record(pid: u32, name: &str, result: ItemResult) -> Record {
    Record {
        pid,
        name: String::from(name),
        result,
    }
}

fn left_at(class: PriorityClass) -> ItemResult {
    ItemResult::Succeeded(PriorityChange {
        class: Some(class),
        mutated: true,
    })
}

fn denied(pid: u32) -> BoosterError {
    BoosterError::ProcessOpenFailed {
        pid,
        reason: String::from("Access is denied."),
    }
}

fn decimal(n: u64) -> String {
    let mut out = String::from("n=");
    push_decimal(&mut out, n);
    out
}

#[test]
fn decimal_notation() {
    assert_eq!(decimal(0), "n=0");
    assert_eq!(decimal(7), "n=7");
    assert_eq!(decimal(10), "n=10");
    assert_eq!(decimal(4242), "n=4242");
    assert_eq!(decimal(1_000_000), "n=1000000");
    assert_eq!(decimal(u64::MAX), "n=18446744073709551615");
}

#[test]
fn lines_are_joined_with_the_separator_between_them() {
    let mut out = String::from(">");
    push_joined(&mut out, &Vec::new(), ", ");
    assert_eq!(out, ">");
    push_joined(&mut out, &vec![String::from("a")], ", ");
    assert_eq!(out, ">a");
    push_joined(
        &mut out,
        &vec![String::from("b"), String::new(), String::from("c")],
        ", ",
    );
    assert_eq!(out, ">ab, , c");
}

#[test]
fn substring_and_prefix_on_characters() {
    let hay = chars_of("r\u{f6}blox-roblox");
    assert_eq!(hay.len(), 13);
    assert!(contains(&hay, &chars_of("roblox")));
    assert!(contains(&hay, &chars_of("")));
    assert!(contains(&hay, &chars_of("r\u{f6}blox-roblox")));
    assert!(!contains(&hay, &chars_of("r\u{f6}blox-roblox!")));
    assert!(!contains(&hay, &chars_of("robloxx")));
    assert!(!contains(&chars_of(""), &chars_of("a")));
    assert!(contains(&chars_of(""), &chars_of("")));
    assert!(starts_with(&hay, &chars_of("r\u{f6}b")));
    assert!(starts_with(&hay, &chars_of("")));
    assert!(!starts_with(&hay, &chars_of("roblox")));
    assert!(!starts_with(&chars_of("ab"), &chars_of("abc")));
    assert!(starts_with(&chars_of("abc"), &chars_of("abc")));
}

#[test]
fn every_error_has_its_message() {
    assert_eq!(
        denied(12).message(),
        "Failed to open process 12: Access is denied."
    );
    assert_eq!(
        BoosterError::PrioritySetFailed {
            pid: 12,
            reason: String::from("no")
        }
        .message(),
        "Failed to set process priority for PID 12: no"
    );
    assert_eq!(
        BoosterError::SafetyCheckFailed {
            pid: 12,
            reason: String::from("Process 12 no longer exists")
        }
        .message(),
        "Safety check failed: Process 12 no longer exists"
    );
    assert_eq!(
        BoosterError::PathValidationFailed {
            pid: 12,
            reason: String::from("Process 12 not in validated Roblox directories")
        }
        .message(),
        "Process path validation failed: Process 12 not in validated Roblox directories"
    );
    assert_eq!(BoosterError::NoProcessesFound.message(), "No Roblox processes found");
    assert_eq!(
        BoosterError::TooManyProcesses { found: 6, max: 5 }.message(),
        "Safety check failed: Too many Roblox processes (6 > 5)"
    );
}

#[test]
fn an_error_is_cloned_as_it_is() {
    for error in [
        denied(1),
        BoosterError::PrioritySetFailed {
            pid: 2,
            reason: String::from("x"),
        },
        BoosterError::SafetyCheckFailed {
            pid: 3,
            reason: String::from("y"),
        },
        BoosterError::PathValidationFailed {
            pid: 4,
            reason: String::from("z"),
        },
        BoosterError::NoProcessesFound,
        BoosterError::TooManyProcesses { found: 9, max: 5 },
    ] {
        assert_eq!(error.clone(), error);
    }
}

#[test]
fn a_summary_leaves_out_its_empty_parts() {
    let mut summary = Summary {
        headline: String::from("head"),
        successes: Vec::new(),
        warnings: Vec::new(),
    };
    assert_eq!(summary.message(), "head");
    summary.successes = vec![String::from("one"), String::from("two")];
    assert_eq!(summary.message(), "head\n\none\ntwo");
    summary.warnings = vec![String::from("w")];
    assert_eq!(
        summary.message(),
        "head\n\none\ntwo\n\n\u{26a0}\u{fe0f} Warnings:\nw"
    );
    summary.successes.clear();
    assert_eq!(summary.message(), "head\n\n\u{26a0}\u{fe0f} Warnings:\nw");
    assert_eq!(WARNINGS_HEADING, "\u{26a0}\u{fe0f} Warnings:");
    assert_eq!(VERSION, "2.0.0");
}

#[test]
fn each_kind_of_line() {
    let boosted = record(8, "rbx", left_at(PriorityClass::High));
    let low = record(
        8,
        "rbx",
        ItemResult::Succeeded(PriorityChange {
            class: None,
            mutated: false,
        }),
    );
    let failed = record(8, "rbx", ItemResult::Failed(denied(8)));
    let skipped = record(8, "rbx", ItemResult::Skipped(BoosterError::NoProcessesFound));
    let held = record(8, "rbx", ItemResult::AlreadyTracked);

    assert_eq!(
        line_of(LineKind::CpuSuccess, &boosted).as_deref(),
        Some("\u{2713} CPU: rbx (PID: 8)")
    );
    assert_eq!(line_of(LineKind::CpuSuccess, &failed), None);
    assert_eq!(line_of(LineKind::CpuWarning, &boosted), None);
    assert_eq!(line_of(LineKind::CpuWarning, &held), None);
    assert_eq!(
        line_of(LineKind::CpuWarning, &failed).as_deref(),
        Some("\u{2717} CPU Failed rbx: Failed to open process 8: Access is denied.")
    );
    assert_eq!(
        line_of(LineKind::CpuWarning, &skipped).as_deref(),
        Some("\u{26a0}\u{fe0f} Skipped rbx: No Roblox processes found")
    );
    assert_eq!(
        line_of(LineKind::GpuSuccess, &boosted).as_deref(),
        Some("\u{2713} GPU: rbx")
    );
    assert_eq!(line_of(LineKind::GpuSuccess, &low), None);
    assert_eq!(line_of(LineKind::GpuSuccess, &failed), None);
    assert_eq!(
        line_of(LineKind::GpuWarning, &low).as_deref(),
        Some("\u{26a0}\u{fe0f} GPU rbx: GPU optimization failed: CPU priority too low for GPU boost")
    );
    assert_eq!(line_of(LineKind::GpuWarning, &boosted), None);
    assert_eq!(line_of(LineKind::GpuWarning, &failed), None);
    assert_eq!(
        line_of(LineKind::RestoreWarning, &failed).as_deref(),
        Some("PID 8: Failed to open process 8: Access is denied.")
    );
    assert_eq!(line_of(LineKind::RestoreWarning, &skipped), None);
    assert_eq!(line_of(LineKind::RestoreWarning, &boosted), None);
    assert_eq!(line_of(LineKind::BoostedName, &boosted).as_deref(), Some("rbx"));
    assert_eq!(line_of(LineKind::BoostedName, &held), None);
}

#[test]
fn gpu_lines_follow_the_class() {
    for class in [
        PriorityClass::Idle,
        PriorityClass::BelowNormal,
        PriorityClass::Normal,
        PriorityClass::Realtime,
    ] {
        let entry = record(1, "rbx", left_at(class));
        assert_eq!(line_of(LineKind::GpuSuccess, &entry), None);
        assert!(line_of(LineKind::GpuWarning, &entry).is_some());
    }
    for class in [PriorityClass::AboveNormal, PriorityClass::High] {
        let entry = record(1, "rbx", left_at(class));
        assert!(line_of(LineKind::GpuSuccess, &entry).is_some());
        assert_eq!(line_of(LineKind::GpuWarning, &entry), None);
    }
}

#[test]
fn lines_are_collected_in_order_behind_what_is_there() {
    let records = vec![
        record(1, "a", left_at(PriorityClass::High)),
        record(2, "b", ItemResult::Failed(denied(2))),
        record(3, "c", left_at(PriorityClass::Normal)),
    ];
    let mut out = vec![String::from("first")];
    collect_lines(&mut out, LineKind::BoostedName, &records);
    assert_eq!(out, vec!["first", "a", "c"]);
    collect_lines(&mut out, LineKind::RestoreWarning, &Vec::new());
    assert_eq!(out.len(), 3);
    assert_eq!(count_succeeded(&records), 2);
    assert_eq!(count_succeeded(&Vec::new()), 0);
}

#[test]
fn report_of_a_boost() {
    let mut config = Config::default();
    config.priority_level = 2;
    let records = vec![
        record(1, "a", left_at(PriorityClass::High)),
        record(2, "b", ItemResult::Failed(denied(2))),
        record(3, "c", left_at(PriorityClass::Normal)),
    ];
    assert_eq!(
        enable_statistics(&config, &records),
        OptimizationStats {
            processes_boosted: 2,
            memory_cleared: true,
            priority_level: PriorityLevel::High,
            gpu_boosted: true,
        }
    );
    let summary = enable_report(&config, &records).unwrap();
    assert_eq!(
        summary.headline,
        "\u{1f680} Booster v2.0.0 enabled - 2 process(es) optimized"
    );
    assert_eq!(
        summary.successes,
        vec![
            "\u{2713} CPU: a (PID: 1)",
            "\u{2713} CPU: c (PID: 3)",
            "\u{2713} GPU: a",
            "\u{2713} Memory optimization enabled",
        ]
    );
    assert_eq!(
        summary.warnings,
        vec![
            "\u{2717} CPU Failed b: Failed to open process 2: Access is denied.",
            "\u{26a0}\u{fe0f} GPU c: GPU optimization failed: CPU priority too low for GPU boost",
        ]
    );
}

#[test]
fn report_of_a_boost_that_reached_nothing() {
    let config = Config::default();
    let records = vec![record(2, "b", ItemResult::Failed(denied(2)))];
    assert_eq!(enable_report(&config, &records), Err(BoosterError::NoProcessesFound));
    assert_eq!(enable_report(&config, &Vec::new()), Err(BoosterError::NoProcessesFound));
    assert_eq!(
        enable_statistics(&config, &records),
        OptimizationStats {
            processes_boosted: 0,
            memory_cleared: true,
            priority_level: PriorityLevel::AboveNormal,
            gpu_boosted: false,
        }
    );
}

#[test]
fn gpu_statistics_need_the_preference() {
    let mut config = Config::default();
    config.enable_gpu_boost = false;
    let records = vec![record(1, "a", left_at(PriorityClass::High))];
    assert!(!enable_statistics(&config, &records).gpu_boosted);
}

#[test]
fn report_of_a_restoration() {
    let records = vec![
        record(1, "", left_at(PriorityClass::Normal)),
        record(2, "", ItemResult::Failed(denied(2))),
    ];
    let summary = disable_report(&records);
    assert_eq!(
        summary.headline,
        "\u{1f53b} Booster v2.0.0 disabled - 1/2 processes restored"
    );
    assert!(summary.successes.is_empty());
    assert_eq!(
        summary.warnings,
        vec!["PID 2: Failed to open process 2: Access is denied."]
    );
}

#[test]
fn report_of_a_scan() {
    assert_eq!(auto_detect_report(&Vec::new()), None);
    let records = vec![
        record(2, "b", ItemResult::Failed(denied(2))),
        record(4, "d", ItemResult::AlreadyTracked),
    ];
    assert_eq!(auto_detect_report(&records), None);
    let records = vec![
        record(1, "a", left_at(PriorityClass::High)),
        record(2, "b", ItemResult::Failed(denied(2))),
        record(3, "c", left_at(PriorityClass::High)),
    ];
    let summary = auto_detect_report(&records).unwrap();
    assert_eq!(summary.message(), "\u{2713} Auto-boosted 2 process(es): a, c");
    assert!(summary.successes.is_empty() && summary.warnings.is_empty());
}

#[test]
fn notice_of_the_limit() {
    assert_eq!(
        limit_report(5, 5).message(),
        "\u{26a0}\u{fe0f} Max processes reached (5/5)"
    );
    assert_eq!(
        limit_report(12, 5).message(),
        "\u{26a0}\u{fe0f} Max processes reached (12/5)"
    );
}

#[test]
fn statistics_start_empty() {
    assert_eq!(
        OptimizationStats::default(),
        OptimizationStats {
            processes_boosted: 0,
            memory_cleared: false,
            priority_level: PriorityLevel::Normal,
            gpu_boosted: false,
        }
    );
}
