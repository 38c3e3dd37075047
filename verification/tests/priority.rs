use roblox_booster::error::BoosterError;
use roblox_booster::priority::{
    decide, AccessRights, ControllerStep, OsCommand, OsResponse, PriorityChange, PriorityClass,
    PriorityController, PriorityGoal, PriorityLevel, PriorityOutcome,
};

const CLASSES: [PriorityClass; 6] = [
    PriorityClass::Idle,
    PriorityClass::BelowNormal,
    PriorityClass::Normal,
    PriorityClass::AboveNormal,
    PriorityClass::High,
    PriorityClass::Realtime,
];

/// Runs a session against the given answers and returns the commands that
/// were issued and the outcome.
fn session(pid: u32, goal: PriorityGoal, answers: Vec<OsResponse>) -> (Vec<OsCommand>, PriorityOutcome) {
    let (mut controller, first) = PriorityController::begin(pid, goal);
    let mut commands = vec![first];
    for answer in answers {
        assert_eq!(controller.pending(), *commands.last().unwrap());
        assert_eq!(controller.pid(), pid);
        match controller.step(answer) {
            ControllerStep::Continue(next, command) => {
                controller = next;
                commands.push(command);
            }
            ControllerStep::Finished(outcome) => return (commands, outcome),
        }
    }
    panic!("the session did not end");
}

fn open(pid: u32) -> OsCommand {
    OsCommand::OpenProcess {
        pid,
        rights: AccessRights {
            query_information: true,
            set_information: true,
        },
    }
}

#[test]
fn class_codes_are_those_of_the_system() {
    assert_eq!(PriorityClass::Idle.to_code(), 0x40);
    assert_eq!(PriorityClass::BelowNormal.to_code(), 0x4000);
    assert_eq!(PriorityClass::Normal.to_code(), 0x20);
    assert_eq!(PriorityClass::AboveNormal.to_code(), 0x8000);
    assert_eq!(PriorityClass::High.to_code(), 0x80);
    assert_eq!(PriorityClass::Realtime.to_code(), 0x100);
}

#[test]
fn classes_are_found_again_from_their_codes() {
    for class in CLASSES {
        assert_eq!(PriorityClass::from_code(class.to_code()), Some(class));
    }
    assert_eq!(PriorityClass::from_code(0), None);
    assert_eq!(PriorityClass::from_code(1), None);
    assert_eq!(PriorityClass::from_code(0x8001), None);
    assert_eq!(PriorityClass::from_code(u32::MAX), None);
}

#[test]
fn classes_ascend() {
    for (low, class) in CLASSES.iter().enumerate() {
        for (high, other) in CLASSES.iter().enumerate() {
            assert_eq!(other.at_least(*class), high >= low);
        }
    }
}

#[test]
fn levels_stand_for_their_classes() {
    assert_eq!(PriorityLevel::Normal.to_class(), PriorityClass::Normal);
    assert_eq!(PriorityLevel::AboveNormal.to_class(), PriorityClass::AboveNormal);
    assert_eq!(PriorityLevel::High.to_class(), PriorityClass::High);
}

#[test]
fn gpu_friendly_classes_are_above_normal_and_high() {
    for class in CLASSES {
        assert_eq!(
            class.is_gpu_friendly(),
            class == PriorityClass::AboveNormal || class == PriorityClass::High
        );
    }
}

#[test]
fn boost_sets_only_below_the_target() {
    let goal = PriorityGoal::Boost(PriorityLevel::AboveNormal);
    assert_eq!(decide(goal, Some(PriorityClass::Idle)), Some(PriorityClass::AboveNormal));
    assert_eq!(decide(goal, Some(PriorityClass::BelowNormal)), Some(PriorityClass::AboveNormal));
    assert_eq!(decide(goal, Some(PriorityClass::Normal)), Some(PriorityClass::AboveNormal));
    assert_eq!(decide(goal, Some(PriorityClass::AboveNormal)), None);
    assert_eq!(decide(goal, Some(PriorityClass::High)), None);
    assert_eq!(decide(goal, Some(PriorityClass::Realtime)), None);
    assert_eq!(decide(goal, None), Some(PriorityClass::AboveNormal));
    assert_eq!(
        decide(PriorityGoal::Boost(PriorityLevel::Normal), Some(PriorityClass::Normal)),
        None
    );
    assert_eq!(
        decide(PriorityGoal::Boost(PriorityLevel::High), Some(PriorityClass::AboveNormal)),
        Some(PriorityClass::High)
    );
}

#[test]
fn restore_sets_only_what_is_elevated() {
    let goal = PriorityGoal::Restore;
    assert_eq!(decide(goal, Some(PriorityClass::Idle)), None);
    assert_eq!(decide(goal, Some(PriorityClass::BelowNormal)), None);
    assert_eq!(decide(goal, Some(PriorityClass::Normal)), None);
    assert_eq!(decide(goal, Some(PriorityClass::AboveNormal)), Some(PriorityClass::Normal));
    assert_eq!(decide(goal, Some(PriorityClass::High)), Some(PriorityClass::Normal));
    assert_eq!(decide(goal, Some(PriorityClass::Realtime)), Some(PriorityClass::Normal));
    assert_eq!(decide(goal, None), None);
}

#[test]
fn boost_opens_reads_sets_and_closes() {
    let (commands, outcome) = session(
        7,
        PriorityGoal::Boost(PriorityLevel::High),
        vec![
            OsResponse::Opened,
            OsResponse::Priority { code: 0x20 },
            OsResponse::PrioritySet,
            OsResponse::Closed,
        ],
    );
    assert_eq!(
        commands,
        vec![
            open(7),
            OsCommand::QueryPriority { pid: 7 },
            OsCommand::SetPriority {
                pid: 7,
                class: PriorityClass::High
            },
            OsCommand::CloseHandle { pid: 7 },
        ]
    );
    assert_eq!(
        outcome,
        Ok(PriorityChange {
            class: Some(PriorityClass::High),
            mutated: true
        })
    );
}

#[test]
fn boost_of_a_boosted_process_changes_nothing() {
    for current in [PriorityClass::High, PriorityClass::Realtime] {
        let (commands, outcome) = session(
            7,
            PriorityGoal::Boost(PriorityLevel::High),
            vec![
                OsResponse::Opened,
                OsResponse::Priority {
                    code: current.to_code(),
                },
                OsResponse::Closed,
            ],
        );
        assert_eq!(
            commands,
            vec![
                open(7),
                OsCommand::QueryPriority { pid: 7 },
                OsCommand::CloseHandle { pid: 7 },
            ]
        );
        assert_eq!(
            outcome,
            Ok(PriorityChange {
                class: Some(current),
                mutated: false
            })
        );
    }
}

#[test]
fn a_handle_that_cannot_be_acquired_ends_the_session() {
    let (commands, outcome) = session(
        7,
        PriorityGoal::Boost(PriorityLevel::High),
        vec![OsResponse::OpenFailed {
            reason: String::from("Access is denied."),
        }],
    );
    assert_eq!(commands, vec![open(7)]);
    assert_eq!(
        outcome,
        Err(BoosterError::ProcessOpenFailed {
            pid: 7,
            reason: String::from("Access is denied.")
        })
    );
}

#[test]
fn a_failed_set_still_gives_the_handle_back() {
    let (commands, outcome) = session(
        7,
        PriorityGoal::Boost(PriorityLevel::AboveNormal),
        vec![
            OsResponse::Opened,
            OsResponse::Priority { code: 0x40 },
            OsResponse::SetFailed {
                reason: String::from("The parameter is incorrect."),
            },
            OsResponse::Closed,
        ],
    );
    assert_eq!(
        commands,
        vec![
            open(7),
            OsCommand::QueryPriority { pid: 7 },
            OsCommand::SetPriority {
                pid: 7,
                class: PriorityClass::AboveNormal
            },
            OsCommand::CloseHandle { pid: 7 },
        ]
    );
    assert_eq!(
        outcome,
        Err(BoosterError::PrioritySetFailed {
            pid: 7,
            reason: String::from("The parameter is incorrect.")
        })
    );
}

#[test]
fn restore_brings_an_elevated_process_back_to_normal() {
    let (commands, outcome) = session(
        9,
        PriorityGoal::Restore,
        vec![
            OsResponse::Opened,
            OsResponse::Priority { code: 0x8000 },
            OsResponse::PrioritySet,
            OsResponse::Closed,
        ],
    );
    assert_eq!(
        commands[2],
        OsCommand::SetPriority {
            pid: 9,
            class: PriorityClass::Normal
        }
    );
    assert_eq!(
        outcome,
        Ok(PriorityChange {
            class: Some(PriorityClass::Normal),
            mutated: true
        })
    );
}

#[test]
fn restore_of_a_process_that_is_not_elevated_changes_nothing() {
    for code in [0x20, 0x40, 0x4000, 0, 12345] {
        let (commands, outcome) = session(
            9,
            PriorityGoal::Restore,
            vec![
                OsResponse::Opened,
                OsResponse::Priority { code },
                OsResponse::Closed,
            ],
        );
        assert_eq!(
            commands,
            vec![
                open(9),
                OsCommand::QueryPriority { pid: 9 },
                OsCommand::CloseHandle { pid: 9 },
            ]
        );
        assert_eq!(
            outcome,
            Ok(PriorityChange {
                class: PriorityClass::from_code(code),
                mutated: false
            })
        );
    }
}

#[test]
fn a_class_that_cannot_be_read_is_boosted() {
    let (commands, outcome) = session(
        3,
        PriorityGoal::Boost(PriorityLevel::Normal),
        vec![
            OsResponse::Opened,
            OsResponse::Priority { code: 0 },
            OsResponse::PrioritySet,
            OsResponse::Closed,
        ],
    );
    assert_eq!(
        commands[2],
        OsCommand::SetPriority {
            pid: 3,
            class: PriorityClass::Normal
        }
    );
    assert_eq!(
        outcome,
        Ok(PriorityChange {
            class: Some(PriorityClass::Normal),
            mutated: true
        })
    );
}

#[test]
fn an_answer_to_another_command_is_passed_over() {
    let (controller, first) = PriorityController::begin(4, PriorityGoal::Restore);
    let controller = match controller.step(OsResponse::Closed) {
        ControllerStep::Continue(next, command) => {
            assert_eq!(command, first);
            next
        }
        other => panic!("{other:?}"),
    };
    let controller = match controller.step(OsResponse::Opened) {
        ControllerStep::Continue(next, command) => {
            assert_eq!(command, OsCommand::QueryPriority { pid: 4 });
            next
        }
        other => panic!("{other:?}"),
    };
    let controller = match controller.step(OsResponse::OpenFailed {
        reason: String::from("late"),
    }) {
        ControllerStep::Continue(next, command) => {
            assert_eq!(command, OsCommand::QueryPriority { pid: 4 });
            next
        }
        other => panic!("{other:?}"),
    };
    let controller = match controller.step(OsResponse::Priority { code: 0x80 }) {
        ControllerStep::Continue(next, command) => {
            assert_eq!(
                command,
                OsCommand::SetPriority {
                    pid: 4,
                    class: PriorityClass::Normal
                }
            );
            next
        }
        other => panic!("{other:?}"),
    };
    let controller = match controller.step(OsResponse::Closed) {
        ControllerStep::Continue(next, command) => {
            assert!(matches!(command, OsCommand::SetPriority { .. }));
            next
        }
        other => panic!("{other:?}"),
    };
    let controller = match controller.step(OsResponse::PrioritySet) {
        ControllerStep::Continue(next, command) => {
            assert_eq!(command, OsCommand::CloseHandle { pid: 4 });
            next
        }
        other => panic!("{other:?}"),
    };
    let controller = match controller.step(OsResponse::PrioritySet) {
        ControllerStep::Continue(next, command) => {
            assert_eq!(command, OsCommand::CloseHandle { pid: 4 });
            next
        }
        other => panic!("{other:?}"),
    };
    match controller.step(OsResponse::Closed) {
        ControllerStep::Finished(outcome) => assert_eq!(
            outcome,
            Ok(PriorityChange {
                class: Some(PriorityClass::Normal),
                mutated: true
            })
        ),
        other => panic!("{other:?}"),
    }
}
