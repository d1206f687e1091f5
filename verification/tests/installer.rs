use bluelady_tools::installer::{
    Directive, InstallError, InstallStage, Installer, Item, Operation, Package, MANAGER_SCRIPT,
};
use bluelady_tools::process::ProcessReport;
use bluelady_tools::progress::{Progress, ProgressError};

fn packages() -> (Package, Package) {
    (
        Package { name: "ffmpeg".to_string(), check_flag: "-version".to_string() },
        Package { name: "yt-dlp".to_string(), check_flag: "--version".to_string() },
    )
}

fn started() -> ProcessReport {
    // The exit status plays no part: a program that started is present.
    ProcessReport::Exited { success: false, stdout: String::new(), stderr: String::new() }
}

fn not_started(cause: &str) -> ProcessReport {
    ProcessReport::SpawnFailed { cause: cause.to_string() }
}

fn probe(program: &str, arg: &str) -> Operation {
    Operation::Probe { program: program.to_string(), arg: arg.to_string() }
}

fn step(step: &str, percentage: u32, eta: &str) -> Progress {
    Progress { step: step.to_string(), percentage, eta: eta.to_string(), error: None }
}

fn failure(step: &str, error: &str) -> Progress {
    Progress {
        step: step.to_string(),
        percentage: 0,
        eta: "0s".to_string(),
        error: Some(ProgressError { step: step.to_string(), error: error.to_string() }),
    }
}

fn begin() -> Installer {
    let (first, second) = packages();
    Installer::start(first, second).0
}

#[test]
fn a_run_begins_with_the_probe_of_the_package_manager() {
    let (first, second) = packages();
    let (installer, directive) = Installer::start(first, second);
    assert_eq!(directive, Directive { events: vec![], operation: probe("choco", "--version") });
    assert_eq!(installer.stage(), InstallStage::Probe);
    assert_eq!(installer.item(), Item::Manager);
}

#[test]
fn nothing_is_installed_when_everything_is_present() {
    // Twice in a row: a run keeps nothing, so the second is as the first.
    for _ in 0..2 {
        let mut installer = begin();
        assert_eq!(
            installer.advance(&started()),
            Directive {
                events: vec![step("Chocolatey is already installed", 0, "2min")],
                operation: probe("ffmpeg", "-version"),
            }
        );
        assert_eq!(
            installer.advance(&started()),
            Directive {
                events: vec![step("ffmpeg is already installed", 3333, "1min 12s")],
                operation: probe("yt-dlp", "--version"),
            }
        );
        assert_eq!(
            installer.advance(&started()),
            Directive {
                events: vec![step("yt-dlp is already installed", 6666, "30s")],
                operation: Operation::Succeed,
            }
        );
        assert_eq!(installer.stage(), InstallStage::Done);
        assert_eq!(
            installer.advance(&started()),
            Directive { events: vec![], operation: Operation::Stop }
        );
    }
}

#[test]
fn everything_is_installed_when_nothing_is_present() {
    let mut installer = begin();
    let mut percentages = Vec::new();
    let mut operations = Vec::new();
    let reports = [
        not_started("no choco"),
        started(),
        started(),
        started(),
        not_started("no ffmpeg"),
        started(),
        started(),
        started(),
        not_started("no yt-dlp"),
        started(),
        started(),
        started(),
    ];
    for report in &reports {
        let directive = installer.advance(report);
        percentages.extend(directive.events.iter().map(|e| e.percentage));
        operations.push(directive.operation);
    }
    assert_eq!(percentages, vec![0, 3333, 3333, 6666, 6666, 9999]);
    assert_eq!(
        operations,
        vec![
            Operation::Launch { command: MANAGER_SCRIPT.to_string() },
            Operation::Wait { seconds: 60 },
            probe("choco", "--version"),
            probe("ffmpeg", "-version"),
            Operation::Launch {
                command: "Start-Process powershell -Verb RunAs -ArgumentList \"-Command choco install ffmpeg -y\""
                    .to_string(),
            },
            Operation::Wait { seconds: 60 },
            probe("ffmpeg", "-version"),
            probe("yt-dlp", "--version"),
            Operation::Launch {
                command: "Start-Process powershell -Verb RunAs -ArgumentList \"-Command choco install yt-dlp -y\""
                    .to_string(),
            },
            Operation::Wait { seconds: 60 },
            probe("yt-dlp", "--version"),
            Operation::Succeed,
        ]
    );
}

#[test]
fn the_events_of_an_installation() {
    let mut installer = begin();
    assert_eq!(
        installer.advance(&not_started("x")).events,
        vec![step("Installing Chocolatey", 0, "2min")]
    );
    assert_eq!(installer.advance(&started()).events, vec![]);
    assert_eq!(installer.stage(), InstallStage::Wait);
    assert_eq!(installer.advance(&started()).events, vec![]);
    assert_eq!(installer.stage(), InstallStage::Reprobe);
    assert_eq!(
        installer.advance(&started()).events,
        vec![step("Chocolatey installed", 3333, "1min 12s")]
    );
    assert_eq!(installer.item(), Item::First);
    assert_eq!(
        installer.advance(&not_started("x")).events,
        vec![step("Installing ffmpeg", 3333, "1min 12s")]
    );
    installer.advance(&started());
    installer.advance(&started());
    assert_eq!(
        installer.advance(&started()).events,
        vec![step("ffmpeg installed", 6666, "30s")]
    );
    assert_eq!(
        installer.advance(&not_started("x")).events,
        vec![step("Installing yt-dlp", 6666, "30s")]
    );
    installer.advance(&started());
    installer.advance(&started());
    assert_eq!(
        installer.advance(&started()),
        Directive {
            events: vec![step("yt-dlp installed", 9999, "30s")],
            operation: Operation::Succeed,
        }
    );
}

#[test]
fn a_launch_that_does_not_start_ends_the_run() {
    let mut installer = begin();
    installer.advance(&not_started("no choco"));
    assert_eq!(
        installer.advance(&not_started("access denied")),
        Directive {
            events: vec![failure(
                "Chocolatey installation",
                "Failed to execute installation process"
            )],
            operation: Operation::Fail {
                error: InstallError {
                    step: "Chocolatey installation".to_string(),
                    message: "Failed to execute installation process: access denied".to_string(),
                },
            },
        }
    );
    assert_eq!(installer.stage(), InstallStage::Failed);
    // The remaining stages are not taken up.
    assert_eq!(
        installer.advance(&started()),
        Directive { events: vec![], operation: Operation::Stop }
    );
}

#[test]
fn a_package_whose_launch_does_not_start_is_named_in_the_error() {
    let mut installer = begin();
    installer.advance(&started());
    assert_eq!(
        installer.advance(&not_started("no ffmpeg")).events,
        vec![step("Installing ffmpeg", 3333, "1min 12s")]
    );
    assert_eq!(
        installer.advance(&not_started("access denied")),
        Directive {
            events: vec![failure(
                "ffmpeg installation",
                "Failed to execute installation process"
            )],
            operation: Operation::Fail {
                error: InstallError {
                    step: "ffmpeg installation".to_string(),
                    message:
                        "Failed to install ffmpeg: Failed to execute installation process: access denied"
                            .to_string(),
                },
            },
        }
    );
    assert_eq!(installer.stage(), InstallStage::Failed);
    assert_eq!(
        installer.advance(&started()),
        Directive { events: vec![], operation: Operation::Stop }
    );

    // The second package, with the first in place.
    let mut installer = begin();
    installer.advance(&started());
    installer.advance(&started());
    installer.advance(&not_started("no yt-dlp"));
    match installer.advance(&not_started("denied")).operation {
        Operation::Fail { error } => assert_eq!(
            error.message,
            "Failed to install yt-dlp: Failed to execute installation process: denied"
        ),
        other => panic!("unexpected operation {other:?}"),
    }
}

#[test]
fn a_package_that_is_still_missing_after_the_wait_ends_the_run() {
    let mut installer = begin();
    installer.advance(&started());
    installer.advance(&not_started("no ffmpeg"));
    installer.advance(&started());
    installer.advance(&started());
    assert_eq!(
        installer.advance(&not_started("still missing")),
        Directive {
            events: vec![failure("ffmpeg installation", "Failed to install ffmpeg")],
            operation: Operation::Fail {
                error: InstallError {
                    step: "ffmpeg installation".to_string(),
                    message: "Failed to install ffmpeg: still missing".to_string(),
                },
            },
        }
    );
    assert_eq!(installer.stage(), InstallStage::Failed);
    assert_eq!(installer.item(), Item::First);
}

#[test]
fn percentages_never_fall_during_a_run() {
    // Every way of answering the first probes: present or missing.
    for mask in 0..8u32 {
        let mut installer = begin();
        let mut seen = Vec::new();
        for item in 0..3 {
            if mask & (1 << item) != 0 {
                seen.extend(installer.advance(&started()).events);
            } else {
                seen.extend(installer.advance(&not_started("missing")).events);
                seen.extend(installer.advance(&started()).events);
                seen.extend(installer.advance(&started()).events);
                seen.extend(installer.advance(&started()).events);
            }
        }
        assert_eq!(installer.stage(), InstallStage::Done);
        let percentages: Vec<u32> = seen.iter().map(|e| e.percentage).collect();
        assert!(percentages.windows(2).all(|w| w[0] <= w[1]), "{percentages:?}");
        assert!(percentages.iter().all(|p| *p <= 10000));
    }
}
