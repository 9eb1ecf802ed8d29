use std::cell::Cell;

use paper_cli::record::Recorded;
use paper_cli::upgrade::{
    after_skill_update, execute_upgrade, finish_upgrade, installer_command, powershell_path_literal,
    upgrade_report, CliUpdate, UpgradeStep, UpgradeSteps, INSTALL_SCRIPT_URL,
};

struct Recorder {
    updates: Vec<&'static str>,
    notes: Vec<String>,
    skill_result: Result<(), String>,
    cli_result: Result<CliUpdate, String>,
    attempts: Cell<usize>,
}

impl Recorder {
    fn new(skill_result: Result<(), String>, cli_result: Result<CliUpdate, String>) -> Self {
        Self {
            updates: Vec::new(),
            notes: Vec::new(),
            skill_result,
            cli_result,
            attempts: Cell::new(0),
        }
    }
}

impl UpgradeSteps for Recorder {
    fn announce(&mut self, message: &str) {
        self.notes.push(message.to_string());
    }

    fn update_skill(&mut self) -> Result<(), String> {
        self.attempts.set(self.attempts.get() + 1);
        self.updates.push("skill");
        self.skill_result.clone()
    }

    fn update_cli(&mut self) -> Result<CliUpdate, String> {
        self.attempts.set(self.attempts.get() + 1);
        self.updates.push("cli");
        self.cli_result.clone()
    }
}

impl UpgradeSteps for &mut Recorder {
    fn announce(&mut self, message: &str) {
        (**self).announce(message)
    }

    fn update_skill(&mut self) -> Result<(), String> {
        (**self).update_skill()
    }

    fn update_cli(&mut self) -> Result<CliUpdate, String> {
        (**self).update_cli()
    }
}

#[test]
fn upgrade_runs_skill_then_cli_and_reports_both() {
    let mut steps = Recorder::new(Ok(()), Ok(CliUpdate { scheduled: false }));
    let result = execute_upgrade(&mut Recorded::new(&mut steps), INSTALL_SCRIPT_URL).unwrap();

    assert_eq!(steps.updates, ["skill", "cli"]);
    assert_eq!(result["skill"]["updated"], true);
    assert_eq!(result["skill"]["scope"], "global");
    assert_eq!(result["cli"]["updated"], true);
    assert_eq!(result["cli"]["source"], INSTALL_SCRIPT_URL);
}

#[test]
fn upgrade_stops_when_a_step_fails() {
    let mut steps = Recorder::new(
        Err("update command failed".to_string()),
        Ok(CliUpdate { scheduled: false }),
    );
    let error = execute_upgrade(&mut Recorded::new(&mut steps), INSTALL_SCRIPT_URL).unwrap_err();

    assert_eq!(steps.attempts.get(), 1);
    assert!(error.message().contains("global use-paper-cli skill"));
}

#[test]
fn scheduled_cli_update_is_reported_without_claiming_completion() {
    let mut steps = Recorder::new(Ok(()), Ok(CliUpdate { scheduled: true }));
    let result = execute_upgrade(&mut Recorded::new(&mut steps), INSTALL_SCRIPT_URL).expect("upgrade succeeds");

    assert_eq!(result["skill"]["updated"], true);
    assert_eq!(result["cli"]["scheduled"], true);
    assert_eq!(result["cli"]["updated"], false);
}

#[test]
fn upgrade_announces_each_step_and_names_a_failed_cli_update() {
    let mut steps = Recorder::new(Ok(()), Err("installer exited with 1".to_string()));
    let error = execute_upgrade(&mut Recorded::new(&mut steps), INSTALL_SCRIPT_URL).unwrap_err();
    assert_eq!(
        error.message(),
        "failed to update paper CLI: installer exited with 1"
    );
    assert_eq!(
        steps.notes,
        vec![
            "Updating global use-paper-cli skill...".to_string(),
            "Updating paper CLI...".to_string()
        ]
    );
    let report = upgrade_report(CliUpdate { scheduled: false }, "s");
    assert_eq!(report["skill"]["name"], "use-paper-cli");
    assert_eq!(report["cli"].as_object().unwrap().len(), 2);
}

#[test]
fn powershell_literals_double_single_quotes() {
    assert_eq!(
        powershell_path_literal(r"C:\Temp\paper's script.ps1"),
        r"'C:\Temp\paper''s script.ps1'"
    );
    assert_eq!(powershell_path_literal(""), "''");
}

#[test]
fn finishing_an_upgrade_reports_or_names_the_cli_failure() {
    let report = finish_upgrade(Ok(CliUpdate { scheduled: true }), "src").unwrap();
    assert_eq!(report["cli"]["scheduled"], true);
    assert_eq!(report["cli"]["updated"], false);
    assert_eq!(report["cli"]["source"], "src");
    assert_eq!(
        finish_upgrade(Err("exit 1".into()), "src").unwrap_err().message(),
        "failed to update paper CLI: exit 1"
    );
}

#[test]
fn cli_update_follows_only_a_successful_skill_update() {
    match after_skill_update(Ok(())) {
        UpgradeStep::UpdateCli { note } => assert_eq!(note, "Updating paper CLI..."),
        UpgradeStep::Failed(_) => panic!("the CLI update should follow"),
    }
    match after_skill_update(Err("npx failed".into())) {
        UpgradeStep::Failed(error) => assert_eq!(
            error.message(),
            "failed to update global use-paper-cli skill: npx failed"
        ),
        UpgradeStep::UpdateCli { .. } => panic!("the CLI must not be updated"),
    }
}

#[test]
fn installer_command_waits_runs_and_removes_the_script() {
    assert_eq!(
        installer_command(4242, "C:\\Temp\\it's.ps1"),
        "$ErrorActionPreference = 'Stop'; Wait-Process -Id 4242 -ErrorAction SilentlyContinue; \
         try { & 'C:\\Temp\\it''s.ps1' } finally { Remove-Item -LiteralPath \
         'C:\\Temp\\it''s.ps1' -Force -ErrorAction SilentlyContinue }"
    );
}
