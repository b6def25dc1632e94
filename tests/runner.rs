use github_api::env::EnvVars;
use github_api::runner::{run, Action, Event, Failure, Report, Runner};

fn env() -> EnvVars {
    EnvVars {
        github_token: Some("tok123".to_string()),
        repo_owner: Some("acme".to_string()),
        repo_name: Some("widgets".to_string()),
        log_level: None,
    }
}

fn strings(v: &[&str]) -> Vec<String> {
    v.iter().map(|s| s.to_string()).collect()
}

fn listing_events(listed: Result<Vec<String>, Failure>) -> Vec<Event> {
    vec![
        Event::Environment(env()),
        Event::LoggingInitialized,
        Event::ClientBuilt(Ok(())),
        Event::CommitsListed(listed),
    ]
}

fn auth_failure() -> Failure {
    Failure { message: "GitHub: Bad credentials".to_string(), cause: Some("401 Unauthorized".to_string()) }
}

#[test]
fn listed_commits_are_printed_in_order() {
    let actions = run(listing_events(Ok(strings(&["abc111", "def222"]))));
    assert_eq!(
        actions,
        vec![
            Action::InitLogging("info".to_string()),
            Action::BuildClient("tok123".to_string()),
            Action::ListCommits("acme".to_string(), "widgets".to_string()),
            Action::Finish(Report {
                lines: strings(&["Commits received", "abc111", "def222"]),
                is_error: false,
                exit_code: 0,
            }),
        ]
    );
}

#[test]
fn failed_listing_is_reported_and_exits_zero() {
    let actions = run(listing_events(Err(auth_failure())));
    assert_eq!(actions.len(), 4);
    assert_eq!(
        actions[3],
        Action::Finish(Report {
            lines: strings(&["Error: GitHub: Bad credentials", "Caused by: 401 Unauthorized"]),
            is_error: true,
            exit_code: 0,
        })
    );
}

#[test]
fn failure_without_cause_gives_one_line() {
    let f = Failure { message: "timed out".to_string(), cause: None };
    let actions = run(listing_events(Err(f)));
    assert_eq!(
        actions[3],
        Action::Finish(Report { lines: strings(&["Error: timed out"]), is_error: true, exit_code: 0 })
    );
}

#[test]
fn empty_listing_prints_only_the_header() {
    let actions = run(listing_events(Ok(Vec::new())));
    assert_eq!(
        actions[3],
        Action::Finish(Report { lines: strings(&["Commits received"]), is_error: false, exit_code: 0 })
    );
}

#[test]
fn two_runs_print_the_same_commits() {
    let first = run(listing_events(Ok(strings(&["abc111", "def222"]))));
    let second = run(listing_events(Ok(strings(&["abc111", "def222"]))));
    assert_eq!(first, second);
    let first = run(listing_events(Err(auth_failure())));
    let second = run(listing_events(Err(auth_failure())));
    assert_eq!(first, second);
}

#[test]
fn missing_owner_ends_the_run_before_any_client() {
    let mut vars = env();
    vars.repo_owner = None;
    let mut runner = Runner::new();
    let first = runner.step(Event::Environment(vars));
    assert_eq!(
        first,
        Action::Finish(Report { lines: strings(&["Error: REPO_OWNER must be set"]), is_error: true, exit_code: 1 })
    );
    assert!(runner.is_finished());
    assert_eq!(runner.step(Event::LoggingInitialized), Action::Ignore);
    assert_eq!(runner.step(Event::ClientBuilt(Ok(()))), Action::Ignore);
}

#[test]
fn client_failure_exits_with_one() {
    let actions = run(vec![
        Event::Environment(env()),
        Event::LoggingInitialized,
        Event::ClientBuilt(Err(Failure { message: "no certificates".to_string(), cause: None })),
        Event::CommitsListed(Ok(strings(&["abc111"]))),
    ]);
    assert_eq!(
        actions[2],
        Action::Finish(Report { lines: strings(&["Error: no certificates"]), is_error: true, exit_code: 1 })
    );
    assert_eq!(actions[3], Action::Ignore);
}

#[test]
fn configured_log_level_is_the_filter() {
    let mut vars = env();
    vars.log_level = Some("debug".to_string());
    let mut runner = Runner::new();
    assert_eq!(runner.step(Event::Environment(vars)), Action::InitLogging("debug".to_string()));
}

#[test]
fn out_of_order_events_are_ignored() {
    let mut runner = Runner::new();
    assert_eq!(runner.step(Event::LoggingInitialized), Action::Ignore);
    assert_eq!(runner.step(Event::CommitsListed(Ok(Vec::new()))), Action::Ignore);
    assert!(!runner.is_finished());
    assert_eq!(runner.step(Event::Environment(env())), Action::InitLogging("info".to_string()));
    assert_eq!(runner.step(Event::ClientBuilt(Ok(()))), Action::Ignore);
    assert_eq!(runner.step(Event::LoggingInitialized), Action::BuildClient("tok123".to_string()));
}
