use std::collections::HashMap;

use dockyard::engine::{
    any_running, choose_recipe, logs_complete, network_present, shared_network, startup_action,
    state_of_listed, uptime_secs_from, watch_action, StartupAction, WatchAction,
};
use dockyard::error::DockyardError;
use dockyard::models::ProjectState;
use dockyard::project::{NetworkMode, ProjectConfig};
use dockyard::protocol::DeployRequest;
use dockyard::registry::{deploy_response, project_url, Registry};
use dockyard::rollout::{DeployRun, DeployStage, Outcome, RebuildRun, RebuildStage, Step};
use dockyard::scheduler::{BuildSet, Job};
use dockyard::status::{
    deploy_request_from_flags, detail_of, env_assignment, error_status, port_key,
    project_done_message, rebuild_started_message, summarize,
};

fn request(url: &str, port: u16) -> DeployRequest {
    DeployRequest {
        repo_url: url.to_string(),
        branch: "main".to_string(),
        network_mode: NetworkMode::LocalOnly,
        hostname: None,
        container_port: port,
        env_vars: HashMap::new(),
    }
}

fn deployed(reg: &mut Registry, url: &str, host_port: u16) -> ProjectConfig {
    let rec = reg.prepare_deploy(&request(url, 3000), host_port).unwrap();
    reg.insert(rec.snapshot()).unwrap();
    rec
}

#[test]
fn deploy_scenario_names_and_urls() {
    let mut reg = Registry::new();
    let rec = deployed(&mut reg, "https://example.com/acme/app.git", 41234);
    assert_eq!(rec.slug, "app");
    assert_eq!(rec.name, "app");
    assert_eq!(rec.container.container_name, "dockyard-app");
    assert_eq!(rec.container.image_name, "dockyard/app");
    assert_eq!(rec.domain.container_port, 3000);
    assert_eq!(rec.branch, "main");
    let resp = deploy_response(&rec, 9876);
    assert_eq!(resp.slug, "app");
    assert_eq!(resp.url.as_deref(), Some("http://localhost:41234"));
    assert_eq!(resp.webhook_url, "http://YOUR_SERVER:9876/webhook/app");
    assert_eq!(resp.host_port, 41234);
    assert_eq!(project_url(&rec).as_deref(), Some("http://localhost:41234"));
}

#[test]
fn deploy_then_detail_same_port() {
    let mut reg = Registry::new();
    let rec = deployed(&mut reg, "https://example.com/acme/app.git", 40001);
    let resp = deploy_response(&rec, 9876);
    let found = reg.get(&resp.slug).unwrap();
    assert_eq!(found.slug, resp.slug);
    assert_eq!(found.domain.host_port, resp.host_port);
}

#[test]
fn stored_records_have_derived_names() {
    let mut reg = Registry::new();
    deployed(&mut reg, "https://example.com/acme/app.git", 40001);
    deployed(&mut reg, "https://example.com/acme/My Site/", 40002);
    for r in reg.records() {
        assert_eq!(r.container.container_name, format!("dockyard-{}", r.slug));
        assert_eq!(r.container.image_name, format!("dockyard/{}", r.slug));
    }
    assert_eq!(reg.project_count(), 2);
    assert!(reg.contains("my-site"));
}

#[test]
fn insert_refuses_underived_names() {
    let mut reg = Registry::new();
    let mut rec = reg.prepare_deploy(&request("https://h/x/y.git", 80), 40000).unwrap();
    rec.container.container_name = "other".to_string();
    assert!(matches!(reg.insert(rec), Err(DockyardError::Config(_))));
    assert_eq!(reg.project_count(), 0);
}

#[test]
fn deploy_existing_slug_is_refused() {
    let mut reg = Registry::new();
    deployed(&mut reg, "https://example.com/acme/app.git", 40001);
    let again = reg.prepare_deploy(&request("https://other.org/team/app/", 3000), 40002);
    match again {
        Err(DockyardError::ProjectAlreadyExists(s)) => assert_eq!(s, "app"),
        _ => panic!("expected ProjectAlreadyExists"),
    }
    assert_eq!(reg.project_count(), 1);
    assert_eq!(reg.get("app").unwrap().domain.host_port, 40001);
}

#[test]
fn delete_then_list_excludes_slug() {
    let mut reg = Registry::new();
    deployed(&mut reg, "https://example.com/acme/app.git", 40001);
    deployed(&mut reg, "https://example.com/acme/api.git", 40002);
    let (c, i) = reg.delete_targets("app").unwrap();
    assert_eq!(c, "dockyard-app");
    assert_eq!(i, "dockyard/app");
    assert!(reg.remove("app"));
    assert_eq!(reg.slugs(), vec!["api".to_string()]);
    assert!(!reg.remove("app"));
    assert!(matches!(reg.delete_targets("app"), Err(DockyardError::ProjectNotFound(_))));
}

#[test]
fn rebuild_unknown_slug_not_found() {
    let reg = Registry::new();
    match reg.rebuild_job("nosuchslug") {
        Err(DockyardError::ProjectNotFound(s)) => assert_eq!(s, "nosuchslug"),
        _ => panic!("expected ProjectNotFound"),
    }
}

#[test]
fn rebuild_known_slug_enqueues_rebuild() {
    let mut reg = Registry::new();
    deployed(&mut reg, "https://example.com/acme/app.git", 40001);
    match reg.rebuild_job("app").unwrap() {
        Job::Rebuild { slug, commit_sha } => {
            assert_eq!(slug, "app");
            assert!(commit_sha.is_none());
        }
        _ => panic!("expected Rebuild"),
    }
    assert_eq!(reg.container_of("app").unwrap(), "dockyard-app");
    assert!(matches!(reg.container_of("zzz"), Err(DockyardError::ProjectNotFound(_))));
}

#[test]
fn touch_sets_update_time() {
    let mut reg = Registry::new();
    deployed(&mut reg, "https://example.com/acme/app.git", 40001);
    let t = dockyard::project::Timestamp { secs: 1_700_000_000, nanos: 5 };
    assert!(reg.touch("app", t));
    assert_eq!(reg.get("app").unwrap().updated_at, t);
    assert!(!reg.touch("none", t));
}

#[test]
fn project_url_variants() {
    let mut reg = Registry::new();
    let mut rec = deployed(&mut reg, "https://example.com/acme/app.git", 40001);
    rec.domain.hostname = Some("app.example.com".to_string());
    assert_eq!(project_url(&rec).as_deref(), Some("https://app.example.com"));
    rec.domain.hostname = None;
    rec.network_mode = NetworkMode::Public;
    assert_eq!(project_url(&rec), None);
}

#[test]
fn one_build_per_slug() {
    let mut set = BuildSet::new();
    let a = Job::Rebuild { slug: "same_slug".to_string(), commit_sha: None };
    let b = Job::Rebuild { slug: "same_slug".to_string(), commit_sha: None };
    assert!(set.begin(&a));
    assert!(!set.begin(&b));
    set.finish(&a);
    assert!(!set.contains("same_slug"));
    assert!(set.begin(&b));
}

#[test]
fn distinct_slugs_build_concurrently() {
    let mut set = BuildSet::new();
    let a = Job::Deploy { slug: "one".to_string() };
    let b = Job::Deploy { slug: "two".to_string() };
    assert!(set.begin(&a));
    assert!(set.begin(&b));
    assert!(set.contains("one") && set.contains("two"));
}

#[test]
fn stop_and_delete_bypass_exclusion() {
    let mut set = BuildSet::new();
    assert!(set.begin(&Job::Deploy { slug: "x".to_string() }));
    assert!(set.begin(&Job::Stop { slug: "x".to_string() }));
    assert!(set.begin(&Job::Delete { slug: "x".to_string() }));
    set.finish(&Job::Delete { slug: "x".to_string() });
    assert!(set.contains("x"));
}

fn rebuild_run() -> RebuildRun {
    RebuildRun::new(
        "main".to_string(),
        "/var/lib/dockyard/projects/app/repo".to_string(),
        "dockyard-app".to_string(),
        "dockyard/app".to_string(),
        3000,
        1_700_000_000,
    )
}

#[test]
fn rebuild_unhealthy_container_is_discarded() {
    let mut run = rebuild_run();
    run.advance(Outcome::Done);
    run.advance(Outcome::Done);
    run.advance(Outcome::Port(45555));
    match run.step() {
        Step::Start { name, image, host_port, container_port } => {
            assert_eq!(name, "dockyard-app-new");
            assert_eq!(image, "dockyard/app:build-1700000000");
            assert_eq!(host_port, 45555);
            assert_eq!(container_port, 3000);
        }
        other => panic!("unexpected step {:?}", other),
    }
    run.advance(Outcome::Done);
    assert!(matches!(run.step(), Step::Settle { secs: 3 }));
    run.advance(Outcome::Done);
    assert_eq!(run.stage, RebuildStage::CheckTemp);
    run.advance(Outcome::Running(false));
    match run.step() {
        Step::RemoveContainer { name } => assert_eq!(name, "dockyard-app-new"),
        other => panic!("unexpected step {:?}", other),
    }
    run.advance(Outcome::Failed("gone".to_string()));
    match run.step() {
        Step::RemoveImage { name } => assert_eq!(name, "dockyard/app:build-1700000000"),
        other => panic!("unexpected step {:?}", other),
    }
    run.advance(Outcome::Done);
    match run.step() {
        Step::Finished { error } => {
            assert_eq!(error.as_deref(), Some("New container failed to start"))
        }
        other => panic!("unexpected step {:?}", other),
    }
}

#[test]
fn rebuild_healthy_container_swaps_in() {
    let mut run = rebuild_run();
    run.advance(Outcome::Done);
    run.advance(Outcome::Done);
    run.advance(Outcome::Port(45555));
    run.advance(Outcome::Done);
    run.advance(Outcome::Done);
    run.advance(Outcome::Running(true));
    assert!(matches!(run.step(), Step::Stop { ref name } if name == "dockyard-app"));
    run.advance(Outcome::Failed("not running".to_string()));
    assert!(matches!(run.step(), Step::RemoveContainer { ref name } if name == "dockyard-app"));
    run.advance(Outcome::Done);
    match run.step() {
        Step::Rename { from, to } => {
            assert_eq!(from, "dockyard-app-new");
            assert_eq!(to, "dockyard-app");
        }
        other => panic!("unexpected step {:?}", other),
    }
    run.advance(Outcome::Done);
    match run.step() {
        Step::Tag { source, repo, tag } => {
            assert_eq!(source, "dockyard/app:build-1700000000");
            assert_eq!(repo, "dockyard/app");
            assert_eq!(tag, "latest");
        }
        other => panic!("unexpected step {:?}", other),
    }
    run.advance(Outcome::Done);
    assert!(matches!(run.step(), Step::RemoveImage { .. }));
    run.advance(Outcome::Failed("in use".to_string()));
    assert!(matches!(run.step(), Step::Persist));
    run.advance(Outcome::Done);
    assert!(matches!(run.step(), Step::Finished { error: None }));
}

#[test]
fn rebuild_pull_failure_stops() {
    let mut run = rebuild_run();
    assert!(matches!(run.step(), Step::Pull { .. }));
    run.advance(Outcome::Failed("git pull failed".to_string()));
    match run.step() {
        Step::Finished { error } => assert_eq!(error.as_deref(), Some("git pull failed")),
        other => panic!("unexpected step {:?}", other),
    }
}

#[test]
fn deploy_run_steps() {
    let mut run = DeployRun::new(
        "https://example.com/acme/app.git".to_string(),
        "main".to_string(),
        "/var/lib/dockyard/projects/app/repo".to_string(),
        "dockyard-app".to_string(),
        "dockyard/app".to_string(),
        41000,
        3000,
    );
    assert!(matches!(run.step(), Step::Clone { .. }));
    run.advance(Outcome::Done);
    match run.step() {
        Step::Build { tag, .. } => assert_eq!(tag, "dockyard/app:latest"),
        other => panic!("unexpected step {:?}", other),
    }
    run.advance(Outcome::Done);
    match run.step() {
        Step::Start { name, image, host_port, .. } => {
            assert_eq!(name, "dockyard-app");
            assert_eq!(image, "dockyard/app:latest");
            assert_eq!(host_port, 41000);
        }
        other => panic!("unexpected step {:?}", other),
    }
    run.advance(Outcome::Failed("port taken".to_string()));
    assert_eq!(run.stage, DeployStage::Failed);
    match run.step() {
        Step::Finished { error } => assert_eq!(error.as_deref(), Some("port taken")),
        other => panic!("unexpected step {:?}", other),
    }
}

#[test]
fn engine_states_map() {
    assert_eq!(ProjectState::from_engine(Some("running")), ProjectState::Online);
    assert_eq!(ProjectState::from_engine(Some("exited")), ProjectState::Stopped);
    assert_eq!(ProjectState::from_engine(Some("created")), ProjectState::Starting);
    assert_eq!(ProjectState::from_engine(Some("restarting")), ProjectState::Starting);
    assert_eq!(ProjectState::from_engine(Some("paused")), ProjectState::Offline);
    assert_eq!(ProjectState::from_engine(None), ProjectState::Offline);
    assert_eq!(state_of_listed(&vec![]), ProjectState::Offline);
    assert_eq!(
        state_of_listed(&vec![Some("exited".to_string()), Some("running".to_string())]),
        ProjectState::Stopped
    );
    assert!(any_running(&vec![None, Some("exited".to_string()), Some("running".to_string())]));
    assert!(!any_running(&vec![Some("exited".to_string())]));
    assert_eq!(ProjectState::Online.label(), "Online");
}

#[test]
fn ensure_network_twice_creates_once() {
    let mut names: Vec<Option<String>> = vec![Some("bridge".to_string()), None];
    let name = shared_network();
    assert_eq!(name, "dockyard-network");
    let mut created = 0;
    for _ in 0..2 {
        if !network_present(&names, name) {
            names.push(Some(name.to_string()));
            created += 1;
        }
    }
    assert_eq!(created, 1);
    assert_eq!(names.iter().filter(|n| n.as_deref() == Some(name)).count(), 1);
}

#[test]
fn startup_and_watch_actions() {
    assert_eq!(startup_action(false, ProjectState::Stopped), StartupAction::Skip);
    assert_eq!(startup_action(true, ProjectState::Online), StartupAction::Nothing);
    assert_eq!(startup_action(true, ProjectState::Stopped), StartupAction::Start);
    assert_eq!(startup_action(true, ProjectState::Offline), StartupAction::Deploy);
    assert_eq!(watch_action(false, Some(ProjectState::Stopped)), WatchAction::Skip);
    assert_eq!(watch_action(true, Some(ProjectState::Stopped)), WatchAction::Restart);
    assert_eq!(watch_action(true, Some(ProjectState::Online)), WatchAction::Nothing);
    assert_eq!(watch_action(true, Some(ProjectState::Starting)), WatchAction::Note);
    assert_eq!(watch_action(true, None), WatchAction::ReportError);
}

#[test]
fn logs_uptime_and_recipe() {
    assert!(logs_complete(100, 100, false));
    assert!(!logs_complete(99, 100, false));
    assert!(!logs_complete(500, 100, true));
    assert_eq!(uptime_secs_from(-5), 0);
    assert_eq!(uptime_secs_from(42), 42);
    assert_eq!(choose_recipe(&vec![false, true, true]).unwrap(), "dockerfile");
    assert_eq!(choose_recipe(&vec![true, true, true]).unwrap(), "Dockerfile");
    assert_eq!(choose_recipe(&vec![false, false, true]).unwrap(), "Dockerfile.prod");
    match choose_recipe(&vec![false, false, false]) {
        Err(DockyardError::BuildFailed(m)) => assert_eq!(m, "No Dockerfile found in repository"),
        _ => panic!("expected BuildFailed"),
    }
}

#[test]
fn summaries_hide_figures_unless_online() {
    let mut reg = Registry::new();
    let rec = deployed(&mut reg, "https://example.com/acme/app.git", 40001);
    let s = summarize(&rec, ProjectState::Stopped, Some(99));
    assert_eq!(s.uptime_secs, None);
    assert!(!s.live_stats);
    assert_eq!(s.url.as_deref(), Some("http://localhost:40001"));
    assert_eq!(s.network_mode, "Local Only");
    assert_eq!(s.last_deploy, rec.updated_at);
    let s = summarize(&rec, ProjectState::Online, Some(99));
    assert_eq!(s.uptime_secs, Some(99));
    assert!(s.live_stats);
    let d = detail_of(&rec, ProjectState::Online, None);
    assert_eq!(d.summary.slug, "app");
    assert_eq!(d.repo_url, "https://example.com/acme/app.git");
    assert_eq!(d.branch, "main");
    assert_eq!(d.webhook_secret, rec.webhook.secret);
}

#[test]
fn api_statuses_and_messages() {
    assert_eq!(error_status(&DockyardError::ProjectNotFound("a".to_string())), 404);
    assert_eq!(error_status(&DockyardError::ProjectAlreadyExists("a".to_string())), 409);
    assert_eq!(error_status(&DockyardError::Docker("x".to_string())), 500);
    assert_eq!(port_key(3000), "3000/tcp");
    assert_eq!(env_assignment("A", "b=c"), "A=b=c");
    assert_eq!(rebuild_started_message("app"), "Rebuild started for 'app'");
    assert_eq!(project_done_message("app", "stopped"), "Project 'app' stopped");
    let req = deploy_request_from_flags("u".to_string(), "main".to_string(), true, None, None);
    assert_eq!(req.network_mode, NetworkMode::Public);
    assert_eq!(req.container_port, 3000);
    let req = deploy_request_from_flags("u".to_string(), "dev".to_string(), false, None, Some(8080));
    assert_eq!(req.network_mode, NetworkMode::LocalOnly);
    assert_eq!(req.container_port, 8080);
}
