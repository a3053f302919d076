use hmac::{Hmac, Mac};
use sha2::Sha256;

use dockyard::cli::ConfigAction;
use dockyard::config::{default_webhook_port, update_for_key, GlobalConfig};
use dockyard::display::format_uptime;
use dockyard::error::DockyardError;
use dockyard::ipc::{project_route, IpcClient};
use dockyard::models::{GitHubPushEvent, GitHubPusher, GitHubRepository};
use dockyard::paths;
use dockyard::project::{container_name_of, image_name_of};
use dockyard::protocol::{health_response, LogsQuery};
use dockyard::scheduler::Job;
use dockyard::utils::{repo_name, slug_from_lowered, slugify};
use dockyard::webhook::{
    constant_time_eq, route_push, signature_matches, verify_signature, SignatureCheck,
    WebhookReply,
};

fn sign(secret: &str, body: &[u8]) -> String {
    let mut mac = Hmac::<Sha256>::new_from_slice(secret.as_bytes()).unwrap();
    mac.update(body);
    let bytes = mac.finalize().into_bytes();
    let mut out = String::from("sha256=");
    for b in bytes.iter() {
        out.push_str(&format!("{:02x}", b));
    }
    out
}

fn push(git_ref: &str, after: &str) -> GitHubPushEvent {
    GitHubPushEvent {
        git_ref: git_ref.to_string(),
        after: after.to_string(),
        repository: GitHubRepository {
            full_name: "acme/app".to_string(),
            clone_url: "https://example.com/acme/app.git".to_string(),
            ssh_url: "git@example.com:acme/app.git".to_string(),
        },
        pusher: GitHubPusher { name: "dev".to_string() },
    }
}

const BODY: &[u8] = br#"{"ref":"refs/heads/main","after":"abcdef1234567890"}"#;

#[test]
fn repo_name_examples() {
    assert_eq!(repo_name("https://host/x/y.git"), "y");
    assert_eq!(repo_name("https://host/x/y/"), "y");
    assert_eq!(repo_name("https://example.com/acme/app.git"), "app");
    assert_eq!(repo_name("app"), "app");
    assert_eq!(repo_name("https://host/x/y.git.git//"), "y");
    assert_eq!(repo_name("https://host/"), "host");
    assert_eq!(repo_name(""), "");
}

#[test]
fn slugify_examples() {
    assert_eq!(slugify("My Cool App"), "my-cool-app");
    assert_eq!(slugify("--Hello_World!--"), "hello-world");
    assert_eq!(slugify("app"), "app");
    assert_eq!(slugify("***"), "");
    assert_eq!(slugify(""), "");
}

#[test]
fn slugify_is_idempotent_on_examples() {
    for name in ["My Cool App", "  spaced  out ", "A.B.C", "x--y", "Ünïcode Näme"] {
        let once = slugify(name);
        assert_eq!(slugify(&once), once);
        assert!(!once.starts_with('-') && !once.ends_with('-'));
    }
    let s = slugify("Release 2.0 (Beta)");
    assert!(s.chars().all(|c| c.is_ascii_lowercase() || c.is_ascii_digit() || c == '-'));
    assert_eq!(slug_from_lowered("a b"), "a-b");
}

#[test]
fn derived_names_and_paths() {
    assert_eq!(container_name_of("app"), "dockyard-app");
    assert_eq!(image_name_of("app"), "dockyard/app");
    assert_eq!(paths::project_dir("app"), "/var/lib/dockyard/projects/app");
    assert_eq!(paths::project_config_path("app"), "/var/lib/dockyard/projects/app/project.toml");
    assert_eq!(paths::project_repo_dir("app"), "/var/lib/dockyard/projects/app/repo");
    assert_eq!(paths::project_logs_dir("app"), "/var/lib/dockyard/projects/app/logs");
    assert_eq!(paths::global_config_path(), "/etc/dockyard/config.toml");
    assert_eq!(paths::socket_path(), "/var/run/dockyard.sock");
    assert_eq!(paths::pid_file_path(), "/var/run/dockyard.pid");
    assert_eq!(IpcClient::new().socket_path(), "/var/run/dockyard.sock");
    assert_eq!(project_route("app", "/rebuild"), "/api/projects/app/rebuild");
}

#[test]
fn webhook_valid_signature_on_tracked_branch_enqueues() {
    let sig = sign("s3cret", BODY);
    assert_eq!(
        verify_signature("s3cret", BODY, Some(sig.as_bytes())),
        SignatureCheck::Valid
    );
    let bare = sig.trim_start_matches("sha256=").to_string();
    assert_eq!(
        verify_signature("s3cret", BODY, Some(bare.as_bytes())),
        SignatureCheck::Valid
    );
    let job = route_push("app", "main", &push("refs/heads/main", "abcdef1234567890"));
    match job {
        Some(Job::Rebuild { slug, commit_sha }) => {
            assert_eq!(slug, "app");
            assert_eq!(commit_sha.as_deref(), Some("abcdef1234567890"));
        }
        _ => panic!("expected a rebuild"),
    }
    assert_eq!(WebhookReply::Accepted.status_code(), 200);
}

#[test]
fn webhook_untracked_branch_is_acknowledged_only() {
    assert!(route_push("app", "main", &push("refs/heads/dev", "abc")).is_none());
    assert!(route_push("app", "main", &push("refs/tags/main", "abc")).is_none());
    assert_eq!(push("refs/heads/dev", "abc").branch(), Some("dev"));
    assert_eq!(push("refs/tags/v1", "abc").branch(), None);
}

#[test]
fn webhook_zero_signature_is_unauthorized() {
    let zeros = format!("sha256={}", "0".repeat(64));
    let check = verify_signature("s3cret", BODY, Some(zeros.as_bytes()));
    assert_eq!(check, SignatureCheck::Invalid);
    assert_eq!(check.rejection().unwrap().status_code(), 401);
}

#[test]
fn webhook_altered_byte_is_rejected() {
    let sig = sign("s3cret", BODY);
    let mut bytes = sig.clone().into_bytes();
    let last = bytes.len() - 1;
    bytes[last] = if bytes[last] == b'0' { b'1' } else { b'0' };
    assert_eq!(verify_signature("s3cret", BODY, Some(&bytes)), SignatureCheck::Invalid);
    let mut body = BODY.to_vec();
    body[3] ^= 1;
    assert_eq!(verify_signature("s3cret", &body, Some(sig.as_bytes())), SignatureCheck::Invalid);
    assert_eq!(verify_signature("other", BODY, Some(sig.as_bytes())), SignatureCheck::Invalid);
}

#[test]
fn webhook_missing_signature_is_accepted() {
    let check = verify_signature("s3cret", BODY, None);
    assert_eq!(check, SignatureCheck::Missing);
    assert!(check.rejection().is_none());
    assert_eq!(WebhookReply::NotFound.status_code(), 404);
    assert_eq!(WebhookReply::BadPayload.status_code(), 400);
    assert_eq!(WebhookReply::HmacFailure.status_code(), 500);
}

#[test]
fn signature_comparison() {
    assert!(constant_time_eq(b"abc", b"abc"));
    assert!(!constant_time_eq(b"abc", b"abd"));
    assert!(!constant_time_eq(b"abc", b"abcd"));
    assert!(constant_time_eq(b"", b""));
    assert!(signature_matches(b"sha256=ff", b"ff"));
    assert!(signature_matches(b"ff", b"ff"));
    assert!(!signature_matches(b"sha256=fe", b"ff"));
}

#[test]
fn uptime_formatting() {
    assert_eq!(format_uptime(None), "--");
    assert_eq!(format_uptime(Some(59)), "0m");
    assert_eq!(format_uptime(Some(3599)), "59m");
    assert_eq!(format_uptime(Some(3660)), "1h 1m");
    assert_eq!(format_uptime(Some(90000)), "1d 1h");
    assert_eq!(format_uptime(Some(86400 * 3 + 5)), "3d 0h");
}

#[test]
fn config_defaults_and_updates() {
    let mut cfg = GlobalConfig::default();
    assert_eq!(default_webhook_port(), 9876);
    assert_eq!(cfg.daemon.webhook_port, 9876);
    assert_eq!(cfg.daemon.log_level, "info");
    assert_eq!(cfg.caddy.admin_api, "http://localhost:2019");
    assert!(!cfg.cloudflare.enabled);
    let upd = update_for_key("cloudflare.enabled", "true".to_string()).unwrap();
    cfg.apply_update(upd);
    assert!(cfg.cloudflare.enabled);
    let upd = update_for_key("github.api_token", "SECRET-REDACTED".to_string()).unwrap();
    cfg.apply_update(upd);
    let info = cfg.info();
    assert!(info.github_api_token_set);
    assert!(info.cloudflare_enabled);
    assert_eq!(info.socket_path, "/var/run/dockyard.sock");
    let upd = update_for_key("cloudflare.enabled", "yes".to_string()).unwrap();
    assert_eq!(upd.cloudflare_enabled, Some(false));
    assert!(update_for_key("nope", "x".to_string()).is_none());
    let _ = ConfigAction::SetValue { key: "k".to_string(), value: "v".to_string() };
}

#[test]
fn protocol_helpers_and_errors() {
    assert_eq!(LogsQuery { tail: None }.tail_or_default(), 100);
    assert_eq!(LogsQuery { tail: Some(5) }.tail_or_default(), 5);
    let h = health_response(12, 3);
    assert_eq!(h.status, "ok");
    assert_eq!(h.project_count, 3);
    assert_eq!(
        DockyardError::ProjectNotFound("x".to_string()).message(),
        "Project 'x' not found"
    );
    assert_eq!(DockyardError::PortInUse(8080).message(), "Port 8080 is already in use");
}
