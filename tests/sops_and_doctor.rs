use opsops::config::{CreationRule, KeyGroup, SopsConfig};
use opsops::doctor::{check_secret_key, find_public_key, mask_secret, KeyCheck, KeyMatch};
use opsops::key::KeyError;
use opsops::project_root::{find_project_root, find_root_by_indicators, root_indicators, Ancestor};
use opsops::sops::{
    age_key_env_var, decrypt_command, decrypted_output_path, edit_command, encrypt_command,
    encrypted_output_path, is_file_unchanged_status, sops_outcome, RunStatus, SopsCommandBuilder,
    SopsOutcome,
};

const TEST_SK: &str = "AGE-SECRET-KEY-1GQ9778VQXMMJVE8SK7J6VT8UJ4HDQAJUVSFCWCM02D8GEWQ72PVQ2Y5J33";
const TEST_PK: &str = "age1t7rxyev2z3rw82stdlrrepyc39nvn86l5078zqkf5uasdy86jp6svpy7pa";

fn level(path: &str, present: &[bool]) -> Ancestor {
    Ancestor { path: path.to_string(), present: present.to_vec() }
}

fn rule(path: Option<&str>, age: Option<&str>, groups: Vec<Vec<&str>>) -> CreationRule {
    CreationRule {
        path_regex: path.map(|s| s.to_string()),
        age: age.map(|s| s.to_string()),
        key_groups: groups
            .into_iter()
            .map(|g| KeyGroup { age: g.into_iter().map(|k| k.to_string()).collect() })
            .collect(),
    }
}

fn config(rules: Vec<CreationRule>) -> SopsConfig {
    SopsConfig { creation_rules: rules, onepassworditem: "op://Vault/Item/Field".to_string() }
}

#[test]
fn indicators_in_order() {
    assert_eq!(root_indicators(), vec![".git", "src", "flake.nix", "package.json", "Cargo.toml"]);
}

#[test]
fn repository_root_wins() {
    let levels = vec![level("/a/b", &[false, true, false, false, false])];
    assert_eq!(find_project_root(Some("/a".to_string()), &levels), Some("/a".to_string()));
}

#[test]
fn nearest_marked_ancestor_is_the_root() {
    let levels = vec![
        level("/a/b/c", &[false, false, false, false, false]),
        level("/a/b", &[false, false, false, true, false]),
        level("/a", &[true, false, false, false, false]),
        level("/", &[false, false, false, false, false]),
    ];
    assert_eq!(find_project_root(None, &levels), Some("/a/b".to_string()));
    assert_eq!(find_root_by_indicators(&levels), Some("/a/b".to_string()));
}

#[test]
fn no_marker_up_to_the_root_gives_none() {
    let levels = vec![level("/a/b", &[false; 5]), level("/a", &[false; 5]), level("/", &[false; 5])];
    assert_eq!(find_project_root(None, &levels), None);
    assert_eq!(find_project_root(None, &vec![]), None);
}

#[test]
fn builder_collects_arguments_and_key() {
    let b = SopsCommandBuilder::new()
        .arg("--verbose")
        .args(&vec!["a".to_string(), "b".to_string()])
        .current_dir("/tmp");
    assert_eq!(b.program, "sops");
    assert_eq!(b.arguments, vec!["--verbose", "a", "b"]);
    assert_eq!(b.working_dir, Some("/tmp".to_string()));
    assert!(!b.has_age_key());
    let b = b.with_optional_age_key(Err(KeyError::ReferenceMissing));
    assert!(!b.has_age_key());
    let b = b.with_optional_age_key(Ok("AGE-SECRET-KEY-1A".to_string()));
    assert!(b.has_age_key());
    assert_eq!(b.age_key, Some("AGE-SECRET-KEY-1A".to_string()));
    assert_eq!(age_key_env_var(), "SOPS_AGE_KEY");
}

#[test]
fn builder_fails_without_key() {
    let r = SopsCommandBuilder::new().arg("x").with_age_key(Err(KeyError::InvalidFormat));
    assert!(matches!(r, Err(KeyError::InvalidFormat)));
}

#[test]
fn output_paths() {
    assert_eq!(encrypted_output_path("secrets.yaml"), "secrets.yaml.enc");
    assert_eq!(decrypted_output_path("secrets.yaml.enc"), "secrets.yaml");
    assert_eq!(decrypted_output_path("secrets.yaml"), "secrets.yaml.dec");
    assert_eq!(decrypted_output_path(".enc"), "");
    assert_eq!(decrypted_output_path("enc"), "enc.dec");
}

#[test]
fn commands_carry_arguments_and_key() {
    let key = || Ok("AGE-SECRET-KEY-1K".to_string());
    let e = encrypt_command("f.yaml", key()).unwrap();
    assert_eq!(e.arguments, vec!["--encrypt", "--output", "f.yaml.enc", "f.yaml"]);
    assert_eq!(e.age_key, Some("AGE-SECRET-KEY-1K".to_string()));
    let d = decrypt_command("f.yaml.enc", key()).unwrap();
    assert_eq!(d.arguments, vec!["--decrypt", "--output", "f.yaml", "f.yaml.enc"]);
    let ed = edit_command("f.yaml", key()).unwrap();
    assert_eq!(ed.program, "sops");
    assert_eq!(ed.arguments, vec!["f.yaml"]);
    assert!(matches!(edit_command("f", Err(KeyError::ReferenceMissing)), Err(KeyError::ReferenceMissing)));
}

#[test]
fn unchanged_status_is_two_hundred() {
    assert!(is_file_unchanged_status(Some(200)));
    assert!(!is_file_unchanged_status(Some(0)));
    assert!(!is_file_unchanged_status(Some(1)));
    assert!(!is_file_unchanged_status(None));
}

#[test]
fn exit_code_two_hundred_is_informational() {
    let o = sops_outcome(RunStatus::Exited(Some(200)));
    assert_eq!(o, SopsOutcome::Unchanged);
    assert!(!o.is_error());
    assert_eq!(o.exit_code(), 0);
}

#[test]
fn exit_code_zero_is_success() {
    let o = sops_outcome(RunStatus::Exited(Some(0)));
    assert_eq!(o, SopsOutcome::Succeeded);
    assert_eq!(o.exit_code(), 0);
}

#[test]
fn other_exit_codes_are_propagated() {
    for code in [1, 2, 128, 199, 201, 255, -1] {
        let o = sops_outcome(RunStatus::Exited(Some(code)));
        assert_eq!(o, SopsOutcome::Failed(code));
        assert!(o.is_error());
        assert_eq!(o.exit_code(), code);
    }
    assert_eq!(sops_outcome(RunStatus::Exited(None)).exit_code(), 1);
    let l = sops_outcome(RunStatus::LaunchFailed);
    assert_eq!(l, SopsOutcome::LaunchFailed);
    assert_eq!(l.exit_code(), 1);
}

#[test]
fn secret_is_masked() {
    let m = mask_secret(TEST_SK);
    assert_eq!(m.len(), TEST_SK.len());
    assert_eq!(&m[..15], "AGE-SECRET-KEY-");
    assert_eq!(&m[m.len() - 7..], &TEST_SK[TEST_SK.len() - 7..]);
    assert_eq!(m[15..m.len() - 7].chars().filter(|c| *c == '*').count(), TEST_SK.len() - 22);
    assert_eq!(mask_secret("AGE-SECRET-KEY-1234567"), "*".repeat(22));
    assert_eq!(mask_secret("AGE-SECRET-KEY-12345678"), "AGE-SECRET-KEY-*2345678");
    assert_eq!(mask_secret("short"), "*****");
}

#[test]
fn direct_key_is_found() {
    let c = config(vec![rule(Some("a"), None, vec![]), rule(Some(".*"), Some("K"), vec![])]);
    let r = find_public_key(&c, &"K".to_string());
    assert_eq!(r.matched, Some(KeyMatch::Direct { rule: 1 }));
    assert_eq!(r.keyless_rules, vec![0]);
}

#[test]
fn key_in_group_is_found() {
    let c = config(vec![rule(Some("a"), Some("other"), vec![vec![], vec!["x", "K"]])]);
    let r = find_public_key(&c, &"K".to_string());
    assert_eq!(r.matched, Some(KeyMatch::InGroup { rule: 0, group: 1 }));
    assert!(r.keyless_rules.is_empty());
}

#[test]
fn missing_key_lists_keyless_rules() {
    let c = config(vec![
        rule(Some("a"), None, vec![]),
        rule(Some("b"), Some("x"), vec![]),
        rule(None, None, vec![vec![]]),
        rule(Some("d"), None, vec![vec!["y"]]),
    ]);
    let r = find_public_key(&c, &"K".to_string());
    assert_eq!(r.matched, None);
    assert_eq!(r.keyless_rules, vec![0, 2]);
}

#[test]
fn doctor_reports_match_for_configured_key() {
    let c = config(vec![rule(Some(".*"), Some("AGE-PUBLIC-KEY-XYZ"), vec![])]);
    let r = find_public_key(&c, &"AGE-PUBLIC-KEY-XYZ".to_string());
    assert_eq!(r.matched, Some(KeyMatch::Direct { rule: 0 }));
    assert!(r.keyless_rules.is_empty());
}

#[test]
fn secret_key_is_checked_against_its_public_key() {
    let c = config(vec![rule(Some(".*"), Some(TEST_PK), vec![])]);
    match check_secret_key(&c, TEST_SK) {
        KeyCheck::Checked { public_key, report } => {
            assert_eq!(public_key, TEST_PK);
            assert_eq!(report.matched, Some(KeyMatch::Direct { rule: 0 }));
        }
        KeyCheck::InvalidKey(e) => panic!("unexpected: {}", e),
    }
}

#[test]
fn unparsable_secret_key_is_invalid() {
    let c = config(vec![]);
    assert!(matches!(check_secret_key(&c, "AGE-SECRET-KEY-1NOTBECH32"), KeyCheck::InvalidKey(_)));
}
