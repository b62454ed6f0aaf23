use base64::Engine as _;

use launcher::args::split_whitespace_args;
use launcher::codec::{decoded_payload, encoded_payload, payload_round_trip};
use launcher::errors::LaunchError;
use launcher::host::HostOs;
use launcher::invoke::{build_invocation, interpret_exit, plan_launch};
use launcher::numbers::{i32_to_dec, u64_to_dec};
use launcher::paths::{join_path, parent_dir};
use launcher::resolve::{candidate_paths, first_present, resolve, resolve_from_snapshot};
use launcher::strategy::{classify, LaunchStrategy};

fn s(t: &str) -> String {
    t.to_owned()
}

#[test]
fn classify_keyword_app_bundle_is_script() {
    match classify(&s("playwright"), HostOs::AppBundle) {
        LaunchStrategy::SidecarScript { script_name } => {
            assert_eq!(script_name, "launch_playwright.js");
        }
        _ => panic!("expected a sidecar script strategy"),
    }
}

#[test]
fn classify_keyword_installer_is_binary() {
    match classify(&s("playwright"), HostOs::Installer) {
        LaunchStrategy::SidecarBinary { binary_name } => {
            assert_eq!(binary_name, "launch_playwright.exe");
        }
        _ => panic!("expected a sidecar binary strategy"),
    }
}

#[test]
fn classify_keyword_other_is_script_with_cjs() {
    match classify(&s("playwright"), HostOs::Other) {
        LaunchStrategy::SidecarScript { script_name } => {
            assert_eq!(script_name, "launch_playwright.cjs");
        }
        _ => panic!("expected a sidecar script strategy"),
    }
}

#[test]
fn classify_other_target_is_direct_on_every_host() {
    for host in [HostOs::AppBundle, HostOs::Installer, HostOs::Other] {
        match classify(&s("/usr/local/bin/myapp"), host) {
            LaunchStrategy::DirectExecutable { program } => {
                assert_eq!(program, "/usr/local/bin/myapp");
            }
            _ => panic!("expected a direct strategy"),
        }
    }
}

#[test]
fn join_path_inserts_one_separator() {
    assert_eq!(join_path("/a/b", "c"), "/a/b/c");
}

#[test]
fn parent_dir_strips_last_component() {
    assert_eq!(parent_dir("/proj/app"), Some(s("/proj")));
    assert_eq!(parent_dir("/top"), Some(s("")));
    assert_eq!(parent_dir("relative"), None);
}

#[test]
fn script_candidates_prefer_cwd_then_parent() {
    let strategy = classify(&s("playwright"), HostOs::AppBundle);
    let cands = candidate_paths(&strategy, &s("/proj/app"), &s(""));
    assert_eq!(
        cands,
        vec![
            s("/proj/app/scripts/launch_playwright.js"),
            s("/proj/scripts/launch_playwright.js"),
        ]
    );
}

#[test]
fn script_candidates_without_parent_are_one() {
    let strategy = classify(&s("playwright"), HostOs::Other);
    let cands = candidate_paths(&strategy, &s("checkout"), &s(""));
    assert_eq!(cands, vec![s("checkout/scripts/launch_playwright.cjs")]);
}

#[test]
fn binary_candidates_cover_three_bundle_layouts() {
    let strategy = classify(&s("playwright"), HostOs::Installer);
    let cands = candidate_paths(&strategy, &s(""), &s("C:/app"));
    assert_eq!(
        cands,
        vec![
            s("C:/app/launch_playwright.exe"),
            s("C:/app/binaries/launch_playwright.exe"),
            s("C:/app/resources/launch_playwright.exe"),
        ]
    );
}

#[test]
fn first_present_picks_earliest() {
    assert_eq!(first_present(&vec![false, true, true]), Some(1));
    assert_eq!(first_present(&vec![true, false]), Some(0));
    assert_eq!(first_present(&vec![false, false]), None);
    assert_eq!(first_present(&vec![]), None);
}

#[test]
fn scenario_only_second_binary_candidate_exists() {
    let strategy = classify(&s("playwright"), HostOs::Installer);
    let present = vec![false, true, false];
    let r = resolve_from_snapshot(&strategy, &s(""), &s("C:/app"), &present, false);
    match r {
        Ok(cmd) => {
            assert_eq!(cmd.executable_path, "C:/app/binaries/launch_playwright.exe");
            assert!(cmd.environment_overrides.is_empty());
        }
        Err(_) => panic!("expected the second candidate to resolve"),
    }
}

#[test]
fn scenario_binary_with_assets_sets_browsers_variable() {
    let strategy = classify(&s("playwright"), HostOs::Installer);
    let present = vec![true, false, false];
    let r = resolve_from_snapshot(&strategy, &s(""), &s("C:/app"), &present, true);
    match r {
        Ok(cmd) => {
            assert_eq!(cmd.executable_path, "C:/app/launch_playwright.exe");
            assert_eq!(cmd.environment_overrides.len(), 1);
            assert_eq!(cmd.environment_overrides[0].name, "PLAYWRIGHT_BROWSERS_PATH");
            assert_eq!(cmd.environment_overrides[0].value, "C:/app/playwright-browsers");
        }
        Err(_) => panic!("expected the first candidate to resolve"),
    }
}

#[test]
fn scenario_no_script_anywhere_is_resource_not_found() {
    let strategy = classify(&s("playwright"), HostOs::Other);
    let present = vec![false, false];
    let r = resolve_from_snapshot(&strategy, &s("/proj/app"), &s(""), &present, false);
    match r {
        Ok(_) => panic!("expected resolution to fail"),
        Err(e) => {
            let msg = e.message();
            assert!(msg.contains("not found"));
            assert_eq!(msg, "launch_playwright.cjs not found");
        }
    }
}

#[test]
fn resolve_idempotent_on_unchanged_snapshot() {
    let strategy = classify(&s("playwright"), HostOs::Installer);
    let present = vec![false, false, true];
    let a = resolve_from_snapshot(&strategy, &s(""), &s("/opt/app"), &present, true).unwrap();
    let b = resolve_from_snapshot(&strategy, &s(""), &s("/opt/app"), &present, true).unwrap();
    assert_eq!(a.executable_path, b.executable_path);
    assert_eq!(a.environment_overrides.len(), b.environment_overrides.len());
    assert_eq!(a.environment_overrides[0].name, b.environment_overrides[0].name);
    assert_eq!(a.environment_overrides[0].value, b.environment_overrides[0].value);
}

#[test]
fn probing_resolver_fails_when_nothing_exists() {
    let strategy = classify(&s("playwright"), HostOs::Other);
    let r = resolve(&strategy, &s("/launcher_test_no_such_dir"), &s(""));
    match r {
        Ok(_) => panic!("expected resolution to fail"),
        Err(e) => assert_eq!(e.message(), "launch_playwright.cjs not found"),
    }
}

#[test]
fn probing_resolver_passes_direct_target_through() {
    let strategy = classify(&s("/usr/local/bin/myapp"), HostOs::AppBundle);
    let cmd = resolve(&strategy, &s("/anywhere"), &s("/anywhere")).unwrap();
    assert_eq!(cmd.executable_path, "/usr/local/bin/myapp");
    assert!(cmd.environment_overrides.is_empty());
}

#[test]
fn scenario_direct_executable_splits_raw_arguments() {
    let target = s("/usr/local/bin/myapp");
    let payload = s("--flag value");
    let r = plan_launch(&target, &payload, HostOs::Other, &s("/anywhere"), &s("/anywhere"));
    let inv = r.unwrap();
    assert_eq!(inv.program, "/usr/local/bin/myapp");
    assert_eq!(inv.args, vec![s("--flag"), s("value")]);
    assert!(inv.env.is_empty());
    assert!(inv.wait_for_exit);
}

#[test]
fn nonzero_exit_yields_exit_code_message() {
    assert!(interpret_exit(true, Some(0)).is_ok());
    let e = interpret_exit(false, Some(3)).unwrap_err();
    assert_eq!(e.message(), "failed to open app: exit code 3");
    let e = interpret_exit(false, None).unwrap_err();
    assert_eq!(e.message(), "failed to open app: exit code unknown");
}

#[test]
fn spawn_failure_message_is_the_os_error_text() {
    let e = LaunchError::SpawnFailed { reason: s("No such file or directory (os error 2)") };
    assert_eq!(e.message(), "No such file or directory (os error 2)");
}

#[test]
fn sidecar_invocation_carries_one_encoded_argument() {
    let strategy = classify(&s("playwright"), HostOs::Installer);
    let present = vec![false, true, false];
    let resolved = resolve_from_snapshot(&strategy, &s(""), &s("C:/app"), &present, false).unwrap();
    let payload = s("{\"url\":\"http://x\"}");
    let inv = build_invocation(&strategy, resolved, &payload);
    assert_eq!(inv.program, "C:/app/binaries/launch_playwright.exe");
    assert_eq!(inv.args.len(), 1);
    assert_eq!(decoded_payload(&inv.args[0]), Some(payload));
    assert!(!inv.wait_for_exit);
}

#[test]
fn script_invocation_prepends_interpreter() {
    let strategy = classify(&s("playwright"), HostOs::AppBundle);
    let present = vec![true, false];
    let resolved =
        resolve_from_snapshot(&strategy, &s("/proj/app"), &s(""), &present, false).unwrap();
    let payload = s("{}");
    let inv = build_invocation(&strategy, resolved, &payload);
    assert_eq!(inv.program, "node");
    assert_eq!(inv.args.len(), 2);
    assert_eq!(inv.args[0], "/proj/app/scripts/launch_playwright.js");
    assert_eq!(decoded_payload(&inv.args[1]), Some(payload));
    assert!(!inv.wait_for_exit);
}

#[test]
fn encoding_is_standard_base64() {
    assert_eq!(encoded_payload(&s("ab")), "YWI=");
    assert_eq!(encoded_payload(&s("")), "");
    let payload = s("{\"url\":\"http://x\",\"note\":\"a b\\\"c\"}");
    let expected = base64::engine::general_purpose::STANDARD.encode(payload.as_bytes());
    assert_eq!(encoded_payload(&payload), expected);
}

#[test]
fn scenario_payload_round_trips_exactly() {
    let payload = s("{\"url\":\"http://x\",\"note\":\"a b\\\"c\"}");
    assert_eq!(payload_round_trip(&payload), payload);
    let tricky = s("spaces  and\nnewlines\tand \"quotes\"");
    assert_eq!(payload_round_trip(&tricky), tricky);
    assert_eq!(decoded_payload(&encoded_payload(&tricky)), Some(tricky));
}

#[test]
fn decoding_garbage_is_none() {
    assert_eq!(decoded_payload(&s("!!!not base64!!!")), None);
}

#[test]
fn split_whitespace_matches_naive_tokenizer() {
    assert_eq!(split_whitespace_args("--flag value"), vec![s("--flag"), s("value")]);
    assert_eq!(split_whitespace_args("  a  b\tc\nd  "), vec![s("a"), s("b"), s("c"), s("d")]);
    assert_eq!(split_whitespace_args(""), Vec::<String>::new());
    assert_eq!(split_whitespace_args("   \t\n"), Vec::<String>::new());
    assert_eq!(split_whitespace_args("one"), vec![s("one")]);
}

#[test]
fn decimal_rendering_is_exact() {
    assert_eq!(u64_to_dec(0), "0");
    assert_eq!(u64_to_dec(1234567890), "1234567890");
    assert_eq!(i32_to_dec(3), "3");
    assert_eq!(i32_to_dec(-17), "-17");
    assert_eq!(i32_to_dec(i32::MIN), "-2147483648");
}

#[test]
fn resource_not_found_message_names_the_file() {
    let e = LaunchError::ResourceNotFound { name: s("launch_playwright.js") };
    assert_eq!(e.message(), "launch_playwright.js not found");
}

#[test]
fn concurrent_style_requests_do_not_interfere() {
    let r1 = plan_launch(
        &s("/bin/first"),
        &s("alpha beta"),
        HostOs::Other,
        &s("/anywhere"),
        &s("/anywhere"),
    );
    let r2 = plan_launch(
        &s("/bin/second"),
        &s("gamma"),
        HostOs::AppBundle,
        &s("/elsewhere"),
        &s("/elsewhere"),
    );
    let inv1 = r1.unwrap();
    let inv2 = r2.unwrap();
    assert_eq!(inv1.program, "/bin/first");
    assert_eq!(inv1.args, vec![s("alpha"), s("beta")]);
    assert_eq!(inv2.program, "/bin/second");
    assert_eq!(inv2.args, vec![s("gamma")]);
}
