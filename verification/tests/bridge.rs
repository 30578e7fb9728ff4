//! End-to-end tests of the bridge against a scripted stand-in for the native
//! Tor library: the stub records every directed call and returns the next
//! scripted code, exactly as an instrumented native library would.

use tor_bridge::controller::{Action, ArgSet, Controller, Outcome, outcome_message};
use tor_bridge::encode::{EncodeError, EncodedArgs};
use tor_bridge::args::{build_run_vector, build_verify_vector};
use tor_bridge::{prepare, Invocation};

/// Decodes the tokens back out of an encoded vector, checking that every
/// buffer is null-terminated and holds no interior null byte.
fn decoded_tokens(enc: &EncodedArgs) -> Vec<String> {
    let mut out: Vec<String> = Vec::new();
    for buf in enc.buffers() {
        assert!(!buf.is_empty());
        assert_eq!(buf[buf.len() - 1], 0u8);
        let body = &buf[..buf.len() - 1];
        assert!(!body.contains(&0u8));
        out.push(String::from_utf8(body.to_vec()).unwrap());
    }
    out
}

/// Runs one whole bridge invocation against a scripted stub. `alloc_ok`
/// scripts the allocation; `codes` scripts the native return codes in step
/// order. Returns the host-visible result string and the recorded calls.
fn drive(host: &[&str], alloc_ok: bool, codes: &[i32]) -> (String, Vec<String>) {
    let host_vec: Vec<String> = host.iter().map(|s| s.to_string()).collect();
    let inv: Invocation = prepare(&host_vec).expect("encoding was expected to succeed");
    let Invocation { verify_args, run_args, controller } = inv;
    let mut controller: Controller = controller;
    let mut trace: Vec<String> = Vec::new();
    let mut next_code = codes.iter();
    loop {
        match controller.next_action() {
            Action::Allocate => {
                trace.push("alloc".to_string());
                controller.note_allocated(alloc_ok);
            }
            Action::SetCommandLine(which) => {
                let enc = match which {
                    ArgSet::Verify => &verify_args,
                    ArgSet::Run => &run_args,
                };
                assert!(enc.count() as usize == enc.buffers().len());
                trace.push(format!("set_cmdline {}", decoded_tokens(enc).join(" ")));
                controller.note_step_code(*next_code.next().expect("stub script exhausted"));
            }
            Action::RunMain => {
                trace.push("run_main".to_string());
                controller.note_step_code(*next_code.next().expect("stub script exhausted"));
            }
            Action::FreeConfig => {
                trace.push("free".to_string());
                controller.note_freed();
            }
            Action::Report => break,
        }
    }
    (controller.report().to_string(), trace)
}

#[test]
fn empty_args_all_success() {
    let (result, trace) = drive(&[], true, &[0, 0, 0, 0]);
    assert_eq!(result, "");
    assert_eq!(
        trace,
        vec![
            "alloc".to_string(),
            "set_cmdline tor --verify-config".to_string(),
            "run_main".to_string(),
            "set_cmdline tor".to_string(),
            "run_main".to_string(),
            "free".to_string(),
        ]
    );
}

#[test]
fn one_setting_all_success() {
    let (result, trace) = drive(&["--SocksPort", "9050"], true, &[0, 0, 0, 0]);
    assert_eq!(result, "");
    assert_eq!(trace[1], "set_cmdline tor --verify-config --SocksPort 9050");
    assert_eq!(trace[3], "set_cmdline tor --SocksPort 9050");
    assert_eq!(trace.len(), 6);
}

#[test]
fn verification_rejection() {
    let (result, trace) = drive(&["--bogus"], true, &[0, 1]);
    assert_eq!(result, "Failed to verify args. Tor does not like a setting.");
    assert_eq!(
        trace,
        vec![
            "alloc".to_string(),
            "set_cmdline tor --verify-config --bogus".to_string(),
            "run_main".to_string(),
            "free".to_string(),
        ]
    );
}

#[test]
fn allocation_failure() {
    let (result, trace) = drive(&[], false, &[]);
    assert_eq!(result, "TorConfig was null.");
    assert_eq!(trace, vec!["alloc".to_string()]);
}

#[test]
fn run_rejection_after_successful_verify() {
    let (result, trace) = drive(&["--ControlPort", "auto"], true, &[0, 0, 0, 1]);
    assert_eq!(result, "Failed to run args.");
    assert_eq!(
        trace,
        vec![
            "alloc".to_string(),
            "set_cmdline tor --verify-config --ControlPort auto".to_string(),
            "run_main".to_string(),
            "set_cmdline tor --ControlPort auto".to_string(),
            "run_main".to_string(),
            "free".to_string(),
        ]
    );
}

#[test]
fn set_verify_args_rejection() {
    let (result, trace) = drive(&["--SocksPort", "9050"], true, &[3]);
    assert_eq!(result, "Failed to set args for verification.");
    assert_eq!(trace.len(), 3);
    assert_eq!(trace[2], "free");
}

#[test]
fn set_run_args_rejection() {
    let (result, trace) = drive(&[], true, &[0, 0, -2]);
    assert_eq!(result, "Failed to set args to run.");
    assert_eq!(trace.len(), 5);
    assert_eq!(trace[4], "free");
}

#[test]
fn encoding_failure_short_circuits() {
    let host: Vec<String> = vec!["foo\0bar".to_string()];
    match prepare(&host) {
        Ok(_) => panic!("a token with an interior null byte must not encode"),
        Err(e) => assert_eq!(e, EncodeError::InteriorNul(0)),
    }
}

#[test]
fn encoding_failure_reports_first_bad_token() {
    let host: Vec<String> = vec!["fine".to_string(), "ba\0d".to_string(), "al\0so".to_string()];
    match prepare(&host) {
        Ok(_) => panic!("a token with an interior null byte must not encode"),
        Err(e) => assert_eq!(e, EncodeError::InteriorNul(1)),
    }
}

#[test]
fn verify_vector_form() {
    let host: Vec<String> = vec!["--A".to_string(), "b".to_string(), "--A".to_string()];
    let v = build_verify_vector(&host);
    assert_eq!(v, vec!["tor", "--verify-config", "--A", "b", "--A"]);
}

#[test]
fn run_vector_form() {
    let host: Vec<String> = vec!["--A".to_string(), "b".to_string()];
    let v = build_run_vector(&host);
    assert_eq!(v, vec!["tor", "--A", "b"]);
    let empty: Vec<String> = Vec::new();
    assert_eq!(build_run_vector(&empty), vec!["tor"]);
    assert_eq!(build_verify_vector(&empty), vec!["tor", "--verify-config"]);
}

#[test]
fn encoded_buffers_are_null_terminated_copies() {
    let host: Vec<String> = vec!["caf\u{e9}".to_string()];
    let inv = prepare(&host).unwrap();
    let bufs = inv.verify_args.buffers();
    assert_eq!(inv.verify_args.count(), 3);
    assert_eq!(bufs[0], b"tor\0".to_vec());
    assert_eq!(bufs[1], b"--verify-config\0".to_vec());
    assert_eq!(bufs[2], vec![b'c', b'a', b'f', 0xc3u8, 0xa9u8, 0u8]);
    let run_bufs = inv.run_args.buffers();
    assert_eq!(inv.run_args.count(), 2);
    assert_eq!(run_bufs[1], bufs[2]);
}

#[test]
fn outcome_messages_are_fixed() {
    assert_eq!(outcome_message(Outcome::Success), "");
    assert_eq!(outcome_message(Outcome::NullConfig), "TorConfig was null.");
    assert_eq!(
        outcome_message(Outcome::StepFailed(tor_bridge::controller::Step::SetVerifyArgs)),
        "Failed to set args for verification."
    );
    assert_eq!(
        outcome_message(Outcome::StepFailed(tor_bridge::controller::Step::RunVerify)),
        "Failed to verify args. Tor does not like a setting."
    );
    assert_eq!(
        outcome_message(Outcome::StepFailed(tor_bridge::controller::Step::SetRunArgs)),
        "Failed to set args to run."
    );
    assert_eq!(
        outcome_message(Outcome::StepFailed(tor_bridge::controller::Step::RunTor)),
        "Failed to run args."
    );
}
