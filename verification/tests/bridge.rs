use desktop_shell::dialog::{
    export_finish, export_plan, import_finish, import_plan, DialogOutcome, ExportPlan, ImportPlan,
};
use desktop_shell::error::BridgeError;
use desktop_shell::notify::{notification_request, notify_finish};
use std::collections::HashMap;

#[test]
fn export_chosen_path_plans_exact_write() {
    let plan = export_plan(
        "{\"a\":1}".to_string(),
        DialogOutcome::Chosen("/tmp/out.json".to_string()),
    );
    match plan {
        ExportPlan::Write { path, data } => {
            assert_eq!(path, "/tmp/out.json");
            assert_eq!(data, "{\"a\":1}");
        }
        ExportPlan::Fail { .. } => panic!("a confirmed path must plan a write"),
    }
}

#[test]
fn export_chosen_path_returns_that_path() {
    let result = export_finish("/tmp/out.json".to_string(), Ok(()));
    assert_eq!(result.unwrap(), "/tmp/out.json");
}

#[test]
fn export_cancel_is_cancellation_not_filesystem_error() {
    let plan = export_plan("anything".to_string(), DialogOutcome::Cancelled);
    match plan {
        ExportPlan::Fail { error } => {
            assert!(error.is_cancelled());
            assert_eq!(error.message(), "user cancelled");
        }
        ExportPlan::Write { .. } => panic!("a dismissed dialog must not plan a write"),
    }
}

#[test]
fn export_write_failure_carries_message() {
    let result = export_finish("/tmp/out.json".to_string(), Err("disk full".to_string()));
    let error = result.unwrap_err();
    assert!(!error.is_cancelled());
    assert_eq!(error.message(), "disk full");
}

#[test]
fn export_unusable_reference_is_host_error() {
    let plan = export_plan(
        "x".to_string(),
        DialogOutcome::Unusable("invalid path".to_string()),
    );
    match plan {
        ExportPlan::Fail { error } => {
            assert!(!error.is_cancelled());
            assert_eq!(error.message(), "invalid path");
        }
        ExportPlan::Write { .. } => panic!("an unusable reference must not plan a write"),
    }
}

#[test]
fn import_cancel_is_cancellation_not_decode_error() {
    let plan = import_plan(DialogOutcome::Cancelled);
    match plan {
        ImportPlan::Fail { error } => {
            assert!(error.is_cancelled());
            assert_eq!(error.message(), "user cancelled");
        }
        ImportPlan::Read { .. } => panic!("a dismissed dialog must not plan a read"),
    }
}

#[test]
fn import_read_failure_carries_message() {
    let result = import_finish(Err("stream did not contain valid UTF-8".to_string()));
    let error = result.unwrap_err();
    assert!(!error.is_cancelled());
    assert_eq!(error.message(), "stream did not contain valid UTF-8");
}

#[test]
fn import_returns_read_text_unchanged() {
    let result = import_finish(Ok("line one\nline two".to_string()));
    assert_eq!(result.unwrap(), "line one\nline two");
}

#[test]
fn export_then_import_round_trips() {
    let payload = "{\"a\":1}".to_string();
    let mut fs: HashMap<String, String> = HashMap::new();

    let plan = export_plan(
        payload.clone(),
        DialogOutcome::Chosen("/tmp/out.json".to_string()),
    );
    let exported = match plan {
        ExportPlan::Write { path, data } => {
            fs.insert(path.clone(), data);
            export_finish(path, Ok(()))
        }
        ExportPlan::Fail { error } => Err(error),
    };
    let chosen = exported.unwrap();
    assert_eq!(chosen, "/tmp/out.json");
    assert_eq!(fs.get(&chosen).unwrap(), "{\"a\":1}");

    let plan = import_plan(DialogOutcome::Chosen(chosen));
    let imported = match plan {
        ImportPlan::Read { path } => import_finish(Ok(fs.get(&path).unwrap().clone())),
        ImportPlan::Fail { error } => Err(error),
    };
    assert_eq!(imported.unwrap(), payload);
}

#[test]
fn notification_accepts_empty_title() {
    let request = notification_request("".to_string(), "a body".to_string());
    assert_eq!(request.title, "");
    assert_eq!(request.body, "a body");
    assert!(notify_finish(Ok(())).is_ok());
}

#[test]
fn notification_keeps_fields_unchanged() {
    let request = notification_request("Reminder".to_string(), "".to_string());
    assert_eq!(request.title, "Reminder");
    assert_eq!(request.body, "");
}

#[test]
fn notification_host_refusal_carries_message() {
    let result = notify_finish(Err("permission denied".to_string()));
    let error = result.unwrap_err();
    assert!(!error.is_cancelled());
    assert_eq!(error.message(), "permission denied");
}

#[test]
fn cancellation_message_is_fixed() {
    assert_eq!(BridgeError::Cancelled.message(), "user cancelled");
    assert!(BridgeError::Cancelled.is_cancelled());
    assert!(!BridgeError::Host("x".to_string()).is_cancelled());
}
