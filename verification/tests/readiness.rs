use stardelt_operator::json::Json;
use stardelt_operator::readiness::{condition_at, ready_condition_true, upsert, Condition};

fn cond(t: &str, status: bool, reason: &str, time: &str) -> Condition {
    condition_at(t, status, reason, format!("{t}: {reason}"), time.to_string())
}

#[test]
fn upsert_appends_new_type() {
    let mut cs = vec![cond("A", true, "Ready", "t0")];
    upsert(&mut cs, cond("B", false, "NotReady", "t1"));
    assert_eq!(cs.len(), 2);
    assert_eq!(cs[1].type_, "B");
    assert_eq!(cs[1].status, "False");
}

#[test]
fn upsert_keeps_time_when_status_unchanged() {
    let mut cs = vec![cond("A", true, "Ready", "t0")];
    upsert(&mut cs, cond("A", true, "StillReady", "t1"));
    assert_eq!(cs.len(), 1);
    assert_eq!(cs[0].reason, "StillReady");
    assert_eq!(cs[0].last_transition_time, "t0");
}

#[test]
fn upsert_restamps_time_when_status_changes() {
    let mut cs = vec![cond("A", true, "Ready", "t0")];
    upsert(&mut cs, cond("A", false, "NotReady", "t1"));
    assert_eq!(cs.len(), 1);
    assert_eq!(cs[0].status, "False");
    assert_eq!(cs[0].last_transition_time, "t1");
}

#[test]
fn ready_condition_detected() {
    let obj = Json::object().with(
        "status",
        Json::object().with(
            "conditions",
            Json::array()
                .push(Json::object().with("type", Json::text("Other")).with("status", Json::text("True")))
                .push(Json::object().with("type", Json::text("Ready")).with("status", Json::text("True"))),
        ),
    );
    assert!(ready_condition_true(&obj));
    let not_ready = Json::object().with(
        "status",
        Json::object().with(
            "conditions",
            Json::array().push(Json::object().with("type", Json::text("Ready")).with("status", Json::text("False"))),
        ),
    );
    assert!(!ready_condition_true(&not_ready));
    assert!(!ready_condition_true(&Json::object()));
}
