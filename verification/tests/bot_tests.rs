use ghostfeed::discord::{channels_to_delete, convo_channel_text, convo_list_text, first_guild};
use ghostfeed::engine::{Convo, ConvoParticipant, Engine};
use ghostfeed::error::Error;
use ghostfeed::json::JsonValue;
use ghostfeed::server::{get_response, post_action, post_outcome, PostAction};
use ghostfeed::service::{service_panic_report, service_task_result, ReportLevel};
use ghostfeed::state::State;
use ghostfeed::webhook_server::{health, instagram_get, instagram_post, WebhookResponse};
use ghostfeed::{handle_service_result, InstagramWebhookParams, TaskResult, TaskResultKind};

fn p(id: &str, username: &str) -> ConvoParticipant {
    ConvoParticipant { id: id.to_string(), username: username.to_string() }
}

fn convo(id: &str, ps: Vec<ConvoParticipant>) -> Convo {
    Convo { id: id.to_string(), participants: ps }
}

fn state() -> State {
    let me = JsonValue::Object(vec![("id".to_string(), JsonValue::String("1".to_string()))]);
    State::new(Engine::new("TOKEN", "HOOK", &me).unwrap())
}

fn params(token: &str, challenge: i32) -> InstagramWebhookParams {
    InstagramWebhookParams {
        hub_mode: "subscribe".to_string(),
        hub_verify_token: token.to_string(),
        hub_challenge: challenge,
    }
}

fn response(status: u16, body: &str) -> WebhookResponse {
    WebhookResponse { status, body: body.to_string() }
}

#[test]
fn channel_text_lists_every_participant() {
    let c = convo("c1", vec![p("1", "ann"), p("2", "bob")]);
    assert_eq!(convo_channel_text(&c), "ann: (1, c1) \nbob: (2, c1) \n");
    assert_eq!(convo_channel_text(&convo("c2", vec![])), "");
}

#[test]
fn convo_list_names_the_other_participant() {
    let cs = vec![
        convo("c1", vec![p("9", "iaminthebasement"), p("1", "ann")]),
        convo("c2", vec![p("2", "bob"), p("9", "iaminthebasement")]),
        convo("c3", vec![p("9", "iaminthebasement")]),
    ];
    assert_eq!(convo_list_text(&cs), "ann: (1, c1) \nbob: (2, c2) \n\n");
    assert_eq!(convo_list_text(&vec![]), "");
}

#[test]
fn setup_keeps_only_the_moderation_channel() {
    let channels = vec![
        (1u64, "general".to_string()),
        (2u64, "mod".to_string()),
        (3u64, "c1".to_string()),
    ];
    assert_eq!(channels_to_delete(&channels), vec![1, 3]);
    assert_eq!(channels_to_delete(&vec![(7u64, "mod".to_string())]), Vec::<u64>::new());
}

#[test]
fn first_guild_or_error() {
    assert_eq!(first_guild(&vec![5, 6]), Ok(5));
    assert_eq!(
        first_guild(&vec![]),
        Err(Error::SerenityError("Bot is not installed in any guilds".to_string()))
    );
}

#[test]
fn handshake_echoes_challenge_for_the_right_token() {
    let s = state();
    assert_eq!(instagram_get(&s, &params("HOOK", 1158201444)), response(200, "1158201444"));
    assert_eq!(instagram_get(&s, &params("HOOK", -7)), response(200, "-7"));
    assert_eq!(instagram_get(&s, &params("nope", 1158201444)), response(200, ""));
}

#[test]
fn post_and_health_answers() {
    let s = state();
    assert_eq!(instagram_post(&s, &JsonValue::Null), response(200, ""));
    assert_eq!(health(), response(200, "HEALTHY"));
}

#[test]
fn platform_routes() {
    assert_eq!(get_response("tiktok", &params("HOOK", 3), "HOOK"), response(405, "NOT SUPPORTED"));
    assert_eq!(get_response("instagram", &params("HOOK", 3), "HOOK"), response(200, "3"));
    assert_eq!(get_response("instagram", &params("x", 3), "HOOK"), response(200, "HEALTHY"));
    assert_eq!(post_action("instagram"), PostAction::Forward);
    assert_eq!(post_action("tiktok"), PostAction::Reject(response(405, "NOT SUPPORTED")));
    assert_eq!(post_outcome(true), response(200, "HEALTHY"));
    assert_eq!(post_outcome(false), response(500, "FAILED"));
}

#[test]
fn task_results() {
    assert_eq!(
        service_task_result("web", None),
        TaskResult("web".to_string(), TaskResultKind::Shutdown)
    );
    assert_eq!(
        service_task_result("web", Some(Ok(()))),
        TaskResult("web".to_string(), TaskResultKind::Completed)
    );
    assert_eq!(
        service_task_result("web", Some(Err(Error::IOError("x".to_string())))),
        TaskResult("web".to_string(), TaskResultKind::Failed(Error::IOError("x".to_string())))
    );
}

#[test]
fn service_reports() {
    let done = handle_service_result(Ok(TaskResult("web".to_string(), TaskResultKind::Completed)));
    assert_eq!(done.level, ReportLevel::Info);
    assert_eq!(done.message, "web service completed without failure");
    let failed = handle_service_result(Ok(TaskResult(
        "bot".to_string(),
        TaskResultKind::Failed(Error::DeserializeError("Invalid or missing user[id]".to_string())),
    )));
    assert_eq!(failed.level, ReportLevel::Error);
    assert_eq!(
        failed.message,
        "bot service failed with error: deserialize error: Invalid or missing user[id]"
    );
    let down = handle_service_result(Ok(TaskResult("bot".to_string(), TaskResultKind::Shutdown)));
    assert_eq!(down.level, ReportLevel::Info);
    assert_eq!(down.message, "bot service shutdown");
}

#[test]
fn service_report_for_cancelled_task() {
    let rt = tokio::runtime::Builder::new_current_thread().enable_all().build().unwrap();
    let joined = rt.block_on(async {
        let handle = tokio::spawn(async {
            std::future::pending::<()>().await;
            TaskResult("never".to_string(), TaskResultKind::Completed)
        });
        handle.abort();
        handle.await
    });
    let report = handle_service_result(joined);
    assert_eq!(report.level, ReportLevel::Error);
    assert!(report.message.starts_with("Service task paniched: task "));
    assert!(report.message.ends_with("was cancelled"));
    assert_eq!(report.message.matches("task ").count(), 2);
}

#[test]
fn error_descriptions() {
    assert_eq!(Error::InvalidHeaderValue.description(), "invalid header value");
    assert_eq!(Error::IOError("missing".to_string()).description(), "io error: missing");
    assert_eq!(Error::SerenityError("s".to_string()).description(), "discord error: s");
}

#[test]
fn panic_report_keeps_whole_text() {
    let r = service_panic_report("task 12 panicked with message \"boom\"");
    assert_eq!(r.level, ReportLevel::Error);
    assert_eq!(r.message, "Service task paniched: task 12 panicked with message \"boom\"");
}

#[test]
fn cancelled_report_names_a_task_id() {
    let rt = tokio::runtime::Builder::new_current_thread().enable_all().build().unwrap();
    let joined = rt.block_on(async {
        let handle = tokio::spawn(async {
            std::future::pending::<()>().await;
            TaskResult("never".to_string(), TaskResultKind::Completed)
        });
        handle.abort();
        handle.await
    });
    let report = handle_service_result(joined);
    let rest = report.message.strip_prefix("Service task paniched: task ").unwrap();
    let id = rest.strip_suffix(" was cancelled").unwrap();
    assert!(id.parse::<u64>().unwrap() >= 1);
}
