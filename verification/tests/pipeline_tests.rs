use voiceloop::pipeline::{Pipeline, PipelineState, SynthBackend};
use voiceloop::status::check_status;
use voiceloop::turn::Role;

fn fresh(limit: usize) -> Pipeline {
    Pipeline::new(String::new(), limit, String::new(), SynthBackend::Styled)
}

#[test]
fn full_cycle_records_user_then_assistant() {
    let mut p = fresh(4);
    assert!(matches!(p.current_state(), PipelineState::WaitingForTrigger));
    p.on_start_signal();
    assert!(matches!(p.current_state(), PipelineState::Recording));
    p.on_stop_signal();
    assert!(matches!(p.current_state(), PipelineState::Transcribing));

    let chat = p
        .on_transcription_response(200, "{\"text\": \"turn the lights on\"}")
        .unwrap();
    assert_eq!(
        chat,
        "{\"model\": \"gpt-4o\", \"messages\": [\
         {\"role\": \"user\", \"content\": \"turn the lights on\"}]}"
    );
    assert!(matches!(p.current_state(), PipelineState::AwaitingReply));

    let synth = p
        .on_chat_response(
            200,
            "{\"choices\":[{\"message\":{\"content\":\"Sure, doing that now.\"}}]}",
        )
        .unwrap();
    assert!(synth.contains("Sure, doing that now."));
    assert!(matches!(p.current_state(), PipelineState::Synthesizing));

    assert_eq!(p.turn_count(), 2);
    assert!(matches!(p.turn_role(0), Role::User));
    assert_eq!(p.turn_text(0), "turn the lights on");
    assert!(matches!(p.turn_role(1), Role::Assistant));
    assert_eq!(p.turn_text(1), "Sure, doing that now.");

    let audio = p.on_synthesis_response(200, vec![1, 2, 3]).unwrap();
    assert_eq!(audio, vec![1, 2, 3]);
    assert!(matches!(p.current_state(), PipelineState::Playing));
    p.on_playback_started();
    assert!(matches!(p.current_state(), PipelineState::WaitingForTrigger));
    assert_eq!(p.turn_count(), 2);
}

#[test]
fn fatal_transcription_status_keeps_history_empty() {
    let mut p = fresh(4);
    p.on_start_signal();
    p.on_stop_signal();
    let err = p
        .on_transcription_response(401, "{\"error\":\"invalid key\"}")
        .unwrap_err();
    let msg = err.message();
    assert!(msg.contains("401"));
    assert!(msg.contains("{\"error\":\"invalid key\"}"));
    assert_eq!(msg, "Error: status 401, {\"error\":\"invalid key\"}");
    assert_eq!(p.turn_count(), 0);
    assert!(matches!(p.current_state(), PipelineState::Transcribing));
}

#[test]
fn misshapen_transcription_body_is_fatal() {
    let mut p = fresh(4);
    p.on_start_signal();
    p.on_stop_signal();
    let err = p
        .on_transcription_response(200, "{\"nothing\": 1}")
        .unwrap_err();
    assert_eq!(err.status, 200);
    assert_eq!(err.body, "{\"nothing\": 1}");
    assert_eq!(p.turn_count(), 0);
}

#[test]
fn misshapen_chat_body_is_fatal_and_appends_nothing() {
    let mut p = fresh(4);
    p.on_start_signal();
    p.on_stop_signal();
    p.on_transcription_response(200, "{\"text\": \"hello\"}")
        .unwrap();
    let err = p.on_chat_response(200, "{\"choices\": []}").unwrap_err();
    assert_eq!(err.status, 200);
    assert_eq!(p.turn_count(), 1);
    assert!(matches!(p.current_state(), PipelineState::AwaitingReply));
}

#[test]
fn fatal_chat_status_captures_body() {
    let mut p = fresh(4);
    p.on_start_signal();
    p.on_stop_signal();
    p.on_transcription_response(200, "{\"text\": \"hello\"}")
        .unwrap();
    let err = p.on_chat_response(503, "overloaded").unwrap_err();
    assert_eq!(err.status, 503);
    assert_eq!(err.body, "overloaded");
    assert_eq!(p.turn_count(), 1);
}

#[test]
fn fatal_synthesis_status_decodes_body_for_diagnostic() {
    let mut p = fresh(4);
    p.on_start_signal();
    p.on_stop_signal();
    p.on_transcription_response(200, "{\"text\": \"hello\"}")
        .unwrap();
    p.on_chat_response(
        200,
        "{\"choices\":[{\"message\":{\"content\":\"hi\"}}]}",
    )
    .unwrap();
    let err = p
        .on_synthesis_response(500, b"synthesis down".to_vec())
        .unwrap_err();
    assert_eq!(err.status, 500);
    assert_eq!(err.body, "synthesis down");
    assert!(matches!(p.current_state(), PipelineState::Synthesizing));
}

#[test]
fn history_limit_applies_across_cycles() {
    let mut p = fresh(2);
    for i in 0..3 {
        p.on_start_signal();
        p.on_stop_signal();
        let transcript = format!("{{\"text\": \"question {}\"}}", i);
        p.on_transcription_response(200, &transcript).unwrap();
        let reply = format!(
            "{{\"choices\":[{{\"message\":{{\"content\":\"answer {}\"}}}}]}}",
            i
        );
        p.on_chat_response(200, &reply).unwrap();
        p.on_synthesis_response(200, vec![0]).unwrap();
        p.on_playback_started();
    }
    assert_eq!(p.turn_count(), 2);
    assert_eq!(p.turn_text(0), "question 2");
    assert_eq!(p.turn_text(1), "answer 2");
}

#[test]
fn plain_backend_builds_the_plain_body() {
    let mut p = Pipeline::new(String::new(), 4, String::from("alloy"), SynthBackend::Plain);
    p.on_start_signal();
    p.on_stop_signal();
    p.on_transcription_response(200, "{\"text\": \"hi\"}").unwrap();
    let body = p
        .on_chat_response(200, "{\"choices\":[{\"message\":{\"content\":\"hello\"}}]}")
        .unwrap();
    assert_eq!(
        body,
        "{\"model\": \"tts-1\", \"input\": \"hello\", \"voice\": \"alloy\"}"
    );
}

#[test]
fn prompt_is_rendered_into_every_chat_request() {
    let mut p = Pipeline::new(
        String::from("be brief"),
        4,
        String::new(),
        SynthBackend::Styled,
    );
    p.on_start_signal();
    p.on_stop_signal();
    let chat = p
        .on_transcription_response(200, "{\"text\": \"hi\"}")
        .unwrap();
    assert_eq!(
        chat,
        "{\"model\": \"gpt-4o\", \"messages\": [\
         {\"role\": \"system\", \"content\": \"be brief\"},\
         {\"role\": \"user\", \"content\": \"hi\"}]}"
    );
}

#[test]
fn check_status_boundaries() {
    assert!(check_status(200, "").is_ok());
    assert!(check_status(299, "").is_ok());
    let err = check_status(199, "low").unwrap_err();
    assert_eq!(err.status, 199);
    assert_eq!(err.body, "low");
    let err = check_status(300, "redirect").unwrap_err();
    assert_eq!(err.status, 300);
    let err = check_status(404, "missing").unwrap_err();
    assert_eq!(err.message(), "Error: status 404, missing");
}

#[test]
fn invalid_json_body_is_fatal() {
    let mut p = fresh(4);
    p.on_start_signal();
    p.on_stop_signal();
    let err = p.on_transcription_response(200, "not json").unwrap_err();
    assert_eq!(err.status, 200);
    assert_eq!(err.body, "not json");
    assert_eq!(p.turn_count(), 0);
}

#[test]
fn render_on_pipeline_matches_history() {
    let mut p = Pipeline::new(
        String::from("be brief"),
        4,
        String::new(),
        SynthBackend::Styled,
    );
    p.on_start_signal();
    p.on_stop_signal();
    p.on_transcription_response(200, "{\"text\": \"hi\"}").unwrap();
    let first = p.render();
    let second = p.render();
    assert_eq!(first, second);
    assert_eq!(first.len(), 2);
    assert_eq!(first[0], "{\"role\": \"system\", \"content\": \"be brief\"}");
    assert_eq!(first[1], "{\"role\": \"user\", \"content\": \"hi\"}");
}
