use video_client::next_handle;
use video_client::render::{view, view_video, Node};
use video_client::request::{build_request, register_video_mutation};
use video_client::response::{parse_register_video_response, parse_videos_response};
use video_client::state::{
    fetch_videos_outcome, register_video_outcome, ChangeData, Effect, Model, Msg,
};
use video_client::video::{decode_data_url, FileData, Video};

const LIST_BODY: &str = "{\"data\":{\"videos\":[{\"src\":\"a.mp4\"},{\"src\":\"b.mp4\"}]}}";

#[test]
fn build_request_has_fixed_envelope() {
    let r = build_request("{ videos { src } }");
    assert_eq!(r.method, "POST");
    assert_eq!(r.url, "http://localhost:8080/graphql");
    assert_eq!(r.content_type, "application/json");
    assert_eq!(r.body, "{\"query\":\"{ videos { src } }\"}");
}

#[test]
fn build_request_body_is_valid_json() {
    let query = "mutation { registerVideo(key: \"a \\\"quoted\\\" name\", data: \"AAEC\") { src } }";
    let r = build_request(query);
    let parsed: serde_json::Value = serde_json::from_str(&r.body).unwrap();
    assert_eq!(parsed.get("query").unwrap().as_str().unwrap(), query);
}

#[test]
fn build_request_escapes_control_characters() {
    let r = build_request("a\nb");
    assert_eq!(r.body, "{\"query\":\"a\\u000ab\"}");
    let parsed: serde_json::Value = serde_json::from_str(&r.body).unwrap();
    assert_eq!(parsed.get("query").unwrap().as_str().unwrap(), "a\nb");
}

#[test]
fn mutation_text_is_exact() {
    let q = register_video_mutation("a.mp4", "AAEC");
    assert_eq!(
        q,
        "mutation { registerVideo(key: \"a.mp4\", data: \"AAEC\") { src } }"
    );
}

#[test]
fn mutation_escapes_quotes_in_key() {
    let q = register_video_mutation("a\"b\\c", "AAEC");
    assert_eq!(
        q,
        "mutation { registerVideo(key: \"a\\\"b\\\\c\", data: \"AAEC\") { src } }"
    );
}

#[test]
fn parse_videos_success_keeps_server_order() {
    let r = parse_videos_response(LIST_BODY).unwrap();
    assert_eq!(r.videos.len(), 2);
    assert_eq!(r.videos[0].src, "a.mp4");
    assert_eq!(r.videos[1].src, "b.mp4");
}

#[test]
fn parse_videos_accepts_whitespace_and_empty_list() {
    let r = parse_videos_response(" { \"data\" : { \"videos\" : [ ] } } ").unwrap();
    assert_eq!(r.videos.len(), 0);
    let r = parse_videos_response("{ \"data\": {\n\t\"videos\": [ { \"src\": \"x\" } ]\n} }")
        .unwrap();
    assert_eq!(r.videos.len(), 1);
    assert_eq!(r.videos[0].src, "x");
}

#[test]
fn parse_videos_rejects_malformed_bodies() {
    assert!(parse_videos_response("").is_none());
    assert!(parse_videos_response("not json").is_none());
    assert!(parse_videos_response("{\"data\":{\"videos\":[{\"src\":\"a\"}]}").is_none());
    assert!(parse_videos_response("{\"data\":{\"movies\":[]}}").is_none());
    assert!(parse_videos_response("{\"data\":{\"videos\":[]}} trailing").is_none());
    assert!(parse_videos_response("{\"data\":{\"videos\":[{\"src\":\"a\"},]}}").is_none());
}

#[test]
fn parse_register_success() {
    let body = "{\"data\":{\"registerVideo\":{\"src\":\"served/a.mp4\"}}}";
    let r = parse_register_video_response(body).unwrap();
    assert_eq!(r.register_video.src, "served/a.mp4");
    assert!(parse_register_video_response("{\"data\":{\"videos\":[]}}").is_none());
}

#[test]
fn fetch_outcome_demands_success_status_and_shape() {
    assert!(matches!(
        fetch_videos_outcome(200, LIST_BODY),
        Msg::GetVideosCompleted(_)
    ));
    assert!(matches!(
        fetch_videos_outcome(404, LIST_BODY),
        Msg::GetVideosFailed
    ));
    assert!(matches!(
        fetch_videos_outcome(200, "oops"),
        Msg::GetVideosFailed
    ));
    assert!(matches!(
        fetch_videos_outcome(299, LIST_BODY),
        Msg::GetVideosCompleted(_)
    ));
    assert!(matches!(
        fetch_videos_outcome(300, LIST_BODY),
        Msg::GetVideosFailed
    ));
}

#[test]
fn end_to_end_fetch_lists_server_videos() {
    let mut model = Model::create();
    let effects = model.update(Msg::GetVideos);
    assert_eq!(effects.len(), 1);
    match &effects[0] {
        Effect::SendRequest(r) => {
            assert_eq!(r.body, "{\"query\":\"{ videos { src } }\"}");
            assert_eq!(r.url, "http://localhost:8080/graphql");
        }
        _ => panic!("expected a request"),
    }
    assert!(model.fetch_task.is_some());
    let msg = fetch_videos_outcome(200, LIST_BODY);
    let effects = model.update(msg);
    assert!(effects.is_empty());
    assert_eq!(model.videos.len(), 2);
    assert_eq!(model.videos[0].src, "a.mp4");
    assert_eq!(model.videos[1].src, "b.mp4");
    assert!(model.fetch_task.is_none());
    assert!(model.pending_upload.is_none());
}

#[test]
fn fetch_failure_empties_the_list() {
    let mut model = Model::create();
    model.update(Msg::GetVideos);
    model.update(fetch_videos_outcome(200, LIST_BODY));
    assert_eq!(model.videos.len(), 2);
    model.update(Msg::GetVideos);
    let effects = model.update(fetch_videos_outcome(500, LIST_BODY));
    assert_eq!(effects.len(), 1);
    match &effects[0] {
        Effect::Log(line) => assert_eq!(line, "GetVideosFailed"),
        _ => panic!("expected a diagnostic"),
    }
    assert_eq!(model.videos.len(), 0);
    assert!(model.fetch_task.is_none());
}

#[test]
fn selecting_zero_files_changes_nothing() {
    let mut model = Model::create();
    let effects = model.update(Msg::ChooseFile(ChangeData::Files(vec![])));
    assert!(effects.is_empty());
    assert_eq!(model.reader_tasks.len(), 0);
    assert_eq!(model.videos.len(), 0);
    assert!(model.fetch_task.is_none());
}

#[test]
fn non_file_selection_payload_is_ignored() {
    let mut model = Model::create();
    let effects = model.update(Msg::ChooseFile(ChangeData::Value(String::from("x.mp4"))));
    assert_eq!(effects.len(), 1);
    match &effects[0] {
        Effect::Log(line) => assert_eq!(line, "ChooseFile: ignored non-file payload"),
        _ => panic!("expected a diagnostic"),
    }
    assert_eq!(model.reader_tasks.len(), 0);
}

#[test]
fn each_chosen_file_starts_one_read() {
    let mut model = Model::create();
    let effects = model.update(Msg::ChooseFile(ChangeData::Files(vec![7, 8])));
    assert_eq!(effects.len(), 2);
    assert!(matches!(effects[0], Effect::StartRead(7)));
    assert!(matches!(effects[1], Effect::StartRead(8)));
    assert_eq!(model.reader_tasks, vec![7, 8]);
}

#[test]
fn second_fetch_replaces_the_handle() {
    let mut model = Model::create();
    model.update(Msg::GetVideos);
    let first = model.fetch_task;
    model.update(Msg::GetVideos);
    let second = model.fetch_task;
    assert!(first.is_some() && second.is_some());
    assert_ne!(first, second);
    // Both completions are still handled as independent messages.
    model.update(fetch_videos_outcome(200, LIST_BODY));
    assert_eq!(model.videos.len(), 2);
    model.update(fetch_videos_outcome(200, "{\"data\":{\"videos\":[]}}"));
    assert_eq!(model.videos.len(), 0);
}

#[test]
fn handle_allocation_wraps_at_the_top() {
    assert_eq!(next_handle(5), 6);
    assert_eq!(next_handle(u64::MAX), 0);
}

#[test]
fn file_read_appends_data_url_entry() {
    let mut model = Model::create();
    model.update(Msg::ChooseFile(ChangeData::Files(vec![3])));
    let effects = model.update(Msg::FileLoaded(FileData {
        name: String::from("clip.mp4"),
        content: vec![0, 1, 2],
    }));
    assert!(effects.is_empty());
    assert_eq!(model.videos.len(), 1);
    let expected = format!("data:video/mp4;base64,{}", base64::encode(&[0u8, 1, 2]));
    assert_eq!(model.videos[0].src, expected);
    assert_eq!(model.videos[0].src, "data:video/mp4;base64,AAEC");
    let pending = model.pending_upload.as_ref().unwrap();
    assert_eq!(pending.key, "clip.mp4");
    assert_eq!(pending.data, "AAEC");
    assert_eq!(pending.src, "data:video/mp4;base64,AAEC");
}

#[test]
fn video_new_round_trips_the_bytes() {
    let bytes = vec![0u8, 1, 2];
    let v = Video::new(FileData {
        name: String::from("clip.mp4"),
        content: bytes.clone(),
    });
    assert_eq!(v.src, "data:video/mp4;base64,AAEC");
    assert_eq!(decode_data_url(&v.src), Some(bytes.clone()));
    let payload = &v.src["data:video/mp4;base64,".len()..];
    assert_eq!(base64::decode(payload).unwrap(), bytes);
    let empty = Video::new(FileData {
        name: String::from("none"),
        content: vec![],
    });
    assert_eq!(decode_data_url(&empty.src), Some(vec![]));
    assert_eq!(decode_data_url("not a data url"), None);
}

#[test]
fn registration_round_trip_appends_server_entry() {
    let mut model = Model::create();
    model.update(Msg::FileLoaded(FileData {
        name: String::from("clip.mp4"),
        content: vec![0, 1, 2],
    }));
    let effects = model.update(Msg::RegisterVideoRequested);
    assert_eq!(effects.len(), 1);
    match &effects[0] {
        Effect::SendRequest(r) => {
            let parsed: serde_json::Value = serde_json::from_str(&r.body).unwrap();
            assert_eq!(
                parsed.get("query").unwrap().as_str().unwrap(),
                "mutation { registerVideo(key: \"clip.mp4\", data: \"AAEC\") { src } }"
            );
        }
        _ => panic!("expected a request"),
    }
    assert!(model.fetch_task.is_some());
    let body = "{\"data\":{\"registerVideo\":{\"src\":\"served/clip.mp4\"}}}";
    let msg = register_video_outcome(200, body);
    assert!(matches!(msg, Msg::RegisterVideoCompleted(_)));
    let effects = model.update(msg);
    assert_eq!(effects.len(), 1);
    assert!(matches!(&effects[0], Effect::Log(line) if line == "RegisterVideoCompleted"));
    assert_eq!(model.videos.len(), 2);
    assert_eq!(model.videos[1].src, "served/clip.mp4");
    assert!(model.fetch_task.is_none());
    assert!(model.pending_upload.is_none());
}

#[test]
fn registration_failure_keeps_optimistic_entry() {
    let mut model = Model::create();
    model.update(Msg::FileLoaded(FileData {
        name: String::from("clip.mp4"),
        content: vec![0, 1, 2],
    }));
    assert_eq!(model.videos.len(), 1);
    model.update(Msg::RegisterVideoRequested);
    let msg = register_video_outcome(500, "");
    assert!(matches!(msg, Msg::RegisterVideoFailed));
    let effects = model.update(msg);
    assert_eq!(effects.len(), 1);
    assert!(matches!(&effects[0], Effect::Log(line) if line == "RegisterVideoFailed"));
    assert_eq!(model.videos.len(), 1);
    assert!(model.fetch_task.is_none());
    assert!(model.pending_upload.is_none());
}

#[test]
fn registration_request_without_pending_upload_does_nothing() {
    let mut model = Model::create();
    let effects = model.update(Msg::RegisterVideoRequested);
    assert!(effects.is_empty());
    assert!(model.fetch_task.is_none());
}

#[test]
fn view_renders_one_player_per_video() {
    let mut model = Model::create();
    model.update(fetch_videos_outcome(200, LIST_BODY));
    let page = view(&model);
    assert_eq!(page.children.len(), 4);
    match &page.children[0] {
        Node::Button { label } => assert_eq!(label, "Get Videos"),
        _ => panic!("expected the fetch button"),
    }
    assert!(matches!(page.children[1], Node::FileInput));
    match &page.children[2] {
        Node::VideoPlayer { src, autoplay, muted, looped, playsinline } => {
            assert_eq!(src, "a.mp4");
            assert!(*autoplay && *muted && *looped && *playsinline);
        }
        _ => panic!("expected a player"),
    }
    match &page.children[3] {
        Node::VideoPlayer { src, .. } => assert_eq!(src, "b.mp4"),
        _ => panic!("expected a player"),
    }
}

#[test]
fn view_video_builds_inline_player() {
    let n = view_video(&Video {
        src: String::from("a.mp4"),
    });
    match n {
        Node::VideoPlayer { src, autoplay, muted, looped, playsinline } => {
            assert_eq!(src, "a.mp4");
            assert!(autoplay && muted && looped && playsinline);
        }
        _ => panic!("expected a player"),
    }
}
