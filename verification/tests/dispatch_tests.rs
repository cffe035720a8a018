use serde_json::Value;
use swarmfs_tui::ipc::RpcError;
use swarmfs_tui::jobs::{
    after_overview, after_topic_call, info_call, overview_call, topic_call, Dispatcher, JoinLeaveMsg,
    JoinLeaveStep, TopicOp, VerifyBatch, VerifyMsg, VerifyStep,
};
use swarmfs_tui::tabs::network::{parse_overview_topics, topic_create_call, NetworkTab};
use swarmfs_tui::app::status_call;
use swarmfs_tui::tabs::stubs::{list_call, parse_files_list, remove_call, FilesTab, InfoMsg};

fn json(text: &str) -> Value {
    serde_json::from_str(text).unwrap()
}

#[test]
fn dispatch_counts_generations_up() {
    let mut jobs = Dispatcher::new();
    assert_eq!(jobs.current(), 0);
    let generations: Vec<u64> = (0..5).map(|_| jobs.dispatch()).collect();
    assert_eq!(generations, vec![1, 2, 3, 4, 5]);
    assert_eq!(jobs.current(), 5);
    assert!(jobs.accepts(5));
    for stale in 0..5 {
        assert!(!jobs.accepts(stale));
    }
    assert!(!jobs.accepts(6));
}

#[test]
fn operation_classes_count_apart() {
    let mut join = Dispatcher::new();
    let mut verify = Dispatcher::new();
    assert_eq!(join.dispatch(), 1);
    assert_eq!(join.dispatch(), 2);
    assert_eq!(verify.dispatch(), 1);
    assert!(verify.accepts(1));
    assert!(join.accepts(2));
}

#[test]
fn drain_keeps_current_messages_in_order() {
    let mut jobs = Dispatcher::new();
    jobs.dispatch();
    jobs.dispatch();
    let queue = vec![(1, "old"), (2, "a"), (3, "future"), (2, "b"), (1, "older"), (2, "c")];
    assert_eq!(jobs.drain(queue), vec!["a", "b", "c"]);
    assert_eq!(jobs.drain(vec![(1, "old"), (0, "none")]), Vec::<&str>::new());
    assert_eq!(jobs.drain(Vec::<(u64, u8)>::new()), Vec::<u8>::new());
}

fn overview(names: &[&str]) -> Value {
    let topics: Vec<String> = names
        .iter()
        .map(|n| format!("{{\"name\":\"{}\",\"joined\":true,\"peers\":2}}", n))
        .collect();
    json(&format!("{{\"topics\":[{}]}}", topics.join(",")))
}

#[test]
fn stale_join_result_changes_nothing() {
    let mut tab = NetworkTab::new();
    tab.refresh(Ok(overview(&["A", "B"])));
    tab.selected = Some(0);
    let first = tab.join_selected().unwrap();
    assert_eq!((first.generation, first.name.as_str()), (1, "A"));
    assert_eq!(first.op, TopicOp::Join);
    tab.selected = Some(1);
    let second = tab.join_selected().unwrap();
    assert_eq!((second.generation, second.name.as_str()), (2, "B"));
    assert_eq!(tab.join_leave_busy.as_deref(), Some("joining B"));

    // The first job's result arrives when the second is already current.
    tab.poll_async(vec![(1, JoinLeaveMsg::Done { overview: overview(&["only-from-job-one"]) })]);
    let names: Vec<&str> = tab.topics.iter().map(|t| t.name.as_str()).collect();
    assert_eq!(names, vec!["A", "B"]);
    assert_eq!(tab.join_leave_busy.as_deref(), Some("joining B"));
    assert_eq!(tab.last_error, None);
    tab.poll_async(vec![(1, JoinLeaveMsg::Error { message: "late failure".to_string() })]);
    assert_eq!(tab.last_error, None);
    assert_eq!(tab.join_leave_busy.as_deref(), Some("joining B"));

    tab.poll_async(vec![(2, JoinLeaveMsg::Done { overview: overview(&["A", "B", "C"]) })]);
    let names: Vec<&str> = tab.topics.iter().map(|t| t.name.as_str()).collect();
    assert_eq!(names, vec!["A", "B", "C"]);
    assert_eq!(tab.join_leave_busy, None);
    assert_eq!(tab.selected, Some(1));
}

#[test]
fn failed_job_leaves_its_message() {
    let mut tab = NetworkTab::new();
    tab.refresh(Ok(overview(&["A"])));
    let job = tab.leave_selected().unwrap();
    assert_eq!(job.op, TopicOp::Leave);
    assert_eq!(tab.join_leave_busy.as_deref(), Some("leaving A"));
    tab.poll_async(vec![(job.generation, JoinLeaveMsg::Error { message: "denied".to_string() })]);
    assert_eq!(tab.last_error.as_deref(), Some("denied"));
    assert_eq!(tab.join_leave_busy, None);
    assert_eq!(tab.topics.len(), 1);
}

#[test]
fn job_without_topic_does_not_start() {
    let mut tab = NetworkTab::new();
    assert!(tab.join_selected().is_none());
    assert_eq!(tab.join_leave.current(), 0);
    tab.refresh(Ok(overview(&["A"])));
    tab.selected = Some(4);
    assert!(tab.leave_selected().is_none());
    assert!(tab.remove_selected().is_none());
    assert_eq!(tab.join_leave.current(), 0);
    assert_eq!(tab.join_leave_busy, None);
}

#[test]
fn overview_fixes_the_highlight() {
    let mut tab = NetworkTab::new();
    tab.refresh(Ok(overview(&[])));
    assert_eq!(tab.selected, None);
    tab.refresh(Ok(overview(&["A", "B"])));
    assert_eq!(tab.selected, Some(0));
    tab.selected = Some(1);
    tab.refresh(Ok(overview(&["A", "B"])));
    assert_eq!(tab.selected, Some(1));
    tab.refresh(Err(RpcError::Daemon { message: "busy".to_string() }));
    assert_eq!(tab.last_error.as_deref(), Some("busy"));
    assert_eq!(tab.topics.len(), 2);
    tab.refresh(Ok(json("{}")));
    assert_eq!(tab.topics.len(), 0);
    assert_eq!(tab.last_error, None);
}

#[test]
fn overview_rows_need_a_name() {
    let v = json(
        r#"{"topics":[
            {"name":"a","topicKey":"k","autoJoin":true,"lastJoinedAt":-5,"joined":true,"peers":9},
            {"peers":1},
            {"name":7},
            {"name":"b","autoJoin":"yes","peers":-1}
        ]}"#,
    );
    let rows = parse_overview_topics(&v);
    assert_eq!(rows.len(), 2);
    assert_eq!(rows[0].name, "a");
    assert_eq!(rows[0].key.as_deref(), Some("k"));
    assert_eq!(rows[0].auto_join, Some(true));
    assert_eq!(rows[0].last_joined_at, Some(-5));
    assert!(rows[0].joined);
    assert_eq!(rows[0].peers, 9);
    assert_eq!(rows[1].name, "b");
    assert_eq!(rows[1].key, None);
    assert_eq!(rows[1].auto_join, None);
    assert_eq!(rows[1].last_joined_at, None);
    assert!(!rows[1].joined);
    assert_eq!(rows[1].peers, 0);
    assert!(parse_overview_topics(&json(r#"{"topics":{}}"#)).is_empty());
    assert!(parse_overview_topics(&json("null")).is_empty());
}

#[test]
fn new_topic_form_validates_and_builds_the_call() {
    let mut tab = NetworkTab::new();
    assert!(tab.topic_new_save().is_none());
    assert_eq!(tab.last_error, None);
    tab.last_error = Some("old".to_string());
    tab.topic_new_open();
    assert!(tab.is_modal_open());
    assert_eq!(tab.last_error, None);
    tab.topic_new.name = "   ".to_string();
    assert!(tab.topic_new_save().is_none());
    assert_eq!(tab.last_error.as_deref(), Some("topic name required"));
    assert!(tab.is_modal_open());

    tab.topic_new.name = "  music ".to_string();
    tab.topic_new.auto_join = false;
    tab.topic_new.password = "secret".to_string();
    let call = tab.topic_new_save().unwrap();
    assert_eq!(call.method, "topic.create");
    assert_eq!(call.params, json(r#"{"name":"music","autoJoin":false,"password":null}"#));
    tab.topic_new.password_enabled = true;
    let call = tab.topic_new_save().unwrap();
    assert_eq!(call.params, json(r#"{"name":"music","autoJoin":false,"password":"secret"}"#));

    assert!(!tab.create_done(Err(RpcError::Daemon { message: "exists".to_string() })));
    assert!(tab.is_modal_open());
    assert_eq!(tab.last_error.as_deref(), Some("exists"));
    // A removal leaves the form as it is, whatever its outcome.
    assert!(!tab.remove_done(Err(RpcError::Daemon { message: "in use".to_string() })));
    assert_eq!(tab.last_error.as_deref(), Some("in use"));
    assert!(tab.remove_done(Ok(Value::Null)));
    assert!(tab.is_modal_open());
    assert_eq!(tab.last_error, None);
    assert!(tab.create_done(Ok(Value::Null)));
    assert!(!tab.is_modal_open());
    assert_eq!(tab.last_error, None);
    tab.topic_new_open();
    tab.topic_new_cancel();
    assert!(!tab.is_modal_open());
}

#[test]
fn create_call_needs_a_name() {
    assert!(topic_create_call("", true, None).is_none());
    let call = topic_create_call(" a ", true, Some("")).unwrap();
    assert_eq!(call.method, "topic.create");
    assert_eq!(call.params, json(r#"{"name":" a ","autoJoin":true,"password":""}"#));
}

#[test]
fn remove_call_names_the_highlighted_topic() {
    let mut tab = NetworkTab::new();
    tab.refresh(Ok(overview(&["A", "B"])));
    tab.selected = Some(1);
    let call = tab.remove_selected().unwrap();
    assert_eq!(call.method, "topic.rm");
    assert_eq!(call.params, json(r#"{"name":"B"}"#));
    assert_eq!(tab.selected_topic_name().as_deref(), Some("B"));
    assert_eq!(tab.selected_topic().map(|t| t.peers), Some(2));
}

#[test]
fn join_job_calls_then_fetches_the_state() {
    let call = topic_call(TopicOp::Join, "music");
    assert_eq!(call.method, "topic.join");
    assert_eq!(call.params, json(r#"{"name":"music"}"#));
    let call = topic_call(TopicOp::Leave, "music");
    assert_eq!(call.method, "topic.leave");
    match after_topic_call(Ok(json("true"))) {
        JoinLeaveStep::Call(next) => {
            assert_eq!(next.method, "network.overview");
            assert_eq!(next.params, json("{}"));
        }
        JoinLeaveStep::Finish(_) => panic!("the state is fetched after a success"),
    }
    match after_topic_call(Err("refused".to_string())) {
        JoinLeaveStep::Finish(JoinLeaveMsg::Error { message }) => assert_eq!(message, "refused"),
        _ => panic!("a failure ends the job"),
    }
    match after_overview(Ok(json(r#"{"topics":[]}"#))) {
        JoinLeaveMsg::Done { overview } => assert_eq!(overview, json(r#"{"topics":[]}"#)),
        JoinLeaveMsg::Error { .. } => panic!("the state ends the job"),
    }
    match after_overview(Err("gone".to_string())) {
        JoinLeaveMsg::Error { message } => assert_eq!(message, "gone"),
        JoinLeaveMsg::Done { .. } => panic!("a failure ends the job"),
    }
    for (call, method) in [
        (overview_call(), "network.overview"),
        (list_call(), "files.list"),
        (status_call(), "node.status"),
    ] {
        assert_eq!((call.method.as_str(), call.params), (method, json("{}")));
    }
    let call = info_call("a/b");
    assert_eq!((call.method.as_str(), call.params), ("files.info", json(r#"{"path":"a/b"}"#)));
    let call = remove_call("a/b");
    assert_eq!((call.method.as_str(), call.params), ("files.remove", json(r#"{"path":"a/b"}"#)));
}

#[test]
fn verify_batch_counts_and_keeps_input_order() {
    let paths = vec!["one".to_string(), "two".to_string(), "three".to_string()];
    let mut batch = VerifyBatch::new(paths);
    assert_eq!((batch.done(), batch.total()), (0, 3));
    let replies = vec![
        Ok(json(r#"{"valid":true,"chunks":4}"#)),
        Ok(json(r#"{"valid":false}"#)),
        Err("connection reset".to_string()),
    ];
    let mut progress = Vec::new();
    let mut asked = Vec::new();
    for reply in replies {
        match batch.next_step() {
            VerifyStep::Call { done, total, call } => {
                progress.push((done, total));
                assert_eq!(call.method, "files.verify");
                asked.push(call.params);
            }
            VerifyStep::Finish { .. } => panic!("three items are to be verified"),
        }
        batch.record(reply);
    }
    assert_eq!(progress, vec![(0, 3), (1, 3), (2, 3)]);
    assert_eq!(
        asked,
        vec![json(r#"{"path":"one"}"#), json(r#"{"path":"two"}"#), json(r#"{"path":"three"}"#)]
    );
    assert!(matches!(batch.next_step(), VerifyStep::Finish { done: 3, total: 3 }));
    let report = batch.finish();
    assert_eq!(
        report,
        json(
            r#"{
                "summary": {"ok": 1, "failed": 2, "total": 3},
                "results": [
                    {"path": "one", "result": {"valid": true, "chunks": 4}},
                    {"path": "two", "result": {"valid": false}},
                    {"path": "three", "error": "connection reset"}
                ]
            }"#
        )
    );
}

#[test]
fn verify_result_that_does_not_say_counts_as_failed() {
    let mut batch = VerifyBatch::new(vec!["a".to_string(), "b".to_string()]);
    batch.record(Ok(json(r#"{"valid":"maybe"}"#)));
    batch.record(Ok(json("{}")));
    let report = batch.finish();
    assert_eq!(report["summary"], json(r#"{"ok":0,"failed":2,"total":2}"#));
    assert_eq!(report["results"].as_array().map(|a| a.len()), Some(2));

    let mut single = VerifyBatch::new(vec!["p1".to_string()]);
    single.record(Ok(json("{}")));
    let report = single.finish();
    let count = |key: &str| report["summary"][key].as_u64().unwrap();
    assert_eq!(count("total"), 1);
    assert_eq!(count("ok") + count("failed"), count("total"));
    assert_eq!(report["results"], json(r#"[{"path":"p1","result":{}}]"#));

    let paths: Vec<String> = ["a", "b", "c", "d", "e"].iter().map(|p| p.to_string()).collect();
    let mut mixed = VerifyBatch::new(paths);
    for reply in [
        Ok(json(r#"{"valid":true}"#)),
        Ok(json("null")),
        Err("gone".to_string()),
        Ok(json(r#"{"valid":1}"#)),
        Ok(json(r#"{"valid":true}"#)),
    ] {
        mixed.record(reply);
    }
    assert_eq!(mixed.finish()["summary"], json(r#"{"ok":2,"failed":3,"total":5}"#));
    let empty = VerifyBatch::new(Vec::new());
    assert!(matches!(empty.next_step(), VerifyStep::Finish { done: 0, total: 0 }));
    assert_eq!(
        empty.finish(),
        json(r#"{"summary":{"ok":0,"failed":0,"total":0},"results":[]}"#)
    );
}

fn file_list() -> Value {
    json(
        r#"{
            "files": [
                {"path": "b.txt", "size": 10, "chunk_count": 2, "merkle_root": "abc"},
                {"size": 1},
                {"path": "a.txt"}
            ],
            "dirs": [{"path": "docs", "merkle_root": "ddd", "size": 5}]
        }"#,
    )
}

#[test]
fn file_list_rows_files_then_dirs() {
    let rows = parse_files_list(&file_list());
    let seen: Vec<(&str, &str)> = rows.iter().map(|r| (r.typ.as_str(), r.path.as_str())).collect();
    assert_eq!(seen, vec![("f", "b.txt"), ("f", "a.txt"), ("d", "docs")]);
    assert_eq!((rows[0].size, rows[0].chunks), (Some(10), Some(2)));
    assert_eq!(rows[0].merkle_root.as_deref(), Some("abc"));
    assert_eq!((rows[1].size, rows[1].chunks, rows[1].merkle_root.clone()), (None, None, None));
    assert_eq!((rows[2].size, rows[2].chunks), (None, None));
    assert_eq!(rows[2].merkle_root.as_deref(), Some("ddd"));
    assert!(parse_files_list(&json(r#"{"files":5}"#)).is_empty());
}

#[test]
fn files_tab_verify_job_and_its_messages() {
    let mut tab = FilesTab::new();
    assert!(tab.verify_selected().is_none());
    assert_eq!(tab.verify_jobs.current(), 0);
    let info = tab.refresh(Ok(file_list())).unwrap();
    assert_eq!((info.generation, info.path.as_str()), (1, "b.txt"));
    assert_eq!(tab.selected, Some(0));

    // Nothing selected: the highlighted row is the target.
    let job = tab.verify_selected().unwrap();
    assert_eq!((job.generation, job.paths.clone()), (1, vec!["b.txt".to_string()]));
    assert_eq!(tab.verify_progress, Some((0, 1)));

    tab.select_all();
    let job = tab.verify_selected().unwrap();
    assert_eq!(job.generation, 2);
    assert_eq!(job.paths, vec!["a.txt", "b.txt", "docs"]);
    assert_eq!(tab.verify_progress, Some((0, 3)));

    let stale = vec![
        (1, VerifyMsg::Progress { done: 1, total: 1 }),
        (1, VerifyMsg::Done { value: json(r#"{"stale":true}"#) }),
        (1, VerifyMsg::Error { message: "stale".to_string() }),
    ];
    tab.poll_async(Vec::new(), stale);
    assert_eq!(tab.verify_progress, Some((0, 3)));
    assert_eq!(tab.last_verify, None);
    assert_eq!(tab.last_error, None);

    tab.poll_async(Vec::new(), vec![(2, VerifyMsg::Progress { done: 2, total: 3 })]);
    assert_eq!(tab.verify_progress, Some((2, 3)));
    tab.last_error = Some("earlier".to_string());
    tab.poll_async(
        Vec::new(),
        vec![
            (2, VerifyMsg::Progress { done: 3, total: 3 }),
            (2, VerifyMsg::Done { value: json(r#"{"summary":{}}"#) }),
        ],
    );
    assert_eq!(tab.verify_progress, None);
    assert_eq!(tab.last_verify, Some(json(r#"{"summary":{}}"#)));
    assert_eq!(tab.last_error, None);

    let job = tab.verify_selected().unwrap();
    tab.poll_async(
        Vec::new(),
        vec![(job.generation, VerifyMsg::Error { message: "cannot connect".to_string() })],
    );
    assert_eq!(tab.verify_progress, None);
    assert_eq!(tab.last_error.as_deref(), Some("cannot connect"));
}

#[test]
fn files_tab_details_follow_the_focus() {
    let mut tab = FilesTab::new();
    let first = tab.refresh(Ok(file_list())).unwrap();
    assert_eq!(tab.focused_path.as_deref(), Some("b.txt"));
    assert!(tab.request_focused_info_if_needed().is_none());
    let second = tab.set_focus(Some(1)).unwrap();
    assert_eq!((second.generation, second.path.as_str()), (2, "a.txt"));
    assert_eq!(tab.selection.selected().len(), 0);

    let answer = |path: &str, text: &str| InfoMsg { path: path.to_string(), result: Ok(json(text)) };
    // The answer for the path that lost the focus, from the job before.
    tab.poll_async(vec![(first.generation, answer("b.txt", "1"))], Vec::new());
    assert_eq!(tab.last_info, None);
    // The right generation, but about another path.
    tab.poll_async(vec![(second.generation, answer("b.txt", "2"))], Vec::new());
    assert_eq!(tab.last_info, None);
    tab.last_error = Some("earlier".to_string());
    tab.poll_async(vec![(second.generation, answer("a.txt", "3"))], Vec::new());
    assert_eq!(tab.last_info, Some(json("3")));
    assert_eq!(tab.last_error, None);
    let failure = InfoMsg { path: "a.txt".to_string(), result: Err("no info".to_string()) };
    tab.poll_async(vec![(second.generation, failure)], Vec::new());
    assert_eq!(tab.last_error.as_deref(), Some("no info"));
    assert_eq!(tab.last_info, Some(json("3")));

    assert!(tab.set_focus(Some(9)).is_none());
    assert_eq!(tab.focused_path, None);
    assert_eq!(tab.last_info, None);
    assert!(tab.set_focus(None).is_none());
}

#[test]
fn files_tab_refresh_keeps_what_is_still_listed() {
    let mut tab = FilesTab::new();
    tab.refresh(Ok(file_list()));
    tab.select_all();
    tab.last_verify = Some(json("1"));
    let shorter = json(r#"{"files":[{"path":"a.txt"}],"dirs":[]}"#);
    tab.refresh(Ok(shorter));
    let kept: Vec<&str> = tab.selection.selected().iter().map(|s| s.as_str()).collect();
    assert_eq!(kept, vec!["a.txt"]);
    assert_eq!(tab.selected, Some(0));
    assert_eq!(tab.last_verify, Some(json("1")));
    assert!(tab.refresh(Err(RpcError::Disconnected)).is_none());
    assert_eq!(tab.last_error.as_deref(), Some("daemon disconnected"));
    assert_eq!(tab.entries.len(), 1);
    tab.refresh(Ok(json("{}")));
    assert_eq!(tab.selected, None);
    assert!(tab.selection.selected().is_empty());
    assert_eq!(tab.focused_path, None);
}

#[test]
fn files_tab_selection_actions() {
    let mut tab = FilesTab::new();
    tab.refresh(Ok(file_list()));
    tab.toggle_selected_current();
    assert!(tab.selection.is_selected("b.txt"));
    tab.invert_selection();
    let now: Vec<&str> = tab.selection.selected().iter().map(|s| s.as_str()).collect();
    assert_eq!(now, vec!["a.txt", "docs"]);
    assert_eq!(tab.remove_selected(), vec!["a.txt", "docs"]);
    assert_eq!(tab.targets(), vec!["a.txt", "docs"]);
    tab.clear_selection();
    assert_eq!(tab.remove_selected(), vec!["b.txt"]);
    tab.set_focus(Some(0));
    tab.select_range_to(2);
    assert_eq!(tab.selection.selected().len(), 3);
    tab.toggle_selected_current();
    assert!(!tab.selection.is_selected("b.txt"));
    assert!(!tab.change_done(Err(RpcError::Daemon { message: "locked".to_string() })));
    assert_eq!(tab.last_error.as_deref(), Some("locked"));
    assert!(tab.change_done(Ok(Value::Null)));
    assert_eq!(tab.last_error, None);
    assert_eq!(tab.paths(), vec!["b.txt", "a.txt", "docs"]);
    assert_eq!(tab.selected_path().as_deref(), Some("b.txt"));
}

#[test]
fn add_call_takes_the_picked_paths_or_the_current_one() {
    let call = FilesTab::add_confirm(vec!["x".to_string(), "y".to_string()], Some("z".to_string()));
    let call = call.unwrap();
    assert_eq!(call.method, "files.add");
    assert_eq!(call.params, json(r#"{"paths":["x","y"]}"#));
    let call = FilesTab::add_confirm(Vec::new(), Some("z".to_string())).unwrap();
    assert_eq!(call.params, json(r#"{"paths":["z"]}"#));
    assert!(FilesTab::add_confirm(Vec::new(), None).is_none());
}
