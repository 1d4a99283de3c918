use png_optimizer::display::StatusBoard;
use png_optimizer::item::PngItem;
use png_optimizer::options::BatchOptions;
use png_optimizer::protocol::{replay_batch, ItemOutcome, Message, Worker, WorkerAction};

fn paths(names: &[&str]) -> Vec<String> {
    names.iter().map(|s| s.to_string()).collect()
}

fn describe(m: &Message) -> String {
    match m {
        Message::Start(p, _) => format!("Start({})", p.len()),
        Message::Processing(i) => format!("Processing({},{},{})", i.index, i.original_size, i.optimized_size),
        Message::UpdateProgress(c, t) => format!("UpdateProgress({},{})", c, t),
        Message::Done(i) => format!("Done({},{},{})", i.index, i.original_size, i.optimized_size),
        Message::Error(i) => format!("Error({},{},{})", i.index, i.original_size, i.optimized_size),
        Message::AllDone => "AllDone".to_string(),
    }
}

fn describe_all(ms: &[Message]) -> Vec<String> {
    ms.iter().map(describe).collect()
}

#[test]
fn scenario_second_file_unreadable() {
    let ps = paths(&["/img/a.png", "/img/b.png", "/img/c.png"]);
    let outcomes = vec![
        ItemOutcome::Optimized(2048, 1024),
        ItemOutcome::Unreadable,
        ItemOutcome::Optimized(4096, 1024),
    ];
    let msgs = replay_batch(ps.clone(), BatchOptions::new(), &outcomes);
    assert_eq!(
        describe_all(&msgs),
        vec![
            "UpdateProgress(1,3)",
            "Processing(0,2048,0)",
            "Done(0,2048,1024)",
            "UpdateProgress(2,3)",
            "Error(1,0,0)",
            "UpdateProgress(3,3)",
            "Processing(2,4096,0)",
            "Done(2,4096,1024)",
            "AllDone",
        ]
    );

    let mut display = StatusBoard::new();
    let worker = display.apply(Message::Start(ps, BatchOptions::new()));
    assert!(worker.is_some());
    assert_eq!(display.total(), 3);
    assert_eq!(
        display.rows().clone(),
        vec![
            "File|State|Original|Optimized|Percent",
            "a.png|...|||",
            "b.png|...|||",
            "c.png|...|||",
        ]
    );
    for m in msgs {
        assert!(display.apply(m).is_none());
    }
    assert_eq!(
        display.rows().clone(),
        vec![
            "File|State|Original|Optimized|Percent",
            "a.png|Done|2.00 KB|1.00 KB|50.0%",
            "b.png|Error|||",
            "c.png|Done|4.00 KB|1.00 KB|75.0%",
        ]
    );
    assert_eq!(display.info(), "Done!");
}

#[test]
fn one_terminal_message_per_file_and_one_all_done() {
    let ps = paths(&["a.png", "b.png", "c.png", "d.png"]);
    let outcomes = vec![
        ItemOutcome::Failed(100),
        ItemOutcome::Unreadable,
        ItemOutcome::Optimized(10, 5),
        ItemOutcome::Failed(7),
    ];
    let msgs = replay_batch(ps, BatchOptions::new(), &outcomes);
    let terminal = msgs
        .iter()
        .filter(|m| matches!(m, Message::Done(_) | Message::Error(_)))
        .count();
    let all_done = msgs.iter().filter(|m| matches!(m, Message::AllDone)).count();
    assert_eq!(terminal, 4);
    assert_eq!(all_done, 1);
    assert!(matches!(msgs.last(), Some(Message::AllDone)));
}

#[test]
fn empty_batch_sends_only_all_done() {
    let msgs = replay_batch(Vec::new(), BatchOptions::new(), &Vec::new());
    assert_eq!(describe_all(&msgs), vec!["AllDone"]);
}

#[test]
fn failed_optimisation_keeps_original_size() {
    let msgs = replay_batch(paths(&["x.png"]), BatchOptions::new(), &vec![ItemOutcome::Failed(500)]);
    assert_eq!(
        describe_all(&msgs),
        vec!["UpdateProgress(1,1)", "Processing(0,500,0)", "Error(0,500,0)", "AllDone"]
    );
}

#[test]
fn per_item_order_is_progress_processing_terminal() {
    let ps = paths(&["a.png", "b.png"]);
    let outcomes = vec![ItemOutcome::Optimized(8, 4), ItemOutcome::Failed(9)];
    let msgs = describe_all(&replay_batch(ps, BatchOptions::new(), &outcomes));
    let pos = |s: &str| msgs.iter().position(|m| m == s).unwrap();
    assert!(pos("UpdateProgress(1,2)") < pos("Processing(0,8,0)"));
    assert!(pos("Processing(0,8,0)") < pos("Done(0,8,4)"));
    assert!(pos("Done(0,8,4)") < pos("UpdateProgress(2,2)"));
    assert!(pos("UpdateProgress(2,2)") < pos("Processing(1,9,0)"));
    assert!(pos("Processing(1,9,0)") < pos("Error(1,9,0)"));
    assert!(pos("Error(1,9,0)") < pos("AllDone"));
}

#[test]
fn worker_asks_for_each_action_in_turn() {
    let mut opts = BatchOptions::new();
    opts.skip_grayscale_reduction = true;
    let mut w = Worker::new(paths(&["/p/a.png", "/p/b.png"]), opts);
    let s = w.start();
    assert_eq!(describe_all(&s.messages), vec!["UpdateProgress(1,2)"]);
    assert!(matches!(&s.action, WorkerAction::ReadSize(p) if p == "/p/a.png"));

    let s = w.size_read(Some(300));
    assert_eq!(describe_all(&s.messages), vec!["Processing(0,300,0)"]);
    match &s.action {
        WorkerAction::Optimize(p, settings) => {
            assert_eq!(p, "/p/a.png");
            assert!(!settings.grayscale_reduction);
            assert!(settings.palette_reduction);
        }
        _ => panic!("expected an optimise request"),
    }

    let s = w.optimized(Some(200));
    assert_eq!(describe_all(&s.messages), vec!["Done(0,300,200)", "UpdateProgress(2,2)"]);
    assert!(matches!(&s.action, WorkerAction::ReadSize(p) if p == "/p/b.png"));

    let s = w.size_read(None);
    assert_eq!(describe_all(&s.messages), vec!["Error(1,0,0)", "AllDone"]);
    assert!(matches!(s.action, WorkerAction::Finish));
}

#[test]
fn display_progress_and_done_labels() {
    let mut d = StatusBoard::new();
    assert_eq!(d.info(), "");
    d.apply(Message::UpdateProgress(2, 17));
    assert_eq!(d.info(), "Optimizing 2/17");
    d.apply(Message::AllDone);
    assert_eq!(d.info(), "Done!");
}

#[test]
fn display_done_applied_twice_is_unchanged() {
    let mut d = StatusBoard::new();
    d.apply(Message::Start(paths(&["/q/a.png", "/q/b.png"]), BatchOptions::new()));
    let item = PngItem {
        index: 1,
        filepath: "/q/b.png".to_string(),
        original_size: 1000,
        optimized_size: 500,
    };
    d.apply(Message::Done(item.clone()));
    let once = d.rows().clone();
    d.apply(Message::Done(item));
    assert_eq!(d.rows().clone(), once);
    assert_eq!(once[2], "b.png|Done|0.98 KB|0.49 KB|50.0%");
}

#[test]
fn display_processing_row_and_header_offset() {
    let mut d = StatusBoard::new();
    d.apply(Message::Start(paths(&["a.png", "b.png"]), BatchOptions::new()));
    let item = PngItem {
        index: 0,
        filepath: "a.png".to_string(),
        original_size: 2048,
        optimized_size: 0,
    };
    d.apply(Message::Processing(item));
    assert_eq!(d.rows()[0], "File|State|Original|Optimized|Percent");
    assert_eq!(d.rows()[1], "a.png|Optimizing|2.00 KB||");
    assert_eq!(d.rows()[2], "b.png|...|||");
}

#[test]
fn display_ignores_unknown_index() {
    let mut d = StatusBoard::new();
    d.apply(Message::Start(paths(&["a.png"]), BatchOptions::new()));
    let before = d.rows().clone();
    let item = PngItem {
        index: 5,
        filepath: "z.png".to_string(),
        original_size: 1,
        optimized_size: 0,
    };
    d.apply(Message::Error(item));
    assert_eq!(d.rows().clone(), before);
}

#[test]
fn display_error_row_hides_known_size() {
    let mut d = StatusBoard::new();
    d.apply(Message::Start(paths(&["a.png"]), BatchOptions::new()));
    let item = PngItem {
        index: 0,
        filepath: "a.png".to_string(),
        original_size: 2048,
        optimized_size: 0,
    };
    d.apply(Message::Processing(item.clone()));
    assert_eq!(d.rows()[1], "a.png|Optimizing|2.00 KB||");
    d.apply(Message::Error(item));
    assert_eq!(d.rows()[1], "a.png|Error|||");
}

#[test]
fn display_start_clears_label() {
    let mut d = StatusBoard::new();
    d.apply(Message::AllDone);
    assert_eq!(d.info(), "Done!");
    d.apply(Message::Start(paths(&["a.png"]), BatchOptions::new()));
    assert_eq!(d.info(), "");
}

#[test]
fn display_start_resets_rows() {
    let mut d = StatusBoard::new();
    d.apply(Message::Start(paths(&["a.png", "b.png", "c.png"]), BatchOptions::new()));
    d.apply(Message::Start(paths(&["z.png"]), BatchOptions::new()));
    assert_eq!(d.total(), 1);
    assert_eq!(d.rows().clone(), vec!["File|State|Original|Optimized|Percent", "z.png|...|||"]);
}
