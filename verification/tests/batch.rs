use chissor::app::App;
use chissor::batch::{BatchOp, BatchRun};

#[test]
fn batch_writes_one_output_per_input() {
    let app = App::default();
    let names = vec![String::from("a.txt"), String::from("b.txt")];
    let inputs = ["  分词测试案例  \n", "案例"];
    let mut run = BatchRun::new(BatchOp::Segment, names);
    let mut written: Vec<(String, String)> = Vec::new();
    while let Some(i) = run.next_input() {
        let content = run.read_ok(&app, inputs[i]);
        written.push((run.output_name().clone(), content));
        run.write_ok();
    }
    assert!(run.is_finished());
    assert_eq!(written.len(), 2);
    assert_eq!(written[0].0, "a.txt");
    assert_eq!(written[0].1, "分词\n测试\n案例\n");
    assert_eq!(written[1].0, "b.txt");
    assert_eq!(written[1].1, "案例\n");
}

#[test]
fn batch_collision_aborts_remaining_inputs() {
    let app = App::default();
    let names = vec![String::from("a.txt"), String::from("b.txt"), String::from("c.txt")];
    let inputs = ["案例", "案例", "案例"];
    let mut run = BatchRun::new(BatchOp::Segment, names);
    let mut written: Vec<String> = Vec::new();

    let first = run.next_input().unwrap();
    let content = run.read_ok(&app, inputs[first]);
    written.push(content);
    run.write_ok();

    let second = run.next_input().unwrap();
    assert_eq!(second, 1);
    let _content = run.read_ok(&app, inputs[second]);
    assert_eq!(run.output_name(), "b.txt");
    run.write_failed();

    assert!(run.next_input().is_none());
    assert!(!run.is_finished());
    assert_eq!(written.len(), 1);
}

#[test]
fn batch_read_failure_aborts() {
    let names = vec![String::from("a.txt"), String::from("b.txt")];
    let mut run = BatchRun::new(BatchOp::Tag, names);
    let first = run.next_input().unwrap();
    assert_eq!(first, 0);
    run.read_failed();
    assert!(run.next_input().is_none());
    assert!(!run.is_finished());
}

#[test]
fn batch_applies_chosen_operation() {
    let app = App::default();
    let names = vec![String::from("a.txt")];
    let mut run = BatchRun::new(BatchOp::Tag, names);
    let i = run.next_input().unwrap();
    assert_eq!(i, 0);
    let content = run.read_ok(&app, " 分词测试案例 ");
    run.write_ok();
    assert!(run.is_finished());
    assert_eq!(content, "分词 n\n测试 vn\n案例 n\n");
}
