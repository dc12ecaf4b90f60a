use chissor::app::App;

#[test]
fn app() {
    let mut app = App::default();
    app.input = String::from("分词测试案例");

    let segment_result = vec!["分词", "测试", "案例"];
    let segment_granular_result = vec!["分词", "测试", "案例"];
    let search_result = vec!["分", "分词", "词", "测", "测试", "试", "案", "案例", "例"];
    let tag_result = vec!["分词 n", "测试 vn", "案例 n"];

    assert_eq!(app.get_separator(), "\n");
    app.segment();
    assert_eq!(app.output, segment_result.join("\n"));
    app.segment_granular();
    assert_eq!(app.output, segment_granular_result.join("\n"));
    app.search();
    assert_eq!(app.output, search_result.join("\n"));
    app.tag();
    assert_eq!(app.output, tag_result.join("\n"));

    let separator = " / ";
    app.separator = String::from(separator);
    assert_eq!(app.get_separator(), separator);
    app.segment();
    assert_eq!(app.output, segment_result.join(separator));
    app.segment_granular();
    assert_eq!(app.output, segment_granular_result.join(separator));
    app.search();
    assert_eq!(app.output, search_result.join(separator));
    app.tag();
    assert_eq!(app.output, tag_result.join(separator));

    assert!(!app.can_add_word());
    app.word = String::from("词语");
    assert!(app.can_add_word());
}

#[test]
fn end_to_end_with_hmm() {
    let mut app = App::default();
    app.use_hmm = true;
    app.input = String::from("分词测试案例");

    app.segment();
    assert_eq!(app.output, ["分词", "测试", "案例"].join("\n"));
    app.search();
    assert_eq!(
        app.output,
        ["分", "分词", "词", "测", "测试", "试", "案", "案例", "例"].join("\n"),
    );
    app.tag();
    assert_eq!(app.output, ["分词 n", "测试 vn", "案例 n"].join("\n"));
}

#[test]
fn add_word_records_error() {
    let mut app = App::default();
    app.word = String::from("错误");
    app.freq = String::from("not a frequency");
    app.add_word();
    assert_eq!(app.error_windows.windows.len(), 1);
    assert!(app.error_windows.windows[0].open);
    assert_eq!(app.error_windows.windows[0].what, "add-word.what");
    assert_eq!(app.error_windows.windows[0].id, 0);
}

#[test]
fn add_word_applies_to_selected_engine() {
    let mut app = App::default();
    app.word = String::from("词语");
    app.add_word();
    assert!(app.error_windows.windows.is_empty());
}
