use chissor::app::App;
use chissor::locale::Locale;

#[test]
fn cut_round_trip_reproduces_input() {
    let app = App::default();
    let text = "分词测试案例, with ASCII and 123 mixed in.\n还有第二行";
    let parts = app.dicts.cut_selected(text, true);
    assert_eq!(parts.concat(), text);
    let parts_no_hmm = app.dicts.cut_selected(text, false);
    assert_eq!(parts_no_hmm.concat(), text);
}

#[test]
fn cut_round_trip_on_empty_input() {
    let app = App::default();
    let parts = app.dicts.cut_selected("", true);
    assert_eq!(parts.concat(), "");
}

#[test]
fn separator_defaults_to_newline() {
    let mut app = App::default();
    app.input = String::from("分词测试案例");
    app.separator = String::from("");
    assert_eq!(app.get_separator(), "\n");
    app.segment();
    assert_eq!(app.output, "分词\n测试\n案例");
    app.separator = String::from(" / ");
    app.segment();
    assert_eq!(app.output, "分词 / 测试 / 案例");
}

#[test]
fn locale_identifiers() {
    assert!(Locale::default() == Locale::En);
    assert_eq!(Locale::En.to_locale(), "en");
    assert_eq!(Locale::ZhCn.to_locale(), "zh-CN");
    assert_eq!(Locale::ZhHk.to_locale(), "zh-HK");
    assert_eq!(Locale::En.to_name(), "English");
    assert_eq!(Locale::ZhCn.to_name(), "中文（简体）");
    assert_eq!(Locale::ZhHk.to_name(), "中文（繁體）");
}
