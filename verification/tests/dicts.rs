use chissor::registry::{DictName, Dicts, Embedded};

fn check_invariant(dicts: &Dicts) {
    assert!((0..dicts.dicts.len()).contains(&dicts.idx));
    assert!(!dicts.dicts.is_empty());
}

fn dict_source(strs: &[&str]) -> String {
    let mut str = strs.join("\n");
    str.push('\n');
    str
}

#[test]
fn dicts() {
    let mut dicts = Dicts::default();
    check_invariant(&dicts);

    assert!(dicts
        .new_dict(String::from("example"), &dict_source(&["甲", "乙 20", "丙 40 m"]))
        .is_ok());
    check_invariant(&dicts);

    assert!(dicts.load_dict(&dict_source(&["天", "地 20", "人 40 m"])).is_ok());

    assert!(dicts.add_word("一", "", "").is_ok());
    assert!(dicts.add_word("二", "20", "").is_ok());
    assert!(dicts.add_word("三", "40", "m").is_ok());
    assert!(dicts.add_word("错误", "not a frequency", "").is_err());

    let end = dicts.dicts.len() - 1;
    dicts.idx = end;
    for _ in 0..end {
        assert!(dicts.can_remove_dict());
        dicts.remove_dict();
        check_invariant(&dicts);
    }
    assert!(!dicts.can_remove_dict());
}

#[test]
fn can_remove_iff_more_than_one() {
    let mut dicts = Dicts::default();
    assert_eq!(dicts.dicts.len(), 3);
    assert!(dicts.can_remove_dict());
    dicts.remove_dict();
    check_invariant(&dicts);
    assert_eq!(dicts.dicts.len(), 2);
    assert!(dicts.can_remove_dict());
    dicts.remove_dict();
    check_invariant(&dicts);
    assert_eq!(dicts.dicts.len(), 1);
    assert!(!dicts.can_remove_dict());
}

#[test]
fn remove_last_entry_moves_selection_down() {
    let mut dicts = Dicts::default();
    dicts.select(2);
    dicts.remove_dict();
    assert_eq!(dicts.idx, 1);
    dicts.select(0);
    dicts.remove_dict();
    assert_eq!(dicts.idx, 0);
    assert_eq!(dicts.dicts.len(), 1);
}

#[test]
fn new_dict_rejects_malformed_source() {
    let mut dicts = Dicts::default();
    let before = dicts.dicts.len();
    assert!(dicts.new_dict(String::from("bad"), &dict_source(&["甲 x"])).is_err());
    assert_eq!(dicts.dicts.len(), before);
}

#[test]
fn load_dict_rejects_malformed_source() {
    let mut dicts = Dicts::default();
    let before = dicts.cut_selected("分词测试案例", false);
    assert!(dicts.load_dict(&dict_source(&["地 notanumber"])).is_err());
    let after = dicts.cut_selected("分词测试案例", false);
    assert_eq!(before, after);
    assert_eq!(after.concat(), "分词测试案例");
}

#[test]
fn default_registry_names() {
    let dicts = Dicts::default();
    assert_eq!(dicts.idx, 0);
    assert!(matches!(dicts.dicts[0].name, DictName::Embedded(Embedded::Normal)));
    assert!(matches!(dicts.dicts[1].name, DictName::Embedded(Embedded::Small)));
    assert!(matches!(dicts.dicts[2].name, DictName::Embedded(Embedded::Big)));
}

#[test]
fn new_dict_changes_segmentation() {
    let mut dicts = Dicts::default();
    assert!(dicts.new_dict(String::from("example"), &dict_source(&["甲乙 100"])).is_ok());
    let last = dicts.dicts.len() - 1;
    dicts.select(last);
    let parts = dicts.cut_selected("甲乙", false);
    assert_eq!(parts, vec!["甲乙"]);
}

#[test]
fn add_word_changes_segmentation() {
    let mut dicts = Dicts::default();
    assert!(dicts.new_dict(String::from("example"), &dict_source(&["甲 10", "乙 10"])).is_ok());
    let last = dicts.dicts.len() - 1;
    dicts.select(last);
    let before = dicts.cut_selected("甲乙", false);
    assert_eq!(before, vec!["甲", "乙"]);
    assert!(dicts.add_word("甲乙", "100", "").is_ok());
    let after = dicts.cut_selected("甲乙", false);
    assert_eq!(after, vec!["甲乙"]);
}

#[test]
fn load_dict_merges_into_selected() {
    let mut dicts = Dicts::default();
    assert!(dicts.new_dict(String::from("example"), &dict_source(&["甲 10", "乙 10"])).is_ok());
    let last = dicts.dicts.len() - 1;
    dicts.select(last);
    assert!(dicts.load_dict(&dict_source(&["甲乙 100"])).is_ok());
    let parts = dicts.cut_selected("甲乙", false);
    assert_eq!(parts, vec!["甲乙"]);
}

#[test]
fn add_word_frequency_bounds() {
    let mut dicts = Dicts::default();
    assert!(dicts.add_word("词语", "+20", "").is_ok());
    assert!(dicts.add_word("词语", "4294967295", "").is_ok());
    assert!(dicts.add_word("词语", "4294967296", "").is_ok());
    assert!(dicts.add_word("词语", "1000000000000000000", "").is_ok());
    // Parses as `usize`, but would overflow the engine's frequency total.
    assert!(dicts.add_word("词语", "18446744073709551615", "").is_err());
    // Does not parse as `usize` at all.
    assert!(dicts.add_word("词语", "18446744073709551616", "").is_err());
    assert!(dicts.add_word("词语", "+", "").is_err());
    assert!(dicts.add_word("词语", "2x", "").is_err());
    assert!(dicts.add_word("词语", "-1", "").is_err());
}
