use directopt::input_sheet::{choose_input_sheet, input_key, pick_sheet, plan_input_rows, SheetCell};

fn cell(t: &str, n: bool) -> SheetCell {
    SheetCell { text: t.to_string(), has_number: n }
}

fn s(v: &[&str]) -> Vec<String> {
    v.iter().map(|x| x.to_string()).collect()
}

#[test]
fn labels_map_to_keys() {
    assert_eq!(input_key("储能充放电深度").as_deref(), Some("dod"));
    assert_eq!(input_key("风电系统单位投资").as_deref(), Some("windInvest"));
    assert_eq!(input_key("选定储能容量结束值").as_deref(), Some("essEnd"));
    assert_eq!(input_key("接入公共电网容量（最大下网功率）").as_deref(), Some("gridCapacity"));
    assert_eq!(input_key("总评估次数"), None);
    assert_eq!(input_key(""), None);
}

#[test]
fn sheet_choice() {
    assert_eq!(pick_sheet(&s(&[]), &s(&[])).unwrap_err(), "输入文件中没有工作表");
    assert_eq!(pick_sheet(&s(&["A", "My Input", "input2"]), &s(&["a", "my input", "input2"])).unwrap(), "My Input");
    assert_eq!(pick_sheet(&s(&["A", "B"]), &s(&["a", "b"])).unwrap(), "A");
    assert_eq!(choose_input_sheet(&s(&["Sheet1", "INPUT"])).unwrap(), "INPUT");
    assert_eq!(choose_input_sheet(&s(&["Sheet1", "曲线"])).unwrap(), "Sheet1");
    assert_eq!(choose_input_sheet(&s(&[])).unwrap_err(), "输入文件中没有工作表");
}

#[test]
fn rows_below_the_header_are_applied_or_skipped() {
    let rows = vec![
        vec![cell("标题", false)],
        vec![cell("序号", false), cell("数值", false), cell("项目", false)],
        vec![cell("1", true), cell("85", true), cell("储能充放电深度", false)],
        vec![cell("", false)],
        vec![cell("2", true), cell("", false), cell("电池充放电倍率", false)],
        vec![cell("3", true), cell("100", true), cell("总评估次数", false)],
        vec![cell("4", true)],
        vec![cell("5", true), cell("3600", true), cell("风电系统单位投资", false)],
    ];
    let plan = plan_input_rows("input", &rows).unwrap();
    assert_eq!(plan.label_col, 2);
    assert_eq!(plan.value_col, 1);
    let applied: Vec<(&str, &str, usize)> =
        plan.applied.iter().map(|p| (p.key.as_str(), p.label.as_str(), p.row)).collect();
    assert_eq!(applied, vec![("dod", "储能充放电深度", 2), ("windInvest", "风电系统单位投资", 7)]);
    assert_eq!(plan.skipped_labels, vec!["电池充放电倍率", "总评估次数"]);
}

#[test]
fn sheets_without_header_or_parameters_are_refused() {
    let no_header = vec![vec![cell("项目", false)], vec![cell("数值", false)]];
    assert_eq!(
        plan_input_rows("参数", &no_header).unwrap_err(),
        "工作表「参数」中未找到「项目 / 数值」表头，请使用标准输入文件模板"
    );
    let nothing = vec![vec![cell("项目", false), cell("数值", false)], vec![cell("其他", false), cell("1", true)]];
    assert_eq!(
        plan_input_rows("input", &nothing).unwrap_err(),
        "工作表「input」中未识别到任何标准参数，请使用标准输入文件模板"
    );
}
