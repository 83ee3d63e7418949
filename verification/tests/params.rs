use directopt::constraints::{constraint_note, violation_messages, ConstraintFlags};
use directopt::params::{
    check_curves, default_algorithm, optimizer_issues, ga_size_issues, in_exploit_tail, validation_report, Algorithm,
    BoParams, CurveShape, CurveSummary, Objective, Scheme,
};

fn year_shape(n: usize) -> CurveShape {
    let c = CurveSummary { len: n, all_finite: true };
    CurveShape {
        load_len: n,
        load_has_negative: false,
        wind_pu: c,
        pv_pu: c,
        price: c,
        loss_fee: c,
        tdu_fee: c,
        system_fee: c,
        fund_fee: c,
    }
}

/// What the library decides of the input template's year. The library
/// holds no curve values, only each curve's length and finiteness, so the
/// template's own values are checked where the workbook is read; here a
/// year of the template's size (eight hourly curves of 8760 values, genetic
/// search of 40 generations of 100 individuals) passes the curve and
/// parameter checks, and each curve one hour short of that year is refused
/// with a message naming it and both lengths.
#[test]
fn golden_input_curves_match_template() {
    assert!(check_curves(&year_shape(8760)).is_ok());
    let names = ["风电出力标幺值", "光伏出力标幺值", "电量电价", "上网环节线损费", "电度输配电价", "系统运行费", "政府性基金及附加"];
    for (k, name) in names.iter().enumerate() {
        let mut shape = year_shape(8760);
        let short = CurveSummary { len: 8759, all_finite: true };
        match k {
            0 => shape.wind_pu = short,
            1 => shape.pv_pu = short,
            2 => shape.price = short,
            3 => shape.loss_fee = short,
            4 => shape.tdu_fee = short,
            5 => shape.system_fee = short,
            _ => shape.fund_fee = short,
        }
        assert_eq!(
            check_curves(&shape).unwrap_err(),
            format!("曲线「{name}」长度（8759）与负荷曲线长度（8760）不一致")
        );
    }
    assert!(ga_size_issues(100, 40).is_empty());
}

#[test]
fn bo_defaults_are_one_hundred_and_twenty() {
    let bo = BoParams::default();
    assert_eq!(bo.n_iter, 100);
    assert_eq!(bo.n_init, 20);
    assert!(bo.issues().is_empty());
    assert_eq!(bo.evaluation_budget(), (20, 100));
}

#[test]
fn bo_checks_report_each_failure() {
    let bo = BoParams { n_iter: 1, n_init: 1 };
    assert_eq!(bo.issues(), vec!["初始随机采样点数不能小于 2", "总评估次数必须大于初始随机采样点数"]);
    assert_eq!(BoParams { n_iter: 20, n_init: 20 }.issues(), vec!["总评估次数必须大于初始随机采样点数"]);
    assert_eq!(BoParams { n_iter: 5, n_init: 0 }.issues(), vec!["初始随机采样点数不能小于 2"]);
}

#[test]
fn bo_budget_is_raised_to_a_runnable_one() {
    assert_eq!(BoParams { n_iter: 0, n_init: 0 }.evaluation_budget(), (2, 3));
    assert_eq!(BoParams { n_iter: 10, n_init: 20 }.evaluation_budget(), (20, 21));
    assert_eq!(BoParams { n_iter: 24, n_init: 8 }.evaluation_budget(), (8, 24));
}

#[test]
fn exploit_tail_is_the_last_quarter() {
    assert!(!in_exploit_tail(74, 100));
    assert!(in_exploit_tail(75, 100));
    assert!(in_exploit_tail(100, 100));
    assert!(!in_exploit_tail(8, 12));
    assert!(in_exploit_tail(9, 12));
    assert_eq!(in_exploit_tail(9, 12), 9.0 >= 12.0 * (1.0 - 0.25));
}

#[test]
fn names_select_algorithm_objective_and_scheme() {
    assert_eq!(default_algorithm(), "bo");
    assert_eq!(Algorithm::from_name("ga"), Algorithm::Genetic);
    assert_eq!(Algorithm::from_name("bo"), Algorithm::Bayesian);
    assert_eq!(Algorithm::from_name("GA"), Algorithm::Bayesian);
    assert_eq!(Objective::from_name("green"), Objective::Green);
    assert_eq!(Objective::from_name("capex"), Objective::Capex);
    assert_eq!(Objective::from_name("composite"), Objective::Composite);
    assert_eq!(Objective::from_name("other"), Objective::Composite);
    assert_eq!(Objective::Green.label(), "绿电电价最低");
    assert_eq!(Objective::Capex.label(), "初投资最低");
    assert_eq!(Objective::Composite.label(), "综合电价最低");
    assert_eq!(Scheme::from_name("scheme2"), Scheme::Energy);
    assert_eq!(Scheme::from_name("scheme1"), Scheme::Capacity);
    assert_eq!(Scheme::from_name(""), Scheme::Capacity);
}

#[test]
fn ga_size_checks() {
    assert_eq!(ga_size_issues(3, 0), vec!["种群大小不能小于 4", "遗传代数不能小于 1"]);
    assert_eq!(ga_size_issues(4, 1), Vec::<String>::new());
    assert_eq!(ga_size_issues(8, 0), vec!["遗传代数不能小于 1"]);
}

#[test]
fn report_counts_and_lists_failures() {
    assert!(validation_report(&vec![]).is_ok());
    let e = validation_report(&vec!["A".to_string(), "B".to_string()]).unwrap_err();
    assert_eq!(e, "参数校验未通过，共 2 项：A；B");
    let many: Vec<String> = (0..12).map(|i| format!("x{i}")).collect();
    let e = validation_report(&many).unwrap_err();
    assert!(e.starts_with("参数校验未通过，共 12 项：x0；x1；"));
    assert!(e.contains("参数校验未通过"));
}

#[test]
fn curve_checks_in_order() {
    assert_eq!(check_curves(&year_shape(0)).unwrap_err(), "输入曲线为空，请上传有效的曲线模板文件");
    let mut s = year_shape(24);
    s.price = CurveSummary { len: 23, all_finite: false };
    s.fund_fee = CurveSummary { len: 1, all_finite: true };
    assert_eq!(check_curves(&s).unwrap_err(), "曲线「电量电价」长度（23）与负荷曲线长度（24）不一致");
    s.price = CurveSummary { len: 24, all_finite: false };
    assert_eq!(check_curves(&s).unwrap_err(), "曲线「电量电价」存在非法数值（NaN/无穷）");
    s.price = CurveSummary { len: 24, all_finite: true };
    assert_eq!(check_curves(&s).unwrap_err(), "曲线「政府性基金及附加」长度（1）与负荷曲线长度（24）不一致");
    let mut t = year_shape(24);
    t.load_has_negative = true;
    assert_eq!(check_curves(&t).unwrap_err(), "负荷曲线存在负值");
    t.wind_pu = CurveSummary { len: 24, all_finite: false };
    assert_eq!(check_curves(&t).unwrap_err(), "曲线「风电出力标幺值」存在非法数值（NaN/无穷）");
}

#[test]
fn violations_are_listed_in_check_order() {
    let none = ConstraintFlags {
        self_use_gen_short: false,
        self_use_load_short: false,
        feed_over: false,
        curtail_over: false,
        unserved: false,
    };
    assert!(violation_messages(&none).is_empty());
    assert_eq!(constraint_note(&violation_messages(&none)), "满足所有约束");
    let some = ConstraintFlags { self_use_gen_short: true, curtail_over: true, unserved: true, ..none };
    let v = violation_messages(&some);
    assert_eq!(v, vec!["自发自用占总可用发电量比例不足", "弃电率超标", "存在缺供电量"]);
    assert_eq!(constraint_note(&v), "自发自用占总可用发电量比例不足、弃电率超标、存在缺供电量");
    let all = ConstraintFlags {
        self_use_gen_short: true,
        self_use_load_short: true,
        feed_over: true,
        curtail_over: true,
        unserved: true,
    };
    assert_eq!(violation_messages(&all).len(), 5);
}

#[test]
fn only_the_chosen_algorithm_is_checked() {
    let bad_bo = BoParams { n_iter: 1, n_init: 1 };
    let rates = vec!["交叉概率需在 0~1 之间".to_string()];
    assert_eq!(
        optimizer_issues("ga", rates.clone(), 2, 0, &bad_bo),
        vec!["交叉概率需在 0~1 之间", "种群大小不能小于 4", "遗传代数不能小于 1"]
    );
    assert_eq!(
        optimizer_issues("bo", rates.clone(), 2, 0, &bad_bo),
        vec!["初始随机采样点数不能小于 2", "总评估次数必须大于初始随机采样点数"]
    );
    assert!(optimizer_issues("ga", vec![], 100, 40, &bad_bo).is_empty());
    assert!(optimizer_issues("anything", rates, 0, 0, &BoParams::default()).is_empty());
}
