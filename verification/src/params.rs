//! Parameter rules of a planning run: the Bayesian optimizer's budget, the
//! choice of algorithm, objective and tariff scheme, the integer checks of
//! the optimizer parameters, the shape checks of the hourly input curves,
//! and the report that collects every failed check.

use vstd::prelude::*;
use vstd::string::*;
use crate::text::{decimal, decimal_string, joined, views, join, str_eq};

verus! {

/// Bayesian optimization parameters: the total number of evaluations,
/// initial samples included, and the number of initial random samples.
#[derive(Clone, Copy, Debug, PartialEq, Eq)]
pub struct BoParams {
    pub n_iter: u32,
    pub n_init: u32,
}

impl Default for BoParams {
    /// One hundred evaluations, twenty of them initial samples.
    fn default() -> (r: Self)
        ensures
            r.n_iter == 100,
            r.n_init == 20,
    {
        BoParams { n_iter: 100, n_init: 20 }
    }
}

/// Messages of the checks that a set of Bayesian parameters fails, in the
/// order the checks run.
pub open spec fn bo_issues_spec(bo: BoParams) -> Seq<Seq<char>> {
    (if bo.n_init < 2 { seq!["初始随机采样点数不能小于 2"@] } else { Seq::empty() })
        + (if bo.n_iter <= bo.n_init { seq!["总评估次数必须大于初始随机采样点数"@] } else { Seq::empty() })
}

/// The Bayesian parameters pass their checks exactly when there are at
/// least two initial samples and more evaluations than initial samples;
/// the sample-count message appears exactly when there are fewer than two
/// samples, and the budget message exactly when the evaluations do not
/// exceed the samples.
pub proof fn law_bo_checks_accept_runnable_budgets(bo: BoParams)
    ensures
        bo_issues_spec(bo).len() == 0 <==> (bo.n_init >= 2 && bo.n_iter > bo.n_init),
        bo_issues_spec(bo).contains("初始随机采样点数不能小于 2"@) <==> bo.n_init < 2,
        bo_issues_spec(bo).contains("总评估次数必须大于初始随机采样点数"@) <==> bo.n_iter <= bo.n_init,
{
    let a = "初始随机采样点数不能小于 2"@;
    let b = "总评估次数必须大于初始随机采样点数"@;
    reveal_strlit("初始随机采样点数不能小于 2");
    reveal_strlit("总评估次数必须大于初始随机采样点数");
    assert(a != b) by {
        assert(a.len() != b.len() || a[0] != b[0]);
    }
    let s = bo_issues_spec(bo);
    if bo.n_init < 2 {
        assert(s[0] == a);
    }
    if bo.n_iter <= bo.n_init {
        assert(s[s.len() - 1] == b);
    }
    if s.contains(a) {
        let i = choose|i: int| 0 <= i < s.len() && s[i] == a;
        if bo.n_init >= 2 {
            assert(s[i] == b);
        }
    }
    if s.contains(b) {
        let i = choose|i: int| 0 <= i < s.len() && s[i] == b;
        if bo.n_iter > bo.n_init {
            assert(s[i] == a);
        }
    }
}

/// The number of initial samples and of evaluations that the optimizer
/// actually runs: at least two samples and at least one evaluation after
/// them.
pub open spec fn budget_spec(bo: BoParams) -> (u64, u64) {
    let init: u64 = if bo.n_init < 2 { 2 } else { bo.n_init as u64 };
    let total: u64 = if (bo.n_iter as u64) < init + 1 { (init + 1) as u64 } else { bo.n_iter as u64 };
    (init, total)
}

impl BoParams {
    /// The checks that these parameters fail.
    pub fn issues(&self) -> (r: Vec<String>)
        ensures
            views(r@) == bo_issues_spec(*self),
            r@.len() == 0 <==> (self.n_init >= 2 && self.n_iter > self.n_init),
    {
        proof {
            law_bo_checks_accept_runnable_budgets(*self);
        }
        let mut r: Vec<String> = Vec::new();
        if self.n_init < 2 {
            r.push(String::from_str("初始随机采样点数不能小于 2"));
        }
        if self.n_iter <= self.n_init {
            r.push(String::from_str("总评估次数必须大于初始随机采样点数"));
        }
        assert(views(r@) =~= bo_issues_spec(*self));
        r
    }

    /// The number of initial samples and the total number of evaluations
    /// that the optimizer runs. Parameters that pass the checks are used as
    /// given.
    pub fn evaluation_budget(&self) -> (r: (u64, u64))
        ensures
            r == budget_spec(*self),
            2 <= r.0 < r.1,
            bo_issues_spec(*self).len() == 0 ==> r == (self.n_init as u64, self.n_iter as u64),
    {
        let init: u64 = if self.n_init < 2 { 2 } else { self.n_init as u64 };
        let total: u64 = if (self.n_iter as u64) < init + 1 { init + 1 } else { self.n_iter as u64 };
        proof {
            if bo_issues_spec(*self).len() == 0 {
                if self.n_init < 2 {
                    assert(bo_issues_spec(*self).len() >= 1);
                }
                if self.n_iter <= self.n_init {
                    assert(bo_issues_spec(*self).len() >= 1);
                }
            }
        }
        (init, total)
    }
}

/// Whether the optimizer has reached the last quarter of its budget, where
/// it only refines the best point found: `evaluated >= 0.75 * total`
/// (the comparison the optimizer makes in floating point, exact for counts
/// below 2^50).
pub fn in_exploit_tail(evaluated: u64, total: u64) -> (r: bool)
    ensures
        r == (4 * evaluated >= 3 * total),
{
    4 * (evaluated as u128) >= 3 * (total as u128)
}

/// The search algorithm used when none is chosen.
pub open spec fn default_algorithm_spec() -> Seq<char> {
    "bo"@
}

/// The name of the search algorithm used when none is chosen.
pub fn default_algorithm() -> (r: String)
    ensures
        r@ == default_algorithm_spec(),
{
    String::from_str("bo")
}

/// The search algorithms of a planning run.
#[derive(Clone, Copy, Debug, PartialEq, Eq)]
pub enum Algorithm {
    /// Genetic search, chosen by the name `ga`.
    Genetic,
    /// Bayesian optimization, chosen by any other name.
    Bayesian,
}

/// Which algorithm a name selects.
pub open spec fn algorithm_spec(name: Seq<char>) -> Algorithm {
    if name == "ga"@ { Algorithm::Genetic } else { Algorithm::Bayesian }
}

impl Algorithm {
    /// The algorithm that `name` selects.
    pub fn from_name(name: &str) -> (r: Algorithm)
        ensures
            r == algorithm_spec(name@),
    {
        if str_eq(name, "ga") { Algorithm::Genetic } else { Algorithm::Bayesian }
    }
}

/// The quantities a run can minimise.
#[derive(Clone, Copy, Debug, PartialEq, Eq)]
pub enum Objective {
    /// The composite electricity price, chosen by any name but the two
    /// below.
    Composite,
    /// The green electricity price, chosen by `green`.
    Green,
    /// The initial investment, chosen by `capex`.
    Capex,
}

/// Which objective a name selects.
pub open spec fn objective_spec(name: Seq<char>) -> Objective {
    if name == "green"@ {
        Objective::Green
    } else if name == "capex"@ {
        Objective::Capex
    } else {
        Objective::Composite
    }
}

/// How an objective is described in progress messages.
pub open spec fn objective_label_spec(o: Objective) -> Seq<char> {
    match o {
        Objective::Green => "绿电电价最低"@,
        Objective::Capex => "初投资最低"@,
        Objective::Composite => "综合电价最低"@,
    }
}

impl Objective {
    /// The objective that `name` selects.
    pub fn from_name(name: &str) -> (r: Objective)
        ensures
            r == objective_spec(name@),
    {
        if str_eq(name, "green") {
            Objective::Green
        } else if str_eq(name, "capex") {
            Objective::Capex
        } else {
            Objective::Composite
        }
    }

    /// How the objective is described in progress messages.
    pub fn label(&self) -> (r: String)
        ensures
            r@ == objective_label_spec(*self),
    {
        match self {
            Objective::Green => String::from_str("绿电电价最低"),
            Objective::Capex => String::from_str("初投资最低"),
            Objective::Composite => String::from_str("综合电价最低"),
        }
    }
}

/// The two tariff schemes for transmission and distribution charges.
#[derive(Clone, Copy, Debug, PartialEq, Eq)]
pub enum Scheme {
    /// Capacity-based charges, chosen by any name but `scheme2`.
    Capacity,
    /// Energy-based charges, chosen by `scheme2`.
    Energy,
}

/// Which scheme a name selects.
pub open spec fn scheme_spec(name: Seq<char>) -> Scheme {
    if name == "scheme2"@ { Scheme::Energy } else { Scheme::Capacity }
}

impl Scheme {
    /// The scheme that `name` selects.
    pub fn from_name(name: &str) -> (r: Scheme)
        ensures
            r == scheme_spec(name@),
    {
        if str_eq(name, "scheme2") { Scheme::Energy } else { Scheme::Capacity }
    }
}

/// Messages of the integer checks of the genetic search parameters, in the
/// order they run.
pub open spec fn ga_size_issues_spec(population_size: u32, generations: u32) -> Seq<Seq<char>> {
    (if population_size < 4 { seq!["种群大小不能小于 4"@] } else { Seq::empty() })
        + (if generations < 1 { seq!["遗传代数不能小于 1"@] } else { Seq::empty() })
}

/// The integer checks of the genetic search parameters that fail.
pub fn ga_size_issues(population_size: u32, generations: u32) -> (r: Vec<String>)
    ensures
        views(r@) == ga_size_issues_spec(population_size, generations),
{
    let mut r: Vec<String> = Vec::new();
    if population_size < 4 {
        r.push(String::from_str("种群大小不能小于 4"));
    }
    if generations < 1 {
        r.push(String::from_str("遗传代数不能小于 1"));
    }
    assert(views(r@) =~= ga_size_issues_spec(population_size, generations));
    r
}

/// The failed checks of the chosen algorithm's parameters: for genetic
/// search its rate checks (made on floating-point rates by the caller) and
/// then its size checks; for Bayesian optimization its own checks. The other
/// algorithm's parameters are not checked.
pub open spec fn optimizer_issues_spec(
    algorithm: Seq<char>,
    ga_rate_issues: Seq<Seq<char>>,
    population_size: u32,
    generations: u32,
    bo: BoParams,
) -> Seq<Seq<char>> {
    match algorithm_spec(algorithm) {
        Algorithm::Genetic => ga_rate_issues + ga_size_issues_spec(population_size, generations),
        Algorithm::Bayesian => bo_issues_spec(bo),
    }
}

/// The failed checks of the chosen algorithm's parameters.
pub fn optimizer_issues(
    algorithm: &str,
    ga_rate_issues: Vec<String>,
    population_size: u32,
    generations: u32,
    bo: &BoParams,
) -> (r: Vec<String>)
    ensures
        views(r@) == optimizer_issues_spec(algorithm@, views(ga_rate_issues@), population_size, generations, *bo),
{
    match Algorithm::from_name(algorithm) {
        Algorithm::Genetic => {
            let mut r = ga_rate_issues;
            let mut sizes = ga_size_issues(population_size, generations);
            let ghost a = r@;
            let ghost b = sizes@;
            r.append(&mut sizes);
            assert(views(r@) =~= views(a) + views(b));
            r
        },
        Algorithm::Bayesian => bo.issues(),
    }
}

/// The message that refuses a parameter set with the given failed checks.
pub open spec fn report_message(issues: Seq<Seq<char>>) -> Seq<char> {
    "参数校验未通过，共 "@ + decimal(issues.len()) + " 项："@ + joined(issues, "；"@)
}

/// Accepts a parameter set when no check failed, and otherwise refuses it
/// with one message that counts and lists every failed check.
pub fn validation_report(issues: &Vec<String>) -> (r: Result<(), String>)
    ensures
        r is Ok <==> issues@.len() == 0,
        r matches Err(m) ==> m@ == report_message(views(issues@)),
{
    if issues.len() == 0 {
        return Ok(());
    }
    let mut m = String::from_str("参数校验未通过，共 ");
    let count = decimal_string(issues.len() as u64);
    m.append(count.as_str());
    m.append(" 项：");
    let listed = join(issues, "；");
    m.append(listed.as_str());
    Err(m)
}


/// What the curve checks read of one hourly curve: its length and whether
/// every value in it is finite.
#[derive(Clone, Copy, Debug)]
pub struct CurveSummary {
    pub len: usize,
    pub all_finite: bool,
}

/// What the curve checks read of a year of hourly input: the load curve's
/// length and whether it holds a negative value, and a summary of each
/// other curve.
#[derive(Clone, Copy, Debug)]
pub struct CurveShape {
    pub load_len: usize,
    pub load_has_negative: bool,
    pub wind_pu: CurveSummary,
    pub pv_pu: CurveSummary,
    pub price: CurveSummary,
    pub loss_fee: CurveSummary,
    pub tdu_fee: CurveSummary,
    pub system_fee: CurveSummary,
    pub fund_fee: CurveSummary,
}

/// The message for a curve whose length differs from the load curve's.
pub open spec fn length_message(name: Seq<char>, len: nat, load_len: nat) -> Seq<char> {
    "曲线「"@ + name + "」长度（"@ + decimal(len) + "）与负荷曲线长度（"@ + decimal(load_len) + "）不一致"@
}

/// The message for a curve that holds a value that is not finite.
pub open spec fn non_finite_message(name: Seq<char>) -> Seq<char> {
    "曲线「"@ + name + "」存在非法数值（NaN/无穷）"@
}

/// What is wrong with one curve, if anything: its length first, then its
/// values.
pub open spec fn curve_issue(name: Seq<char>, c: CurveSummary, load_len: nat) -> Option<Seq<char>> {
    if c.len != load_len {
        Some(length_message(name, c.len as nat, load_len))
    } else if !c.all_finite {
        Some(non_finite_message(name))
    } else {
        None
    }
}

/// The first of two findings.
pub open spec fn or_else(a: Option<Seq<char>>, b: Option<Seq<char>>) -> Option<Seq<char>> {
    if a is Some { a } else { b }
}

/// The first problem found among the seven curves that sit beside the load
/// curve, checked in a fixed order.
pub open spec fn first_curve_issue(s: CurveShape) -> Option<Seq<char>> {
    let n = s.load_len as nat;
    or_else(curve_issue("风电出力标幺值"@, s.wind_pu, n),
    or_else(curve_issue("光伏出力标幺值"@, s.pv_pu, n),
    or_else(curve_issue("电量电价"@, s.price, n),
    or_else(curve_issue("上网环节线损费"@, s.loss_fee, n),
    or_else(curve_issue("电度输配电价"@, s.tdu_fee, n),
    or_else(curve_issue("系统运行费"@, s.system_fee, n),
    curve_issue("政府性基金及附加"@, s.fund_fee, n)))))))
}

/// The message for an empty load curve.
pub open spec fn empty_curves_message() -> Seq<char> {
    "输入曲线为空，请上传有效的曲线模板文件"@
}

/// The message for a load curve with a negative value.
pub open spec fn negative_load_message() -> Seq<char> {
    "负荷曲线存在负值"@
}

/// The outcome of the curve checks: an empty load curve, then the other
/// curves one by one, then negative load.
pub open spec fn curve_check_spec(s: CurveShape) -> Result<(), Seq<char>> {
    if s.load_len == 0 {
        Err(empty_curves_message())
    } else if first_curve_issue(s) is Some {
        Err(first_curve_issue(s)->Some_0)
    } else if s.load_has_negative {
        Err(negative_load_message())
    } else {
        Ok(())
    }
}

/// A year of input that every check accepts: a non-empty load curve
/// without negative values, and seven other curves of exactly its length
/// with finite values only.
pub open spec fn is_consistent_year(s: CurveShape) -> bool {
    &&& s.load_len > 0
    &&& !s.load_has_negative
    &&& s.wind_pu.len == s.load_len && s.wind_pu.all_finite
    &&& s.pv_pu.len == s.load_len && s.pv_pu.all_finite
    &&& s.price.len == s.load_len && s.price.all_finite
    &&& s.loss_fee.len == s.load_len && s.loss_fee.all_finite
    &&& s.tdu_fee.len == s.load_len && s.tdu_fee.all_finite
    &&& s.system_fee.len == s.load_len && s.system_fee.all_finite
    &&& s.fund_fee.len == s.load_len && s.fund_fee.all_finite
}

/// The curve checks accept a year exactly when it is consistent: any curve
/// longer or shorter than the load curve, any non-finite value, an empty
/// load curve or a negative load is refused.
pub proof fn law_curve_check_accepts_exactly_consistent_years(s: CurveShape)
    ensures
        curve_check_spec(s) is Ok <==> is_consistent_year(s),
{
}

fn check_one_curve(name: &str, c: &CurveSummary, load_len: usize) -> (r: Result<(), String>)
    ensures
        match curve_issue(name@, *c, load_len as nat) {
            Some(m) => r matches Err(e) && e@ == m,
            None => r is Ok,
        },
{
    if c.len != load_len {
        let mut m = String::from_str("曲线「");
        m.append(name);
        m.append("」长度（");
        let a = decimal_string(c.len as u64);
        m.append(a.as_str());
        m.append("）与负荷曲线长度（");
        let b = decimal_string(load_len as u64);
        m.append(b.as_str());
        m.append("）不一致");
        Err(m)
    } else if !c.all_finite {
        let mut m = String::from_str("曲线「");
        m.append(name);
        m.append("」存在非法数值（NaN/无穷）");
        Err(m)
    } else {
        Ok(())
    }
}

/// Checks that a year of hourly input is usable: the load curve is not
/// empty, every other curve is as long as it and finite, and no load is
/// negative. The first failed check gives the message.
pub fn check_curves(s: &CurveShape) -> (r: Result<(), String>)
    ensures
        match curve_check_spec(*s) {
            Ok(()) => r is Ok,
            Err(m) => r matches Err(e) && e@ == m,
        },
        r is Ok <==> is_consistent_year(*s),
{
    proof {
        law_curve_check_accepts_exactly_consistent_years(*s);
    }
    let n = s.load_len;
    if n == 0 {
        return Err(String::from_str("输入曲线为空，请上传有效的曲线模板文件"));
    }
    check_one_curve("风电出力标幺值", &s.wind_pu, n)?;
    check_one_curve("光伏出力标幺值", &s.pv_pu, n)?;
    check_one_curve("电量电价", &s.price, n)?;
    check_one_curve("上网环节线损费", &s.loss_fee, n)?;
    check_one_curve("电度输配电价", &s.tdu_fee, n)?;
    check_one_curve("系统运行费", &s.system_fee, n)?;
    check_one_curve("政府性基金及附加", &s.fund_fee, n)?;
    if s.load_has_negative {
        return Err(String::from_str("负荷曲线存在负值"));
    }
    Ok(())
}

} // verus!
