//! The decisions of reading an input workbook: which sheet is read, where
//! the "项目 / 数值" header stands, which rows name a known parameter with a
//! number, and which rows are skipped.

use vstd::prelude::*;
use vstd::string::*;
use crate::text::{has_substring, contains_str, str_eq, views, first_index_of, lemma_first_index_of};

verus! {

/// The parameter labels of the standard input template and the key under
/// which the front end keeps each value.
pub open spec fn input_label_keys() -> Seq<(Seq<char>, Seq<char>)> {
    seq![
        ("储能充放电深度"@, "dod"@),
        ("电池充放电倍率"@, "rate"@),
        ("储能初始电量"@, "initialSoc"@),
        ("储能系统充电效率"@, "chargeEff"@),
        ("储能系统放电效率"@, "dischargeEff"@),
        ("接入公共电网容量（最大下网功率）"@, "gridCapacity"@),
        ("平均负荷率"@, "avgLoadRate"@),
        ("自发自用占总可用发电量比例下限"@, "selfUseGenMin"@),
        ("自发自用占总用电量比例下限"@, "selfUseLoadMin"@),
        ("余电上网比例上限"@, "feedLimit"@),
        ("余电最大上网功率"@, "feedPower"@),
        ("弃电率上限"@, "curtailLimit"@),
        ("风电系统单位投资"@, "windInvest"@),
        ("光伏系统单位投资"@, "pvInvest"@),
        ("储能系统单位投资"@, "essInvest"@),
        ("年运维费用占比"@, "opexRatio"@),
        ("人员工资"@, "salary"@),
        ("定员人数"@, "staffCount"@),
        ("折现率"@, "discountRate"@),
        ("评价周期"@, "evalPeriod"@),
        ("其他固定投资"@, "otherInvest"@),
        ("电池更换单价"@, "batteryReplaceUnit"@),
        ("电池更换比例"@, "batteryReplaceRatio"@),
        ("电池更换时间"@, "batteryReplaceYear"@),
        ("选定风电规模起始值"@, "windStart"@),
        ("选定风电规模结束值"@, "windEnd"@),
        ("选定光伏规模起始值"@, "pvStart"@),
        ("选定光伏规模结束值"@, "pvEnd"@),
        ("选定储能容量起始值"@, "essStart"@),
        ("选定储能容量结束值"@, "essEnd"@)
    ]
}

/// The label table, as executable data.
fn input_label_table() -> (r: Vec<(&'static str, &'static str)>)
    ensures
        r@.map_values(|p: (&str, &str)| (p.0@, p.1@)) == input_label_keys(),
{
    let r = vec![
        ("储能充放电深度", "dod"),
        ("电池充放电倍率", "rate"),
        ("储能初始电量", "initialSoc"),
        ("储能系统充电效率", "chargeEff"),
        ("储能系统放电效率", "dischargeEff"),
        ("接入公共电网容量（最大下网功率）", "gridCapacity"),
        ("平均负荷率", "avgLoadRate"),
        ("自发自用占总可用发电量比例下限", "selfUseGenMin"),
        ("自发自用占总用电量比例下限", "selfUseLoadMin"),
        ("余电上网比例上限", "feedLimit"),
        ("余电最大上网功率", "feedPower"),
        ("弃电率上限", "curtailLimit"),
        ("风电系统单位投资", "windInvest"),
        ("光伏系统单位投资", "pvInvest"),
        ("储能系统单位投资", "essInvest"),
        ("年运维费用占比", "opexRatio"),
        ("人员工资", "salary"),
        ("定员人数", "staffCount"),
        ("折现率", "discountRate"),
        ("评价周期", "evalPeriod"),
        ("其他固定投资", "otherInvest"),
        ("电池更换单价", "batteryReplaceUnit"),
        ("电池更换比例", "batteryReplaceRatio"),
        ("电池更换时间", "batteryReplaceYear"),
        ("选定风电规模起始值", "windStart"),
        ("选定风电规模结束值", "windEnd"),
        ("选定光伏规模起始值", "pvStart"),
        ("选定光伏规模结束值", "pvEnd"),
        ("选定储能容量起始值", "essStart"),
        ("选定储能容量结束值", "essEnd")
    ];
    assert(r@.map_values(|p: (&str, &str)| (p.0@, p.1@)) =~= input_label_keys());
    r
}

/// The key of the first table entry with the given label.
pub open spec fn lookup_key(table: Seq<(Seq<char>, Seq<char>)>, label: Seq<char>) -> Option<Seq<char>>
    decreases table.len(),
{
    if table.len() == 0 {
        None
    } else if table[0].0 == label {
        Some(table[0].1)
    } else {
        lookup_key(table.drop_first(), label)
    }
}

/// The front-end key of a template label, if it is one.
pub open spec fn input_key_spec(label: Seq<char>) -> Option<Seq<char>> {
    lookup_key(input_label_keys(), label)
}

proof fn lemma_lookup_at(table: Seq<(Seq<char>, Seq<char>)>, label: Seq<char>, i: int)
    requires
        0 <= i < table.len(),
        table[i].0 == label,
        forall|j: int| 0 <= j < i ==> table[j].0 != label,
    ensures
        lookup_key(table, label) == Some(table[i].1),
    decreases i,
{
    if i > 0 {
        assert(table[0].0 != label);
        let rest = table.drop_first();
        assert forall|j: int| 0 <= j < i - 1 implies rest[j].0 != label by {
            assert(rest[j] == table[j + 1]);
        }
        lemma_lookup_at(rest, label, i - 1);
    }
}

proof fn lemma_template_label_0()
    ensures
        input_key_spec("储能充放电深度"@) == Some("dod"@),
{
    reveal_strlit("储能充放电深度");
    let t = input_label_keys();
    assert(t[0].0 == "储能充放电深度"@);
    assert(t[0].1 == "dod"@);
    lemma_lookup_at(t, "储能充放电深度"@, 0);
}

proof fn lemma_template_label_1()
    ensures
        input_key_spec("电池充放电倍率"@) == Some("rate"@),
{
    reveal_strlit("电池充放电倍率");
    reveal_strlit("储能充放电深度");
    let t = input_label_keys();
    assert forall|j: int| 0 <= j < 1 implies t[j].0 != "电池充放电倍率"@ by {
        if j == 0 {
            assert(t[0].0 == "储能充放电深度"@);
            assert("储能充放电深度"@[0] != "电池充放电倍率"@[0]);
        }
    }
    assert(t[1].0 == "电池充放电倍率"@);
    assert(t[1].1 == "rate"@);
    lemma_lookup_at(t, "电池充放电倍率"@, 1);
}

proof fn lemma_template_label_2()
    ensures
        input_key_spec("储能初始电量"@) == Some("initialSoc"@),
{
    reveal_strlit("储能初始电量");
    reveal_strlit("储能充放电深度");
    reveal_strlit("电池充放电倍率");
    let t = input_label_keys();
    assert forall|j: int| 0 <= j < 2 implies t[j].0 != "储能初始电量"@ by {
        if j == 0 {
            assert(t[0].0 == "储能充放电深度"@);
            assert("储能充放电深度"@.len() != "储能初始电量"@.len());
        } else if j == 1 {
            assert(t[1].0 == "电池充放电倍率"@);
            assert("电池充放电倍率"@.len() != "储能初始电量"@.len());
        }
    }
    assert(t[2].0 == "储能初始电量"@);
    assert(t[2].1 == "initialSoc"@);
    lemma_lookup_at(t, "储能初始电量"@, 2);
}

proof fn lemma_template_label_3()
    ensures
        input_key_spec("储能系统充电效率"@) == Some("chargeEff"@),
{
    reveal_strlit("储能系统充电效率");
    reveal_strlit("储能充放电深度");
    reveal_strlit("电池充放电倍率");
    reveal_strlit("储能初始电量");
    let t = input_label_keys();
    assert forall|j: int| 0 <= j < 3 implies t[j].0 != "储能系统充电效率"@ by {
        if j == 0 {
            assert(t[0].0 == "储能充放电深度"@);
            assert("储能充放电深度"@.len() != "储能系统充电效率"@.len());
        } else if j == 1 {
            assert(t[1].0 == "电池充放电倍率"@);
            assert("电池充放电倍率"@.len() != "储能系统充电效率"@.len());
        } else if j == 2 {
            assert(t[2].0 == "储能初始电量"@);
            assert("储能初始电量"@.len() != "储能系统充电效率"@.len());
        }
    }
    assert(t[3].0 == "储能系统充电效率"@);
    assert(t[3].1 == "chargeEff"@);
    lemma_lookup_at(t, "储能系统充电效率"@, 3);
}

proof fn lemma_template_label_4()
    ensures
        input_key_spec("储能系统放电效率"@) == Some("dischargeEff"@),
{
    reveal_strlit("储能系统放电效率");
    reveal_strlit("储能充放电深度");
    reveal_strlit("电池充放电倍率");
    reveal_strlit("储能初始电量");
    reveal_strlit("储能系统充电效率");
    let t = input_label_keys();
    assert forall|j: int| 0 <= j < 4 implies t[j].0 != "储能系统放电效率"@ by {
        if j == 0 {
            assert(t[0].0 == "储能充放电深度"@);
            assert("储能充放电深度"@.len() != "储能系统放电效率"@.len());
        } else if j == 1 {
            assert(t[1].0 == "电池充放电倍率"@);
            assert("电池充放电倍率"@.len() != "储能系统放电效率"@.len());
        } else if j == 2 {
            assert(t[2].0 == "储能初始电量"@);
            assert("储能初始电量"@.len() != "储能系统放电效率"@.len());
        } else if j == 3 {
            assert(t[3].0 == "储能系统充电效率"@);
            assert("储能系统充电效率"@[4] != "储能系统放电效率"@[4]);
        }
    }
    assert(t[4].0 == "储能系统放电效率"@);
    assert(t[4].1 == "dischargeEff"@);
    lemma_lookup_at(t, "储能系统放电效率"@, 4);
}

proof fn lemma_template_label_5()
    ensures
        input_key_spec("接入公共电网容量（最大下网功率）"@) == Some("gridCapacity"@),
{
    reveal_strlit("接入公共电网容量（最大下网功率）");
    reveal_strlit("储能充放电深度");
    reveal_strlit("电池充放电倍率");
    reveal_strlit("储能初始电量");
    reveal_strlit("储能系统充电效率");
    reveal_strlit("储能系统放电效率");
    let t = input_label_keys();
    assert forall|j: int| 0 <= j < 5 implies t[j].0 != "接入公共电网容量（最大下网功率）"@ by {
        if j == 0 {
            assert(t[0].0 == "储能充放电深度"@);
            assert("储能充放电深度"@.len() != "接入公共电网容量（最大下网功率）"@.len());
        } else if j == 1 {
            assert(t[1].0 == "电池充放电倍率"@);
            assert("电池充放电倍率"@.len() != "接入公共电网容量（最大下网功率）"@.len());
        } else if j == 2 {
            assert(t[2].0 == "储能初始电量"@);
            assert("储能初始电量"@.len() != "接入公共电网容量（最大下网功率）"@.len());
        } else if j == 3 {
            assert(t[3].0 == "储能系统充电效率"@);
            assert("储能系统充电效率"@.len() != "接入公共电网容量（最大下网功率）"@.len());
        } else if j == 4 {
            assert(t[4].0 == "储能系统放电效率"@);
            assert("储能系统放电效率"@.len() != "接入公共电网容量（最大下网功率）"@.len());
        }
    }
    assert(t[5].0 == "接入公共电网容量（最大下网功率）"@);
    assert(t[5].1 == "gridCapacity"@);
    lemma_lookup_at(t, "接入公共电网容量（最大下网功率）"@, 5);
}

proof fn lemma_template_label_6()
    ensures
        input_key_spec("平均负荷率"@) == Some("avgLoadRate"@),
{
    reveal_strlit("平均负荷率");
    reveal_strlit("储能充放电深度");
    reveal_strlit("电池充放电倍率");
    reveal_strlit("储能初始电量");
    reveal_strlit("储能系统充电效率");
    reveal_strlit("储能系统放电效率");
    reveal_strlit("接入公共电网容量（最大下网功率）");
    let t = input_label_keys();
    assert forall|j: int| 0 <= j < 6 implies t[j].0 != "平均负荷率"@ by {
        if j == 0 {
            assert(t[0].0 == "储能充放电深度"@);
            assert("储能充放电深度"@.len() != "平均负荷率"@.len());
        } else if j == 1 {
            assert(t[1].0 == "电池充放电倍率"@);
            assert("电池充放电倍率"@.len() != "平均负荷率"@.len());
        } else if j == 2 {
            assert(t[2].0 == "储能初始电量"@);
            assert("储能初始电量"@.len() != "平均负荷率"@.len());
        } else if j == 3 {
            assert(t[3].0 == "储能系统充电效率"@);
            assert("储能系统充电效率"@.len() != "平均负荷率"@.len());
        } else if j == 4 {
            assert(t[4].0 == "储能系统放电效率"@);
            assert("储能系统放电效率"@.len() != "平均负荷率"@.len());
        } else if j == 5 {
            assert(t[5].0 == "接入公共电网容量（最大下网功率）"@);
            assert("接入公共电网容量（最大下网功率）"@.len() != "平均负荷率"@.len());
        }
    }
    assert(t[6].0 == "平均负荷率"@);
    assert(t[6].1 == "avgLoadRate"@);
    lemma_lookup_at(t, "平均负荷率"@, 6);
}

proof fn lemma_template_label_7()
    ensures
        input_key_spec("自发自用占总可用发电量比例下限"@) == Some("selfUseGenMin"@),
{
    reveal_strlit("自发自用占总可用发电量比例下限");
    reveal_strlit("储能充放电深度");
    reveal_strlit("电池充放电倍率");
    reveal_strlit("储能初始电量");
    reveal_strlit("储能系统充电效率");
    reveal_strlit("储能系统放电效率");
    reveal_strlit("接入公共电网容量（最大下网功率）");
    reveal_strlit("平均负荷率");
    let t = input_label_keys();
    assert forall|j: int| 0 <= j < 7 implies t[j].0 != "自发自用占总可用发电量比例下限"@ by {
        if j == 0 {
            assert(t[0].0 == "储能充放电深度"@);
            assert("储能充放电深度"@.len() != "自发自用占总可用发电量比例下限"@.len());
        } else if j == 1 {
            assert(t[1].0 == "电池充放电倍率"@);
            assert("电池充放电倍率"@.len() != "自发自用占总可用发电量比例下限"@.len());
        } else if j == 2 {
            assert(t[2].0 == "储能初始电量"@);
            assert("储能初始电量"@.len() != "自发自用占总可用发电量比例下限"@.len());
        } else if j == 3 {
            assert(t[3].0 == "储能系统充电效率"@);
            assert("储能系统充电效率"@.len() != "自发自用占总可用发电量比例下限"@.len());
        } else if j == 4 {
            assert(t[4].0 == "储能系统放电效率"@);
            assert("储能系统放电效率"@.len() != "自发自用占总可用发电量比例下限"@.len());
        } else if j == 5 {
            assert(t[5].0 == "接入公共电网容量（最大下网功率）"@);
            assert("接入公共电网容量（最大下网功率）"@.len() != "自发自用占总可用发电量比例下限"@.len());
        } else if j == 6 {
            assert(t[6].0 == "平均负荷率"@);
            assert("平均负荷率"@.len() != "自发自用占总可用发电量比例下限"@.len());
        }
    }
    assert(t[7].0 == "自发自用占总可用发电量比例下限"@);
    assert(t[7].1 == "selfUseGenMin"@);
    lemma_lookup_at(t, "自发自用占总可用发电量比例下限"@, 7);
}

proof fn lemma_template_label_8()
    ensures
        input_key_spec("自发自用占总用电量比例下限"@) == Some("selfUseLoadMin"@),
{
    reveal_strlit("自发自用占总用电量比例下限");
    reveal_strlit("储能充放电深度");
    reveal_strlit("电池充放电倍率");
    reveal_strlit("储能初始电量");
    reveal_strlit("储能系统充电效率");
    reveal_strlit("储能系统放电效率");
    reveal_strlit("接入公共电网容量（最大下网功率）");
    reveal_strlit("平均负荷率");
    reveal_strlit("自发自用占总可用发电量比例下限");
    let t = input_label_keys();
    assert forall|j: int| 0 <= j < 8 implies t[j].0 != "自发自用占总用电量比例下限"@ by {
        if j == 0 {
            assert(t[0].0 == "储能充放电深度"@);
            assert("储能充放电深度"@.len() != "自发自用占总用电量比例下限"@.len());
        } else if j == 1 {
            assert(t[1].0 == "电池充放电倍率"@);
            assert("电池充放电倍率"@.len() != "自发自用占总用电量比例下限"@.len());
        } else if j == 2 {
            assert(t[2].0 == "储能初始电量"@);
            assert("储能初始电量"@.len() != "自发自用占总用电量比例下限"@.len());
        } else if j == 3 {
            assert(t[3].0 == "储能系统充电效率"@);
            assert("储能系统充电效率"@.len() != "自发自用占总用电量比例下限"@.len());
        } else if j == 4 {
            assert(t[4].0 == "储能系统放电效率"@);
            assert("储能系统放电效率"@.len() != "自发自用占总用电量比例下限"@.len());
        } else if j == 5 {
            assert(t[5].0 == "接入公共电网容量（最大下网功率）"@);
            assert("接入公共电网容量（最大下网功率）"@.len() != "自发自用占总用电量比例下限"@.len());
        } else if j == 6 {
            assert(t[6].0 == "平均负荷率"@);
            assert("平均负荷率"@.len() != "自发自用占总用电量比例下限"@.len());
        } else if j == 7 {
            assert(t[7].0 == "自发自用占总可用发电量比例下限"@);
            assert("自发自用占总可用发电量比例下限"@.len() != "自发自用占总用电量比例下限"@.len());
        }
    }
    assert(t[8].0 == "自发自用占总用电量比例下限"@);
    assert(t[8].1 == "selfUseLoadMin"@);
    lemma_lookup_at(t, "自发自用占总用电量比例下限"@, 8);
}

proof fn lemma_template_label_9()
    ensures
        input_key_spec("余电上网比例上限"@) == Some("feedLimit"@),
{
    reveal_strlit("余电上网比例上限");
    reveal_strlit("储能充放电深度");
    reveal_strlit("电池充放电倍率");
    reveal_strlit("储能初始电量");
    reveal_strlit("储能系统充电效率");
    reveal_strlit("储能系统放电效率");
    reveal_strlit("接入公共电网容量（最大下网功率）");
    reveal_strlit("平均负荷率");
    reveal_strlit("自发自用占总可用发电量比例下限");
    reveal_strlit("自发自用占总用电量比例下限");
    let t = input_label_keys();
    assert forall|j: int| 0 <= j < 9 implies t[j].0 != "余电上网比例上限"@ by {
        if j == 0 {
            assert(t[0].0 == "储能充放电深度"@);
            assert("储能充放电深度"@.len() != "余电上网比例上限"@.len());
        } else if j == 1 {
            assert(t[1].0 == "电池充放电倍率"@);
            assert("电池充放电倍率"@.len() != "余电上网比例上限"@.len());
        } else if j == 2 {
            assert(t[2].0 == "储能初始电量"@);
            assert("储能初始电量"@.len() != "余电上网比例上限"@.len());
        } else if j == 3 {
            assert(t[3].0 == "储能系统充电效率"@);
            assert("储能系统充电效率"@[0] != "余电上网比例上限"@[0]);
        } else if j == 4 {
            assert(t[4].0 == "储能系统放电效率"@);
            assert("储能系统放电效率"@[0] != "余电上网比例上限"@[0]);
        } else if j == 5 {
            assert(t[5].0 == "接入公共电网容量（最大下网功率）"@);
            assert("接入公共电网容量（最大下网功率）"@.len() != "余电上网比例上限"@.len());
        } else if j == 6 {
            assert(t[6].0 == "平均负荷率"@);
            assert("平均负荷率"@.len() != "余电上网比例上限"@.len());
        } else if j == 7 {
            assert(t[7].0 == "自发自用占总可用发电量比例下限"@);
            assert("自发自用占总可用发电量比例下限"@.len() != "余电上网比例上限"@.len());
        } else if j == 8 {
            assert(t[8].0 == "自发自用占总用电量比例下限"@);
            assert("自发自用占总用电量比例下限"@.len() != "余电上网比例上限"@.len());
        }
    }
    assert(t[9].0 == "余电上网比例上限"@);
    assert(t[9].1 == "feedLimit"@);
    lemma_lookup_at(t, "余电上网比例上限"@, 9);
}

proof fn lemma_template_label_10()
    ensures
        input_key_spec("余电最大上网功率"@) == Some("feedPower"@),
{
    reveal_strlit("余电最大上网功率");
    reveal_strlit("储能充放电深度");
    reveal_strlit("电池充放电倍率");
    reveal_strlit("储能初始电量");
    reveal_strlit("储能系统充电效率");
    reveal_strlit("储能系统放电效率");
    reveal_strlit("接入公共电网容量（最大下网功率）");
    reveal_strlit("平均负荷率");
    reveal_strlit("自发自用占总可用发电量比例下限");
    reveal_strlit("自发自用占总用电量比例下限");
    reveal_strlit("余电上网比例上限");
    let t = input_label_keys();
    assert forall|j: int| 0 <= j < 10 implies t[j].0 != "余电最大上网功率"@ by {
        if j == 0 {
            assert(t[0].0 == "储能充放电深度"@);
            assert("储能充放电深度"@.len() != "余电最大上网功率"@.len());
        } else if j == 1 {
            assert(t[1].0 == "电池充放电倍率"@);
            assert("电池充放电倍率"@.len() != "余电最大上网功率"@.len());
        } else if j == 2 {
            assert(t[2].0 == "储能初始电量"@);
            assert("储能初始电量"@.len() != "余电最大上网功率"@.len());
        } else if j == 3 {
            assert(t[3].0 == "储能系统充电效率"@);
            assert("储能系统充电效率"@[0] != "余电最大上网功率"@[0]);
        } else if j == 4 {
            assert(t[4].0 == "储能系统放电效率"@);
            assert("储能系统放电效率"@[0] != "余电最大上网功率"@[0]);
        } else if j == 5 {
            assert(t[5].0 == "接入公共电网容量（最大下网功率）"@);
            assert("接入公共电网容量（最大下网功率）"@.len() != "余电最大上网功率"@.len());
        } else if j == 6 {
            assert(t[6].0 == "平均负荷率"@);
            assert("平均负荷率"@.len() != "余电最大上网功率"@.len());
        } else if j == 7 {
            assert(t[7].0 == "自发自用占总可用发电量比例下限"@);
            assert("自发自用占总可用发电量比例下限"@.len() != "余电最大上网功率"@.len());
        } else if j == 8 {
            assert(t[8].0 == "自发自用占总用电量比例下限"@);
            assert("自发自用占总用电量比例下限"@.len() != "余电最大上网功率"@.len());
        } else if j == 9 {
            assert(t[9].0 == "余电上网比例上限"@);
            assert("余电上网比例上限"@[2] != "余电最大上网功率"@[2]);
        }
    }
    assert(t[10].0 == "余电最大上网功率"@);
    assert(t[10].1 == "feedPower"@);
    lemma_lookup_at(t, "余电最大上网功率"@, 10);
}

proof fn lemma_template_label_11()
    ensures
        input_key_spec("弃电率上限"@) == Some("curtailLimit"@),
{
    reveal_strlit("弃电率上限");
    reveal_strlit("储能充放电深度");
    reveal_strlit("电池充放电倍率");
    reveal_strlit("储能初始电量");
    reveal_strlit("储能系统充电效率");
    reveal_strlit("储能系统放电效率");
    reveal_strlit("接入公共电网容量（最大下网功率）");
    reveal_strlit("平均负荷率");
    reveal_strlit("自发自用占总可用发电量比例下限");
    reveal_strlit("自发自用占总用电量比例下限");
    reveal_strlit("余电上网比例上限");
    reveal_strlit("余电最大上网功率");
    let t = input_label_keys();
    assert forall|j: int| 0 <= j < 11 implies t[j].0 != "弃电率上限"@ by {
        if j == 0 {
            assert(t[0].0 == "储能充放电深度"@);
            assert("储能充放电深度"@.len() != "弃电率上限"@.len());
        } else if j == 1 {
            assert(t[1].0 == "电池充放电倍率"@);
            assert("电池充放电倍率"@.len() != "弃电率上限"@.len());
        } else if j == 2 {
            assert(t[2].0 == "储能初始电量"@);
            assert("储能初始电量"@.len() != "弃电率上限"@.len());
        } else if j == 3 {
            assert(t[3].0 == "储能系统充电效率"@);
            assert("储能系统充电效率"@.len() != "弃电率上限"@.len());
        } else if j == 4 {
            assert(t[4].0 == "储能系统放电效率"@);
            assert("储能系统放电效率"@.len() != "弃电率上限"@.len());
        } else if j == 5 {
            assert(t[5].0 == "接入公共电网容量（最大下网功率）"@);
            assert("接入公共电网容量（最大下网功率）"@.len() != "弃电率上限"@.len());
        } else if j == 6 {
            assert(t[6].0 == "平均负荷率"@);
            assert("平均负荷率"@[0] != "弃电率上限"@[0]);
        } else if j == 7 {
            assert(t[7].0 == "自发自用占总可用发电量比例下限"@);
            assert("自发自用占总可用发电量比例下限"@.len() != "弃电率上限"@.len());
        } else if j == 8 {
            assert(t[8].0 == "自发自用占总用电量比例下限"@);
            assert("自发自用占总用电量比例下限"@.len() != "弃电率上限"@.len());
        } else if j == 9 {
            assert(t[9].0 == "余电上网比例上限"@);
            assert("余电上网比例上限"@.len() != "弃电率上限"@.len());
        } else if j == 10 {
            assert(t[10].0 == "余电最大上网功率"@);
            assert("余电最大上网功率"@.len() != "弃电率上限"@.len());
        }
    }
    assert(t[11].0 == "弃电率上限"@);
    assert(t[11].1 == "curtailLimit"@);
    lemma_lookup_at(t, "弃电率上限"@, 11);
}

proof fn lemma_template_label_12()
    ensures
        input_key_spec("风电系统单位投资"@) == Some("windInvest"@),
{
    reveal_strlit("风电系统单位投资");
    reveal_strlit("储能充放电深度");
    reveal_strlit("电池充放电倍率");
    reveal_strlit("储能初始电量");
    reveal_strlit("储能系统充电效率");
    reveal_strlit("储能系统放电效率");
    reveal_strlit("接入公共电网容量（最大下网功率）");
    reveal_strlit("平均负荷率");
    reveal_strlit("自发自用占总可用发电量比例下限");
    reveal_strlit("自发自用占总用电量比例下限");
    reveal_strlit("余电上网比例上限");
    reveal_strlit("余电最大上网功率");
    reveal_strlit("弃电率上限");
    let t = input_label_keys();
    assert forall|j: int| 0 <= j < 12 implies t[j].0 != "风电系统单位投资"@ by {
        if j == 0 {
            assert(t[0].0 == "储能充放电深度"@);
            assert("储能充放电深度"@.len() != "风电系统单位投资"@.len());
        } else if j == 1 {
            assert(t[1].0 == "电池充放电倍率"@);
            assert("电池充放电倍率"@.len() != "风电系统单位投资"@.len());
        } else if j == 2 {
            assert(t[2].0 == "储能初始电量"@);
            assert("储能初始电量"@.len() != "风电系统单位投资"@.len());
        } else if j == 3 {
            assert(t[3].0 == "储能系统充电效率"@);
            assert("储能系统充电效率"@[0] != "风电系统单位投资"@[0]);
        } else if j == 4 {
            assert(t[4].0 == "储能系统放电效率"@);
            assert("储能系统放电效率"@[0] != "风电系统单位投资"@[0]);
        } else if j == 5 {
            assert(t[5].0 == "接入公共电网容量（最大下网功率）"@);
            assert("接入公共电网容量（最大下网功率）"@.len() != "风电系统单位投资"@.len());
        } else if j == 6 {
            assert(t[6].0 == "平均负荷率"@);
            assert("平均负荷率"@.len() != "风电系统单位投资"@.len());
        } else if j == 7 {
            assert(t[7].0 == "自发自用占总可用发电量比例下限"@);
            assert("自发自用占总可用发电量比例下限"@.len() != "风电系统单位投资"@.len());
        } else if j == 8 {
            assert(t[8].0 == "自发自用占总用电量比例下限"@);
            assert("自发自用占总用电量比例下限"@.len() != "风电系统单位投资"@.len());
        } else if j == 9 {
            assert(t[9].0 == "余电上网比例上限"@);
            assert("余电上网比例上限"@[0] != "风电系统单位投资"@[0]);
        } else if j == 10 {
            assert(t[10].0 == "余电最大上网功率"@);
            assert("余电最大上网功率"@[0] != "风电系统单位投资"@[0]);
        } else if j == 11 {
            assert(t[11].0 == "弃电率上限"@);
            assert("弃电率上限"@.len() != "风电系统单位投资"@.len());
        }
    }
    assert(t[12].0 == "风电系统单位投资"@);
    assert(t[12].1 == "windInvest"@);
    lemma_lookup_at(t, "风电系统单位投资"@, 12);
}

proof fn lemma_template_label_13()
    ensures
        input_key_spec("光伏系统单位投资"@) == Some("pvInvest"@),
{
    reveal_strlit("光伏系统单位投资");
    reveal_strlit("储能充放电深度");
    reveal_strlit("电池充放电倍率");
    reveal_strlit("储能初始电量");
    reveal_strlit("储能系统充电效率");
    reveal_strlit("储能系统放电效率");
    reveal_strlit("接入公共电网容量（最大下网功率）");
    reveal_strlit("平均负荷率");
    reveal_strlit("自发自用占总可用发电量比例下限");
    reveal_strlit("自发自用占总用电量比例下限");
    reveal_strlit("余电上网比例上限");
    reveal_strlit("余电最大上网功率");
    reveal_strlit("弃电率上限");
    reveal_strlit("风电系统单位投资");
    let t = input_label_keys();
    assert forall|j: int| 0 <= j < 13 implies t[j].0 != "光伏系统单位投资"@ by {
        if j == 0 {
            assert(t[0].0 == "储能充放电深度"@);
            assert("储能充放电深度"@.len() != "光伏系统单位投资"@.len());
        } else if j == 1 {
            assert(t[1].0 == "电池充放电倍率"@);
            assert("电池充放电倍率"@.len() != "光伏系统单位投资"@.len());
        } else if j == 2 {
            assert(t[2].0 == "储能初始电量"@);
            assert("储能初始电量"@.len() != "光伏系统单位投资"@.len());
        } else if j == 3 {
            assert(t[3].0 == "储能系统充电效率"@);
            assert("储能系统充电效率"@[0] != "光伏系统单位投资"@[0]);
        } else if j == 4 {
            assert(t[4].0 == "储能系统放电效率"@);
            assert("储能系统放电效率"@[0] != "光伏系统单位投资"@[0]);
        } else if j == 5 {
            assert(t[5].0 == "接入公共电网容量（最大下网功率）"@);
            assert("接入公共电网容量（最大下网功率）"@.len() != "光伏系统单位投资"@.len());
        } else if j == 6 {
            assert(t[6].0 == "平均负荷率"@);
            assert("平均负荷率"@.len() != "光伏系统单位投资"@.len());
        } else if j == 7 {
            assert(t[7].0 == "自发自用占总可用发电量比例下限"@);
            assert("自发自用占总可用发电量比例下限"@.len() != "光伏系统单位投资"@.len());
        } else if j == 8 {
            assert(t[8].0 == "自发自用占总用电量比例下限"@);
            assert("自发自用占总用电量比例下限"@.len() != "光伏系统单位投资"@.len());
        } else if j == 9 {
            assert(t[9].0 == "余电上网比例上限"@);
            assert("余电上网比例上限"@[0] != "光伏系统单位投资"@[0]);
        } else if j == 10 {
            assert(t[10].0 == "余电最大上网功率"@);
            assert("余电最大上网功率"@[0] != "光伏系统单位投资"@[0]);
        } else if j == 11 {
            assert(t[11].0 == "弃电率上限"@);
            assert("弃电率上限"@.len() != "光伏系统单位投资"@.len());
        } else if j == 12 {
            assert(t[12].0 == "风电系统单位投资"@);
            assert("风电系统单位投资"@[0] != "光伏系统单位投资"@[0]);
        }
    }
    assert(t[13].0 == "光伏系统单位投资"@);
    assert(t[13].1 == "pvInvest"@);
    lemma_lookup_at(t, "光伏系统单位投资"@, 13);
}

proof fn lemma_template_label_14()
    ensures
        input_key_spec("储能系统单位投资"@) == Some("essInvest"@),
{
    reveal_strlit("储能系统单位投资");
    reveal_strlit("储能充放电深度");
    reveal_strlit("电池充放电倍率");
    reveal_strlit("储能初始电量");
    reveal_strlit("储能系统充电效率");
    reveal_strlit("储能系统放电效率");
    reveal_strlit("接入公共电网容量（最大下网功率）");
    reveal_strlit("平均负荷率");
    reveal_strlit("自发自用占总可用发电量比例下限");
    reveal_strlit("自发自用占总用电量比例下限");
    reveal_strlit("余电上网比例上限");
    reveal_strlit("余电最大上网功率");
    reveal_strlit("弃电率上限");
    reveal_strlit("风电系统单位投资");
    reveal_strlit("光伏系统单位投资");
    let t = input_label_keys();
    assert forall|j: int| 0 <= j < 14 implies t[j].0 != "储能系统单位投资"@ by {
        if j == 0 {
            assert(t[0].0 == "储能充放电深度"@);
            assert("储能充放电深度"@.len() != "储能系统单位投资"@.len());
        } else if j == 1 {
            assert(t[1].0 == "电池充放电倍率"@);
            assert("电池充放电倍率"@.len() != "储能系统单位投资"@.len());
        } else if j == 2 {
            assert(t[2].0 == "储能初始电量"@);
            assert("储能初始电量"@.len() != "储能系统单位投资"@.len());
        } else if j == 3 {
            assert(t[3].0 == "储能系统充电效率"@);
            assert("储能系统充电效率"@[4] != "储能系统单位投资"@[4]);
        } else if j == 4 {
            assert(t[4].0 == "储能系统放电效率"@);
            assert("储能系统放电效率"@[4] != "储能系统单位投资"@[4]);
        } else if j == 5 {
            assert(t[5].0 == "接入公共电网容量（最大下网功率）"@);
            assert("接入公共电网容量（最大下网功率）"@.len() != "储能系统单位投资"@.len());
        } else if j == 6 {
            assert(t[6].0 == "平均负荷率"@);
            assert("平均负荷率"@.len() != "储能系统单位投资"@.len());
        } else if j == 7 {
            assert(t[7].0 == "自发自用占总可用发电量比例下限"@);
            assert("自发自用占总可用发电量比例下限"@.len() != "储能系统单位投资"@.len());
        } else if j == 8 {
            assert(t[8].0 == "自发自用占总用电量比例下限"@);
            assert("自发自用占总用电量比例下限"@.len() != "储能系统单位投资"@.len());
        } else if j == 9 {
            assert(t[9].0 == "余电上网比例上限"@);
            assert("余电上网比例上限"@[0] != "储能系统单位投资"@[0]);
        } else if j == 10 {
            assert(t[10].0 == "余电最大上网功率"@);
            assert("余电最大上网功率"@[0] != "储能系统单位投资"@[0]);
        } else if j == 11 {
            assert(t[11].0 == "弃电率上限"@);
            assert("弃电率上限"@.len() != "储能系统单位投资"@.len());
        } else if j == 12 {
            assert(t[12].0 == "风电系统单位投资"@);
            assert("风电系统单位投资"@[0] != "储能系统单位投资"@[0]);
        } else if j == 13 {
            assert(t[13].0 == "光伏系统单位投资"@);
            assert("光伏系统单位投资"@[0] != "储能系统单位投资"@[0]);
        }
    }
    assert(t[14].0 == "储能系统单位投资"@);
    assert(t[14].1 == "essInvest"@);
    lemma_lookup_at(t, "储能系统单位投资"@, 14);
}

proof fn lemma_template_label_15()
    ensures
        input_key_spec("年运维费用占比"@) == Some("opexRatio"@),
{
    reveal_strlit("年运维费用占比");
    reveal_strlit("储能充放电深度");
    reveal_strlit("电池充放电倍率");
    reveal_strlit("储能初始电量");
    reveal_strlit("储能系统充电效率");
    reveal_strlit("储能系统放电效率");
    reveal_strlit("接入公共电网容量（最大下网功率）");
    reveal_strlit("平均负荷率");
    reveal_strlit("自发自用占总可用发电量比例下限");
    reveal_strlit("自发自用占总用电量比例下限");
    reveal_strlit("余电上网比例上限");
    reveal_strlit("余电最大上网功率");
    reveal_strlit("弃电率上限");
    reveal_strlit("风电系统单位投资");
    reveal_strlit("光伏系统单位投资");
    reveal_strlit("储能系统单位投资");
    let t = input_label_keys();
    assert forall|j: int| 0 <= j < 15 implies t[j].0 != "年运维费用占比"@ by {
        if j == 0 {
            assert(t[0].0 == "储能充放电深度"@);
            assert("储能充放电深度"@[0] != "年运维费用占比"@[0]);
        } else if j == 1 {
            assert(t[1].0 == "电池充放电倍率"@);
            assert("电池充放电倍率"@[0] != "年运维费用占比"@[0]);
        } else if j == 2 {
            assert(t[2].0 == "储能初始电量"@);
            assert("储能初始电量"@.len() != "年运维费用占比"@.len());
        } else if j == 3 {
            assert(t[3].0 == "储能系统充电效率"@);
            assert("储能系统充电效率"@.len() != "年运维费用占比"@.len());
        } else if j == 4 {
            assert(t[4].0 == "储能系统放电效率"@);
            assert("储能系统放电效率"@.len() != "年运维费用占比"@.len());
        } else if j == 5 {
            assert(t[5].0 == "接入公共电网容量（最大下网功率）"@);
            assert("接入公共电网容量（最大下网功率）"@.len() != "年运维费用占比"@.len());
        } else if j == 6 {
            assert(t[6].0 == "平均负荷率"@);
            assert("平均负荷率"@.len() != "年运维费用占比"@.len());
        } else if j == 7 {
            assert(t[7].0 == "自发自用占总可用发电量比例下限"@);
            assert("自发自用占总可用发电量比例下限"@.len() != "年运维费用占比"@.len());
        } else if j == 8 {
            assert(t[8].0 == "自发自用占总用电量比例下限"@);
            assert("自发自用占总用电量比例下限"@.len() != "年运维费用占比"@.len());
        } else if j == 9 {
            assert(t[9].0 == "余电上网比例上限"@);
            assert("余电上网比例上限"@.len() != "年运维费用占比"@.len());
        } else if j == 10 {
            assert(t[10].0 == "余电最大上网功率"@);
            assert("余电最大上网功率"@.len() != "年运维费用占比"@.len());
        } else if j == 11 {
            assert(t[11].0 == "弃电率上限"@);
            assert("弃电率上限"@.len() != "年运维费用占比"@.len());
        } else if j == 12 {
            assert(t[12].0 == "风电系统单位投资"@);
            assert("风电系统单位投资"@.len() != "年运维费用占比"@.len());
        } else if j == 13 {
            assert(t[13].0 == "光伏系统单位投资"@);
            assert("光伏系统单位投资"@.len() != "年运维费用占比"@.len());
        } else if j == 14 {
            assert(t[14].0 == "储能系统单位投资"@);
            assert("储能系统单位投资"@.len() != "年运维费用占比"@.len());
        }
    }
    assert(t[15].0 == "年运维费用占比"@);
    assert(t[15].1 == "opexRatio"@);
    lemma_lookup_at(t, "年运维费用占比"@, 15);
}

proof fn lemma_template_label_16()
    ensures
        input_key_spec("人员工资"@) == Some("salary"@),
{
    reveal_strlit("人员工资");
    reveal_strlit("储能充放电深度");
    reveal_strlit("电池充放电倍率");
    reveal_strlit("储能初始电量");
    reveal_strlit("储能系统充电效率");
    reveal_strlit("储能系统放电效率");
    reveal_strlit("接入公共电网容量（最大下网功率）");
    reveal_strlit("平均负荷率");
    reveal_strlit("自发自用占总可用发电量比例下限");
    reveal_strlit("自发自用占总用电量比例下限");
    reveal_strlit("余电上网比例上限");
    reveal_strlit("余电最大上网功率");
    reveal_strlit("弃电率上限");
    reveal_strlit("风电系统单位投资");
    reveal_strlit("光伏系统单位投资");
    reveal_strlit("储能系统单位投资");
    reveal_strlit("年运维费用占比");
    let t = input_label_keys();
    assert forall|j: int| 0 <= j < 16 implies t[j].0 != "人员工资"@ by {
        if j == 0 {
            assert(t[0].0 == "储能充放电深度"@);
            assert("储能充放电深度"@.len() != "人员工资"@.len());
        } else if j == 1 {
            assert(t[1].0 == "电池充放电倍率"@);
            assert("电池充放电倍率"@.len() != "人员工资"@.len());
        } else if j == 2 {
            assert(t[2].0 == "储能初始电量"@);
            assert("储能初始电量"@.len() != "人员工资"@.len());
        } else if j == 3 {
            assert(t[3].0 == "储能系统充电效率"@);
            assert("储能系统充电效率"@.len() != "人员工资"@.len());
        } else if j == 4 {
            assert(t[4].0 == "储能系统放电效率"@);
            assert("储能系统放电效率"@.len() != "人员工资"@.len());
        } else if j == 5 {
            assert(t[5].0 == "接入公共电网容量（最大下网功率）"@);
            assert("接入公共电网容量（最大下网功率）"@.len() != "人员工资"@.len());
        } else if j == 6 {
            assert(t[6].0 == "平均负荷率"@);
            assert("平均负荷率"@.len() != "人员工资"@.len());
        } else if j == 7 {
            assert(t[7].0 == "自发自用占总可用发电量比例下限"@);
            assert("自发自用占总可用发电量比例下限"@.len() != "人员工资"@.len());
        } else if j == 8 {
            assert(t[8].0 == "自发自用占总用电量比例下限"@);
            assert("自发自用占总用电量比例下限"@.len() != "人员工资"@.len());
        } else if j == 9 {
            assert(t[9].0 == "余电上网比例上限"@);
            assert("余电上网比例上限"@.len() != "人员工资"@.len());
        } else if j == 10 {
            assert(t[10].0 == "余电最大上网功率"@);
            assert("余电最大上网功率"@.len() != "人员工资"@.len());
        } else if j == 11 {
            assert(t[11].0 == "弃电率上限"@);
            assert("弃电率上限"@.len() != "人员工资"@.len());
        } else if j == 12 {
            assert(t[12].0 == "风电系统单位投资"@);
            assert("风电系统单位投资"@.len() != "人员工资"@.len());
        } else if j == 13 {
            assert(t[13].0 == "光伏系统单位投资"@);
            assert("光伏系统单位投资"@.len() != "人员工资"@.len());
        } else if j == 14 {
            assert(t[14].0 == "储能系统单位投资"@);
            assert("储能系统单位投资"@.len() != "人员工资"@.len());
        } else if j == 15 {
            assert(t[15].0 == "年运维费用占比"@);
            assert("年运维费用占比"@.len() != "人员工资"@.len());
        }
    }
    assert(t[16].0 == "人员工资"@);
    assert(t[16].1 == "salary"@);
    lemma_lookup_at(t, "人员工资"@, 16);
}

proof fn lemma_template_label_17()
    ensures
        input_key_spec("定员人数"@) == Some("staffCount"@),
{
    reveal_strlit("定员人数");
    reveal_strlit("储能充放电深度");
    reveal_strlit("电池充放电倍率");
    reveal_strlit("储能初始电量");
    reveal_strlit("储能系统充电效率");
    reveal_strlit("储能系统放电效率");
    reveal_strlit("接入公共电网容量（最大下网功率）");
    reveal_strlit("平均负荷率");
    reveal_strlit("自发自用占总可用发电量比例下限");
    reveal_strlit("自发自用占总用电量比例下限");
    reveal_strlit("余电上网比例上限");
    reveal_strlit("余电最大上网功率");
    reveal_strlit("弃电率上限");
    reveal_strlit("风电系统单位投资");
    reveal_strlit("光伏系统单位投资");
    reveal_strlit("储能系统单位投资");
    reveal_strlit("年运维费用占比");
    reveal_strlit("人员工资");
    let t = input_label_keys();
    assert forall|j: int| 0 <= j < 17 implies t[j].0 != "定员人数"@ by {
        if j == 0 {
            assert(t[0].0 == "储能充放电深度"@);
            assert("储能充放电深度"@.len() != "定员人数"@.len());
        } else if j == 1 {
            assert(t[1].0 == "电池充放电倍率"@);
            assert("电池充放电倍率"@.len() != "定员人数"@.len());
        } else if j == 2 {
            assert(t[2].0 == "储能初始电量"@);
            assert("储能初始电量"@.len() != "定员人数"@.len());
        } else if j == 3 {
            assert(t[3].0 == "储能系统充电效率"@);
            assert("储能系统充电效率"@.len() != "定员人数"@.len());
        } else if j == 4 {
            assert(t[4].0 == "储能系统放电效率"@);
            assert("储能系统放电效率"@.len() != "定员人数"@.len());
        } else if j == 5 {
            assert(t[5].0 == "接入公共电网容量（最大下网功率）"@);
            assert("接入公共电网容量（最大下网功率）"@.len() != "定员人数"@.len());
        } else if j == 6 {
            assert(t[6].0 == "平均负荷率"@);
            assert("平均负荷率"@.len() != "定员人数"@.len());
        } else if j == 7 {
            assert(t[7].0 == "自发自用占总可用发电量比例下限"@);
            assert("自发自用占总可用发电量比例下限"@.len() != "定员人数"@.len());
        } else if j == 8 {
            assert(t[8].0 == "自发自用占总用电量比例下限"@);
            assert("自发自用占总用电量比例下限"@.len() != "定员人数"@.len());
        } else if j == 9 {
            assert(t[9].0 == "余电上网比例上限"@);
            assert("余电上网比例上限"@.len() != "定员人数"@.len());
        } else if j == 10 {
            assert(t[10].0 == "余电最大上网功率"@);
            assert("余电最大上网功率"@.len() != "定员人数"@.len());
        } else if j == 11 {
            assert(t[11].0 == "弃电率上限"@);
            assert("弃电率上限"@.len() != "定员人数"@.len());
        } else if j == 12 {
            assert(t[12].0 == "风电系统单位投资"@);
            assert("风电系统单位投资"@.len() != "定员人数"@.len());
        } else if j == 13 {
            assert(t[13].0 == "光伏系统单位投资"@);
            assert("光伏系统单位投资"@.len() != "定员人数"@.len());
        } else if j == 14 {
            assert(t[14].0 == "储能系统单位投资"@);
            assert("储能系统单位投资"@.len() != "定员人数"@.len());
        } else if j == 15 {
            assert(t[15].0 == "年运维费用占比"@);
            assert("年运维费用占比"@.len() != "定员人数"@.len());
        } else if j == 16 {
            assert(t[16].0 == "人员工资"@);
            assert("人员工资"@[0] != "定员人数"@[0]);
        }
    }
    assert(t[17].0 == "定员人数"@);
    assert(t[17].1 == "staffCount"@);
    lemma_lookup_at(t, "定员人数"@, 17);
}

proof fn lemma_template_label_18()
    ensures
        input_key_spec("折现率"@) == Some("discountRate"@),
{
    reveal_strlit("折现率");
    reveal_strlit("储能充放电深度");
    reveal_strlit("电池充放电倍率");
    reveal_strlit("储能初始电量");
    reveal_strlit("储能系统充电效率");
    reveal_strlit("储能系统放电效率");
    reveal_strlit("接入公共电网容量（最大下网功率）");
    reveal_strlit("平均负荷率");
    reveal_strlit("自发自用占总可用发电量比例下限");
    reveal_strlit("自发自用占总用电量比例下限");
    reveal_strlit("余电上网比例上限");
    reveal_strlit("余电最大上网功率");
    reveal_strlit("弃电率上限");
    reveal_strlit("风电系统单位投资");
    reveal_strlit("光伏系统单位投资");
    reveal_strlit("储能系统单位投资");
    reveal_strlit("年运维费用占比");
    reveal_strlit("人员工资");
    reveal_strlit("定员人数");
    let t = input_label_keys();
    assert forall|j: int| 0 <= j < 18 implies t[j].0 != "折现率"@ by {
        if j == 0 {
            assert(t[0].0 == "储能充放电深度"@);
            assert("储能充放电深度"@.len() != "折现率"@.len());
        } else if j == 1 {
            assert(t[1].0 == "电池充放电倍率"@);
            assert("电池充放电倍率"@.len() != "折现率"@.len());
        } else if j == 2 {
            assert(t[2].0 == "储能初始电量"@);
            assert("储能初始电量"@.len() != "折现率"@.len());
        } else if j == 3 {
            assert(t[3].0 == "储能系统充电效率"@);
            assert("储能系统充电效率"@.len() != "折现率"@.len());
        } else if j == 4 {
            assert(t[4].0 == "储能系统放电效率"@);
            assert("储能系统放电效率"@.len() != "折现率"@.len());
        } else if j == 5 {
            assert(t[5].0 == "接入公共电网容量（最大下网功率）"@);
            assert("接入公共电网容量（最大下网功率）"@.len() != "折现率"@.len());
        } else if j == 6 {
            assert(t[6].0 == "平均负荷率"@);
            assert("平均负荷率"@.len() != "折现率"@.len());
        } else if j == 7 {
            assert(t[7].0 == "自发自用占总可用发电量比例下限"@);
            assert("自发自用占总可用发电量比例下限"@.len() != "折现率"@.len());
        } else if j == 8 {
            assert(t[8].0 == "自发自用占总用电量比例下限"@);
            assert("自发自用占总用电量比例下限"@.len() != "折现率"@.len());
        } else if j == 9 {
            assert(t[9].0 == "余电上网比例上限"@);
            assert("余电上网比例上限"@.len() != "折现率"@.len());
        } else if j == 10 {
            assert(t[10].0 == "余电最大上网功率"@);
            assert("余电最大上网功率"@.len() != "折现率"@.len());
        } else if j == 11 {
            assert(t[11].0 == "弃电率上限"@);
            assert("弃电率上限"@.len() != "折现率"@.len());
        } else if j == 12 {
            assert(t[12].0 == "风电系统单位投资"@);
            assert("风电系统单位投资"@.len() != "折现率"@.len());
        } else if j == 13 {
            assert(t[13].0 == "光伏系统单位投资"@);
            assert("光伏系统单位投资"@.len() != "折现率"@.len());
        } else if j == 14 {
            assert(t[14].0 == "储能系统单位投资"@);
            assert("储能系统单位投资"@.len() != "折现率"@.len());
        } else if j == 15 {
            assert(t[15].0 == "年运维费用占比"@);
            assert("年运维费用占比"@.len() != "折现率"@.len());
        } else if j == 16 {
            assert(t[16].0 == "人员工资"@);
            assert("人员工资"@.len() != "折现率"@.len());
        } else if j == 17 {
            assert(t[17].0 == "定员人数"@);
            assert("定员人数"@.len() != "折现率"@.len());
        }
    }
    assert(t[18].0 == "折现率"@);
    assert(t[18].1 == "discountRate"@);
    lemma_lookup_at(t, "折现率"@, 18);
}

proof fn lemma_template_label_19()
    ensures
        input_key_spec("评价周期"@) == Some("evalPeriod"@),
{
    reveal_strlit("评价周期");
    reveal_strlit("储能充放电深度");
    reveal_strlit("电池充放电倍率");
    reveal_strlit("储能初始电量");
    reveal_strlit("储能系统充电效率");
    reveal_strlit("储能系统放电效率");
    reveal_strlit("接入公共电网容量（最大下网功率）");
    reveal_strlit("平均负荷率");
    reveal_strlit("自发自用占总可用发电量比例下限");
    reveal_strlit("自发自用占总用电量比例下限");
    reveal_strlit("余电上网比例上限");
    reveal_strlit("余电最大上网功率");
    reveal_strlit("弃电率上限");
    reveal_strlit("风电系统单位投资");
    reveal_strlit("光伏系统单位投资");
    reveal_strlit("储能系统单位投资");
    reveal_strlit("年运维费用占比");
    reveal_strlit("人员工资");
    reveal_strlit("定员人数");
    reveal_strlit("折现率");
    let t = input_label_keys();
    assert forall|j: int| 0 <= j < 19 implies t[j].0 != "评价周期"@ by {
        if j == 0 {
            assert(t[0].0 == "储能充放电深度"@);
            assert("储能充放电深度"@.len() != "评价周期"@.len());
        } else if j == 1 {
            assert(t[1].0 == "电池充放电倍率"@);
            assert("电池充放电倍率"@.len() != "评价周期"@.len());
        } else if j == 2 {
            assert(t[2].0 == "储能初始电量"@);
            assert("储能初始电量"@.len() != "评价周期"@.len());
        } else if j == 3 {
            assert(t[3].0 == "储能系统充电效率"@);
            assert("储能系统充电效率"@.len() != "评价周期"@.len());
        } else if j == 4 {
            assert(t[4].0 == "储能系统放电效率"@);
            assert("储能系统放电效率"@.len() != "评价周期"@.len());
        } else if j == 5 {
            assert(t[5].0 == "接入公共电网容量（最大下网功率）"@);
            assert("接入公共电网容量（最大下网功率）"@.len() != "评价周期"@.len());
        } else if j == 6 {
            assert(t[6].0 == "平均负荷率"@);
            assert("平均负荷率"@.len() != "评价周期"@.len());
        } else if j == 7 {
            assert(t[7].0 == "自发自用占总可用发电量比例下限"@);
            assert("自发自用占总可用发电量比例下限"@.len() != "评价周期"@.len());
        } else if j == 8 {
            assert(t[8].0 == "自发自用占总用电量比例下限"@);
            assert("自发自用占总用电量比例下限"@.len() != "评价周期"@.len());
        } else if j == 9 {
            assert(t[9].0 == "余电上网比例上限"@);
            assert("余电上网比例上限"@.len() != "评价周期"@.len());
        } else if j == 10 {
            assert(t[10].0 == "余电最大上网功率"@);
            assert("余电最大上网功率"@.len() != "评价周期"@.len());
        } else if j == 11 {
            assert(t[11].0 == "弃电率上限"@);
            assert("弃电率上限"@.len() != "评价周期"@.len());
        } else if j == 12 {
            assert(t[12].0 == "风电系统单位投资"@);
            assert("风电系统单位投资"@.len() != "评价周期"@.len());
        } else if j == 13 {
            assert(t[13].0 == "光伏系统单位投资"@);
            assert("光伏系统单位投资"@.len() != "评价周期"@.len());
        } else if j == 14 {
            assert(t[14].0 == "储能系统单位投资"@);
            assert("储能系统单位投资"@.len() != "评价周期"@.len());
        } else if j == 15 {
            assert(t[15].0 == "年运维费用占比"@);
            assert("年运维费用占比"@.len() != "评价周期"@.len());
        } else if j == 16 {
            assert(t[16].0 == "人员工资"@);
            assert("人员工资"@[0] != "评价周期"@[0]);
        } else if j == 17 {
            assert(t[17].0 == "定员人数"@);
            assert("定员人数"@[0] != "评价周期"@[0]);
        } else if j == 18 {
            assert(t[18].0 == "折现率"@);
            assert("折现率"@.len() != "评价周期"@.len());
        }
    }
    assert(t[19].0 == "评价周期"@);
    assert(t[19].1 == "evalPeriod"@);
    lemma_lookup_at(t, "评价周期"@, 19);
}

proof fn lemma_template_label_20()
    ensures
        input_key_spec("其他固定投资"@) == Some("otherInvest"@),
{
    reveal_strlit("其他固定投资");
    reveal_strlit("储能充放电深度");
    reveal_strlit("电池充放电倍率");
    reveal_strlit("储能初始电量");
    reveal_strlit("储能系统充电效率");
    reveal_strlit("储能系统放电效率");
    reveal_strlit("接入公共电网容量（最大下网功率）");
    reveal_strlit("平均负荷率");
    reveal_strlit("自发自用占总可用发电量比例下限");
    reveal_strlit("自发自用占总用电量比例下限");
    reveal_strlit("余电上网比例上限");
    reveal_strlit("余电最大上网功率");
    reveal_strlit("弃电率上限");
    reveal_strlit("风电系统单位投资");
    reveal_strlit("光伏系统单位投资");
    reveal_strlit("储能系统单位投资");
    reveal_strlit("年运维费用占比");
    reveal_strlit("人员工资");
    reveal_strlit("定员人数");
    reveal_strlit("折现率");
    reveal_strlit("评价周期");
    let t = input_label_keys();
    assert forall|j: int| 0 <= j < 20 implies t[j].0 != "其他固定投资"@ by {
        if j == 0 {
            assert(t[0].0 == "储能充放电深度"@);
            assert("储能充放电深度"@.len() != "其他固定投资"@.len());
        } else if j == 1 {
            assert(t[1].0 == "电池充放电倍率"@);
            assert("电池充放电倍率"@.len() != "其他固定投资"@.len());
        } else if j == 2 {
            assert(t[2].0 == "储能初始电量"@);
            assert("储能初始电量"@[0] != "其他固定投资"@[0]);
        } else if j == 3 {
            assert(t[3].0 == "储能系统充电效率"@);
            assert("储能系统充电效率"@.len() != "其他固定投资"@.len());
        } else if j == 4 {
            assert(t[4].0 == "储能系统放电效率"@);
            assert("储能系统放电效率"@.len() != "其他固定投资"@.len());
        } else if j == 5 {
            assert(t[5].0 == "接入公共电网容量（最大下网功率）"@);
            assert("接入公共电网容量（最大下网功率）"@.len() != "其他固定投资"@.len());
        } else if j == 6 {
            assert(t[6].0 == "平均负荷率"@);
            assert("平均负荷率"@.len() != "其他固定投资"@.len());
        } else if j == 7 {
            assert(t[7].0 == "自发自用占总可用发电量比例下限"@);
            assert("自发自用占总可用发电量比例下限"@.len() != "其他固定投资"@.len());
        } else if j == 8 {
            assert(t[8].0 == "自发自用占总用电量比例下限"@);
            assert("自发自用占总用电量比例下限"@.len() != "其他固定投资"@.len());
        } else if j == 9 {
            assert(t[9].0 == "余电上网比例上限"@);
            assert("余电上网比例上限"@.len() != "其他固定投资"@.len());
        } else if j == 10 {
            assert(t[10].0 == "余电最大上网功率"@);
            assert("余电最大上网功率"@.len() != "其他固定投资"@.len());
        } else if j == 11 {
            assert(t[11].0 == "弃电率上限"@);
            assert("弃电率上限"@.len() != "其他固定投资"@.len());
        } else if j == 12 {
            assert(t[12].0 == "风电系统单位投资"@);
            assert("风电系统单位投资"@.len() != "其他固定投资"@.len());
        } else if j == 13 {
            assert(t[13].0 == "光伏系统单位投资"@);
            assert("光伏系统单位投资"@.len() != "其他固定投资"@.len());
        } else if j == 14 {
            assert(t[14].0 == "储能系统单位投资"@);
            assert("储能系统单位投资"@.len() != "其他固定投资"@.len());
        } else if j == 15 {
            assert(t[15].0 == "年运维费用占比"@);
            assert("年运维费用占比"@.len() != "其他固定投资"@.len());
        } else if j == 16 {
            assert(t[16].0 == "人员工资"@);
            assert("人员工资"@.len() != "其他固定投资"@.len());
        } else if j == 17 {
            assert(t[17].0 == "定员人数"@);
            assert("定员人数"@.len() != "其他固定投资"@.len());
        } else if j == 18 {
            assert(t[18].0 == "折现率"@);
            assert("折现率"@.len() != "其他固定投资"@.len());
        } else if j == 19 {
            assert(t[19].0 == "评价周期"@);
            assert("评价周期"@.len() != "其他固定投资"@.len());
        }
    }
    assert(t[20].0 == "其他固定投资"@);
    assert(t[20].1 == "otherInvest"@);
    lemma_lookup_at(t, "其他固定投资"@, 20);
}

proof fn lemma_template_label_21()
    ensures
        input_key_spec("电池更换单价"@) == Some("batteryReplaceUnit"@),
{
    reveal_strlit("电池更换单价");
    reveal_strlit("储能充放电深度");
    reveal_strlit("电池充放电倍率");
    reveal_strlit("储能初始电量");
    reveal_strlit("储能系统充电效率");
    reveal_strlit("储能系统放电效率");
    reveal_strlit("接入公共电网容量（最大下网功率）");
    reveal_strlit("平均负荷率");
    reveal_strlit("自发自用占总可用发电量比例下限");
    reveal_strlit("自发自用占总用电量比例下限");
    reveal_strlit("余电上网比例上限");
    reveal_strlit("余电最大上网功率");
    reveal_strlit("弃电率上限");
    reveal_strlit("风电系统单位投资");
    reveal_strlit("光伏系统单位投资");
    reveal_strlit("储能系统单位投资");
    reveal_strlit("年运维费用占比");
    reveal_strlit("人员工资");
    reveal_strlit("定员人数");
    reveal_strlit("折现率");
    reveal_strlit("评价周期");
    reveal_strlit("其他固定投资");
    let t = input_label_keys();
    assert forall|j: int| 0 <= j < 21 implies t[j].0 != "电池更换单价"@ by {
        if j == 0 {
            assert(t[0].0 == "储能充放电深度"@);
            assert("储能充放电深度"@.len() != "电池更换单价"@.len());
        } else if j == 1 {
            assert(t[1].0 == "电池充放电倍率"@);
            assert("电池充放电倍率"@.len() != "电池更换单价"@.len());
        } else if j == 2 {
            assert(t[2].0 == "储能初始电量"@);
            assert("储能初始电量"@[0] != "电池更换单价"@[0]);
        } else if j == 3 {
            assert(t[3].0 == "储能系统充电效率"@);
            assert("储能系统充电效率"@.len() != "电池更换单价"@.len());
        } else if j == 4 {
            assert(t[4].0 == "储能系统放电效率"@);
            assert("储能系统放电效率"@.len() != "电池更换单价"@.len());
        } else if j == 5 {
            assert(t[5].0 == "接入公共电网容量（最大下网功率）"@);
            assert("接入公共电网容量（最大下网功率）"@.len() != "电池更换单价"@.len());
        } else if j == 6 {
            assert(t[6].0 == "平均负荷率"@);
            assert("平均负荷率"@.len() != "电池更换单价"@.len());
        } else if j == 7 {
            assert(t[7].0 == "自发自用占总可用发电量比例下限"@);
            assert("自发自用占总可用发电量比例下限"@.len() != "电池更换单价"@.len());
        } else if j == 8 {
            assert(t[8].0 == "自发自用占总用电量比例下限"@);
            assert("自发自用占总用电量比例下限"@.len() != "电池更换单价"@.len());
        } else if j == 9 {
            assert(t[9].0 == "余电上网比例上限"@);
            assert("余电上网比例上限"@.len() != "电池更换单价"@.len());
        } else if j == 10 {
            assert(t[10].0 == "余电最大上网功率"@);
            assert("余电最大上网功率"@.len() != "电池更换单价"@.len());
        } else if j == 11 {
            assert(t[11].0 == "弃电率上限"@);
            assert("弃电率上限"@.len() != "电池更换单价"@.len());
        } else if j == 12 {
            assert(t[12].0 == "风电系统单位投资"@);
            assert("风电系统单位投资"@.len() != "电池更换单价"@.len());
        } else if j == 13 {
            assert(t[13].0 == "光伏系统单位投资"@);
            assert("光伏系统单位投资"@.len() != "电池更换单价"@.len());
        } else if j == 14 {
            assert(t[14].0 == "储能系统单位投资"@);
            assert("储能系统单位投资"@.len() != "电池更换单价"@.len());
        } else if j == 15 {
            assert(t[15].0 == "年运维费用占比"@);
            assert("年运维费用占比"@.len() != "电池更换单价"@.len());
        } else if j == 16 {
            assert(t[16].0 == "人员工资"@);
            assert("人员工资"@.len() != "电池更换单价"@.len());
        } else if j == 17 {
            assert(t[17].0 == "定员人数"@);
            assert("定员人数"@.len() != "电池更换单价"@.len());
        } else if j == 18 {
            assert(t[18].0 == "折现率"@);
            assert("折现率"@.len() != "电池更换单价"@.len());
        } else if j == 19 {
            assert(t[19].0 == "评价周期"@);
            assert("评价周期"@.len() != "电池更换单价"@.len());
        } else if j == 20 {
            assert(t[20].0 == "其他固定投资"@);
            assert("其他固定投资"@[0] != "电池更换单价"@[0]);
        }
    }
    assert(t[21].0 == "电池更换单价"@);
    assert(t[21].1 == "batteryReplaceUnit"@);
    lemma_lookup_at(t, "电池更换单价"@, 21);
}

proof fn lemma_template_label_22()
    ensures
        input_key_spec("电池更换比例"@) == Some("batteryReplaceRatio"@),
{
    reveal_strlit("电池更换比例");
    reveal_strlit("储能充放电深度");
    reveal_strlit("电池充放电倍率");
    reveal_strlit("储能初始电量");
    reveal_strlit("储能系统充电效率");
    reveal_strlit("储能系统放电效率");
    reveal_strlit("接入公共电网容量（最大下网功率）");
    reveal_strlit("平均负荷率");
    reveal_strlit("自发自用占总可用发电量比例下限");
    reveal_strlit("自发自用占总用电量比例下限");
    reveal_strlit("余电上网比例上限");
    reveal_strlit("余电最大上网功率");
    reveal_strlit("弃电率上限");
    reveal_strlit("风电系统单位投资");
    reveal_strlit("光伏系统单位投资");
    reveal_strlit("储能系统单位投资");
    reveal_strlit("年运维费用占比");
    reveal_strlit("人员工资");
    reveal_strlit("定员人数");
    reveal_strlit("折现率");
    reveal_strlit("评价周期");
    reveal_strlit("其他固定投资");
    reveal_strlit("电池更换单价");
    let t = input_label_keys();
    assert forall|j: int| 0 <= j < 22 implies t[j].0 != "电池更换比例"@ by {
        if j == 0 {
            assert(t[0].0 == "储能充放电深度"@);
            assert("储能充放电深度"@.len() != "电池更换比例"@.len());
        } else if j == 1 {
            assert(t[1].0 == "电池充放电倍率"@);
            assert("电池充放电倍率"@.len() != "电池更换比例"@.len());
        } else if j == 2 {
            assert(t[2].0 == "储能初始电量"@);
            assert("储能初始电量"@[0] != "电池更换比例"@[0]);
        } else if j == 3 {
            assert(t[3].0 == "储能系统充电效率"@);
            assert("储能系统充电效率"@.len() != "电池更换比例"@.len());
        } else if j == 4 {
            assert(t[4].0 == "储能系统放电效率"@);
            assert("储能系统放电效率"@.len() != "电池更换比例"@.len());
        } else if j == 5 {
            assert(t[5].0 == "接入公共电网容量（最大下网功率）"@);
            assert("接入公共电网容量（最大下网功率）"@.len() != "电池更换比例"@.len());
        } else if j == 6 {
            assert(t[6].0 == "平均负荷率"@);
            assert("平均负荷率"@.len() != "电池更换比例"@.len());
        } else if j == 7 {
            assert(t[7].0 == "自发自用占总可用发电量比例下限"@);
            assert("自发自用占总可用发电量比例下限"@.len() != "电池更换比例"@.len());
        } else if j == 8 {
            assert(t[8].0 == "自发自用占总用电量比例下限"@);
            assert("自发自用占总用电量比例下限"@.len() != "电池更换比例"@.len());
        } else if j == 9 {
            assert(t[9].0 == "余电上网比例上限"@);
            assert("余电上网比例上限"@.len() != "电池更换比例"@.len());
        } else if j == 10 {
            assert(t[10].0 == "余电最大上网功率"@);
            assert("余电最大上网功率"@.len() != "电池更换比例"@.len());
        } else if j == 11 {
            assert(t[11].0 == "弃电率上限"@);
            assert("弃电率上限"@.len() != "电池更换比例"@.len());
        } else if j == 12 {
            assert(t[12].0 == "风电系统单位投资"@);
            assert("风电系统单位投资"@.len() != "电池更换比例"@.len());
        } else if j == 13 {
            assert(t[13].0 == "光伏系统单位投资"@);
            assert("光伏系统单位投资"@.len() != "电池更换比例"@.len());
        } else if j == 14 {
            assert(t[14].0 == "储能系统单位投资"@);
            assert("储能系统单位投资"@.len() != "电池更换比例"@.len());
        } else if j == 15 {
            assert(t[15].0 == "年运维费用占比"@);
            assert("年运维费用占比"@.len() != "电池更换比例"@.len());
        } else if j == 16 {
            assert(t[16].0 == "人员工资"@);
            assert("人员工资"@.len() != "电池更换比例"@.len());
        } else if j == 17 {
            assert(t[17].0 == "定员人数"@);
            assert("定员人数"@.len() != "电池更换比例"@.len());
        } else if j == 18 {
            assert(t[18].0 == "折现率"@);
            assert("折现率"@.len() != "电池更换比例"@.len());
        } else if j == 19 {
            assert(t[19].0 == "评价周期"@);
            assert("评价周期"@.len() != "电池更换比例"@.len());
        } else if j == 20 {
            assert(t[20].0 == "其他固定投资"@);
            assert("其他固定投资"@[0] != "电池更换比例"@[0]);
        } else if j == 21 {
            assert(t[21].0 == "电池更换单价"@);
            assert("电池更换单价"@[4] != "电池更换比例"@[4]);
        }
    }
    assert(t[22].0 == "电池更换比例"@);
    assert(t[22].1 == "batteryReplaceRatio"@);
    lemma_lookup_at(t, "电池更换比例"@, 22);
}

proof fn lemma_template_label_23()
    ensures
        input_key_spec("电池更换时间"@) == Some("batteryReplaceYear"@),
{
    reveal_strlit("电池更换时间");
    reveal_strlit("储能充放电深度");
    reveal_strlit("电池充放电倍率");
    reveal_strlit("储能初始电量");
    reveal_strlit("储能系统充电效率");
    reveal_strlit("储能系统放电效率");
    reveal_strlit("接入公共电网容量（最大下网功率）");
    reveal_strlit("平均负荷率");
    reveal_strlit("自发自用占总可用发电量比例下限");
    reveal_strlit("自发自用占总用电量比例下限");
    reveal_strlit("余电上网比例上限");
    reveal_strlit("余电最大上网功率");
    reveal_strlit("弃电率上限");
    reveal_strlit("风电系统单位投资");
    reveal_strlit("光伏系统单位投资");
    reveal_strlit("储能系统单位投资");
    reveal_strlit("年运维费用占比");
    reveal_strlit("人员工资");
    reveal_strlit("定员人数");
    reveal_strlit("折现率");
    reveal_strlit("评价周期");
    reveal_strlit("其他固定投资");
    reveal_strlit("电池更换单价");
    reveal_strlit("电池更换比例");
    let t = input_label_keys();
    assert forall|j: int| 0 <= j < 23 implies t[j].0 != "电池更换时间"@ by {
        if j == 0 {
            assert(t[0].0 == "储能充放电深度"@);
            assert("储能充放电深度"@.len() != "电池更换时间"@.len());
        } else if j == 1 {
            assert(t[1].0 == "电池充放电倍率"@);
            assert("电池充放电倍率"@.len() != "电池更换时间"@.len());
        } else if j == 2 {
            assert(t[2].0 == "储能初始电量"@);
            assert("储能初始电量"@[0] != "电池更换时间"@[0]);
        } else if j == 3 {
            assert(t[3].0 == "储能系统充电效率"@);
            assert("储能系统充电效率"@.len() != "电池更换时间"@.len());
        } else if j == 4 {
            assert(t[4].0 == "储能系统放电效率"@);
            assert("储能系统放电效率"@.len() != "电池更换时间"@.len());
        } else if j == 5 {
            assert(t[5].0 == "接入公共电网容量（最大下网功率）"@);
            assert("接入公共电网容量（最大下网功率）"@.len() != "电池更换时间"@.len());
        } else if j == 6 {
            assert(t[6].0 == "平均负荷率"@);
            assert("平均负荷率"@.len() != "电池更换时间"@.len());
        } else if j == 7 {
            assert(t[7].0 == "自发自用占总可用发电量比例下限"@);
            assert("自发自用占总可用发电量比例下限"@.len() != "电池更换时间"@.len());
        } else if j == 8 {
            assert(t[8].0 == "自发自用占总用电量比例下限"@);
            assert("自发自用占总用电量比例下限"@.len() != "电池更换时间"@.len());
        } else if j == 9 {
            assert(t[9].0 == "余电上网比例上限"@);
            assert("余电上网比例上限"@.len() != "电池更换时间"@.len());
        } else if j == 10 {
            assert(t[10].0 == "余电最大上网功率"@);
            assert("余电最大上网功率"@.len() != "电池更换时间"@.len());
        } else if j == 11 {
            assert(t[11].0 == "弃电率上限"@);
            assert("弃电率上限"@.len() != "电池更换时间"@.len());
        } else if j == 12 {
            assert(t[12].0 == "风电系统单位投资"@);
            assert("风电系统单位投资"@.len() != "电池更换时间"@.len());
        } else if j == 13 {
            assert(t[13].0 == "光伏系统单位投资"@);
            assert("光伏系统单位投资"@.len() != "电池更换时间"@.len());
        } else if j == 14 {
            assert(t[14].0 == "储能系统单位投资"@);
            assert("储能系统单位投资"@.len() != "电池更换时间"@.len());
        } else if j == 15 {
            assert(t[15].0 == "年运维费用占比"@);
            assert("年运维费用占比"@.len() != "电池更换时间"@.len());
        } else if j == 16 {
            assert(t[16].0 == "人员工资"@);
            assert("人员工资"@.len() != "电池更换时间"@.len());
        } else if j == 17 {
            assert(t[17].0 == "定员人数"@);
            assert("定员人数"@.len() != "电池更换时间"@.len());
        } else if j == 18 {
            assert(t[18].0 == "折现率"@);
            assert("折现率"@.len() != "电池更换时间"@.len());
        } else if j == 19 {
            assert(t[19].0 == "评价周期"@);
            assert("评价周期"@.len() != "电池更换时间"@.len());
        } else if j == 20 {
            assert(t[20].0 == "其他固定投资"@);
            assert("其他固定投资"@[0] != "电池更换时间"@[0]);
        } else if j == 21 {
            assert(t[21].0 == "电池更换单价"@);
            assert("电池更换单价"@[4] != "电池更换时间"@[4]);
        } else if j == 22 {
            assert(t[22].0 == "电池更换比例"@);
            assert("电池更换比例"@[4] != "电池更换时间"@[4]);
        }
    }
    assert(t[23].0 == "电池更换时间"@);
    assert(t[23].1 == "batteryReplaceYear"@);
    lemma_lookup_at(t, "电池更换时间"@, 23);
}

proof fn lemma_template_label_24()
    ensures
        input_key_spec("选定风电规模起始值"@) == Some("windStart"@),
{
    reveal_strlit("选定风电规模起始值");
    reveal_strlit("储能充放电深度");
    reveal_strlit("电池充放电倍率");
    reveal_strlit("储能初始电量");
    reveal_strlit("储能系统充电效率");
    reveal_strlit("储能系统放电效率");
    reveal_strlit("接入公共电网容量（最大下网功率）");
    reveal_strlit("平均负荷率");
    reveal_strlit("自发自用占总可用发电量比例下限");
    reveal_strlit("自发自用占总用电量比例下限");
    reveal_strlit("余电上网比例上限");
    reveal_strlit("余电最大上网功率");
    reveal_strlit("弃电率上限");
    reveal_strlit("风电系统单位投资");
    reveal_strlit("光伏系统单位投资");
    reveal_strlit("储能系统单位投资");
    reveal_strlit("年运维费用占比");
    reveal_strlit("人员工资");
    reveal_strlit("定员人数");
    reveal_strlit("折现率");
    reveal_strlit("评价周期");
    reveal_strlit("其他固定投资");
    reveal_strlit("电池更换单价");
    reveal_strlit("电池更换比例");
    reveal_strlit("电池更换时间");
    let t = input_label_keys();
    assert forall|j: int| 0 <= j < 24 implies t[j].0 != "选定风电规模起始值"@ by {
        if j == 0 {
            assert(t[0].0 == "储能充放电深度"@);
            assert("储能充放电深度"@.len() != "选定风电规模起始值"@.len());
        } else if j == 1 {
            assert(t[1].0 == "电池充放电倍率"@);
            assert("电池充放电倍率"@.len() != "选定风电规模起始值"@.len());
        } else if j == 2 {
            assert(t[2].0 == "储能初始电量"@);
            assert("储能初始电量"@.len() != "选定风电规模起始值"@.len());
        } else if j == 3 {
            assert(t[3].0 == "储能系统充电效率"@);
            assert("储能系统充电效率"@.len() != "选定风电规模起始值"@.len());
        } else if j == 4 {
            assert(t[4].0 == "储能系统放电效率"@);
            assert("储能系统放电效率"@.len() != "选定风电规模起始值"@.len());
        } else if j == 5 {
            assert(t[5].0 == "接入公共电网容量（最大下网功率）"@);
            assert("接入公共电网容量（最大下网功率）"@.len() != "选定风电规模起始值"@.len());
        } else if j == 6 {
            assert(t[6].0 == "平均负荷率"@);
            assert("平均负荷率"@.len() != "选定风电规模起始值"@.len());
        } else if j == 7 {
            assert(t[7].0 == "自发自用占总可用发电量比例下限"@);
            assert("自发自用占总可用发电量比例下限"@.len() != "选定风电规模起始值"@.len());
        } else if j == 8 {
            assert(t[8].0 == "自发自用占总用电量比例下限"@);
            assert("自发自用占总用电量比例下限"@.len() != "选定风电规模起始值"@.len());
        } else if j == 9 {
            assert(t[9].0 == "余电上网比例上限"@);
            assert("余电上网比例上限"@.len() != "选定风电规模起始值"@.len());
        } else if j == 10 {
            assert(t[10].0 == "余电最大上网功率"@);
            assert("余电最大上网功率"@.len() != "选定风电规模起始值"@.len());
        } else if j == 11 {
            assert(t[11].0 == "弃电率上限"@);
            assert("弃电率上限"@.len() != "选定风电规模起始值"@.len());
        } else if j == 12 {
            assert(t[12].0 == "风电系统单位投资"@);
            assert("风电系统单位投资"@.len() != "选定风电规模起始值"@.len());
        } else if j == 13 {
            assert(t[13].0 == "光伏系统单位投资"@);
            assert("光伏系统单位投资"@.len() != "选定风电规模起始值"@.len());
        } else if j == 14 {
            assert(t[14].0 == "储能系统单位投资"@);
            assert("储能系统单位投资"@.len() != "选定风电规模起始值"@.len());
        } else if j == 15 {
            assert(t[15].0 == "年运维费用占比"@);
            assert("年运维费用占比"@.len() != "选定风电规模起始值"@.len());
        } else if j == 16 {
            assert(t[16].0 == "人员工资"@);
            assert("人员工资"@.len() != "选定风电规模起始值"@.len());
        } else if j == 17 {
            assert(t[17].0 == "定员人数"@);
            assert("定员人数"@.len() != "选定风电规模起始值"@.len());
        } else if j == 18 {
            assert(t[18].0 == "折现率"@);
            assert("折现率"@.len() != "选定风电规模起始值"@.len());
        } else if j == 19 {
            assert(t[19].0 == "评价周期"@);
            assert("评价周期"@.len() != "选定风电规模起始值"@.len());
        } else if j == 20 {
            assert(t[20].0 == "其他固定投资"@);
            assert("其他固定投资"@.len() != "选定风电规模起始值"@.len());
        } else if j == 21 {
            assert(t[21].0 == "电池更换单价"@);
            assert("电池更换单价"@.len() != "选定风电规模起始值"@.len());
        } else if j == 22 {
            assert(t[22].0 == "电池更换比例"@);
            assert("电池更换比例"@.len() != "选定风电规模起始值"@.len());
        } else if j == 23 {
            assert(t[23].0 == "电池更换时间"@);
            assert("电池更换时间"@.len() != "选定风电规模起始值"@.len());
        }
    }
    assert(t[24].0 == "选定风电规模起始值"@);
    assert(t[24].1 == "windStart"@);
    lemma_lookup_at(t, "选定风电规模起始值"@, 24);
}

proof fn lemma_template_label_25()
    ensures
        input_key_spec("选定风电规模结束值"@) == Some("windEnd"@),
{
    reveal_strlit("选定风电规模结束值");
    reveal_strlit("储能充放电深度");
    reveal_strlit("电池充放电倍率");
    reveal_strlit("储能初始电量");
    reveal_strlit("储能系统充电效率");
    reveal_strlit("储能系统放电效率");
    reveal_strlit("接入公共电网容量（最大下网功率）");
    reveal_strlit("平均负荷率");
    reveal_strlit("自发自用占总可用发电量比例下限");
    reveal_strlit("自发自用占总用电量比例下限");
    reveal_strlit("余电上网比例上限");
    reveal_strlit("余电最大上网功率");
    reveal_strlit("弃电率上限");
    reveal_strlit("风电系统单位投资");
    reveal_strlit("光伏系统单位投资");
    reveal_strlit("储能系统单位投资");
    reveal_strlit("年运维费用占比");
    reveal_strlit("人员工资");
    reveal_strlit("定员人数");
    reveal_strlit("折现率");
    reveal_strlit("评价周期");
    reveal_strlit("其他固定投资");
    reveal_strlit("电池更换单价");
    reveal_strlit("电池更换比例");
    reveal_strlit("电池更换时间");
    reveal_strlit("选定风电规模起始值");
    let t = input_label_keys();
    assert forall|j: int| 0 <= j < 25 implies t[j].0 != "选定风电规模结束值"@ by {
        if j == 0 {
            assert(t[0].0 == "储能充放电深度"@);
            assert("储能充放电深度"@.len() != "选定风电规模结束值"@.len());
        } else if j == 1 {
            assert(t[1].0 == "电池充放电倍率"@);
            assert("电池充放电倍率"@.len() != "选定风电规模结束值"@.len());
        } else if j == 2 {
            assert(t[2].0 == "储能初始电量"@);
            assert("储能初始电量"@.len() != "选定风电规模结束值"@.len());
        } else if j == 3 {
            assert(t[3].0 == "储能系统充电效率"@);
            assert("储能系统充电效率"@.len() != "选定风电规模结束值"@.len());
        } else if j == 4 {
            assert(t[4].0 == "储能系统放电效率"@);
            assert("储能系统放电效率"@.len() != "选定风电规模结束值"@.len());
        } else if j == 5 {
            assert(t[5].0 == "接入公共电网容量（最大下网功率）"@);
            assert("接入公共电网容量（最大下网功率）"@.len() != "选定风电规模结束值"@.len());
        } else if j == 6 {
            assert(t[6].0 == "平均负荷率"@);
            assert("平均负荷率"@.len() != "选定风电规模结束值"@.len());
        } else if j == 7 {
            assert(t[7].0 == "自发自用占总可用发电量比例下限"@);
            assert("自发自用占总可用发电量比例下限"@.len() != "选定风电规模结束值"@.len());
        } else if j == 8 {
            assert(t[8].0 == "自发自用占总用电量比例下限"@);
            assert("自发自用占总用电量比例下限"@.len() != "选定风电规模结束值"@.len());
        } else if j == 9 {
            assert(t[9].0 == "余电上网比例上限"@);
            assert("余电上网比例上限"@.len() != "选定风电规模结束值"@.len());
        } else if j == 10 {
            assert(t[10].0 == "余电最大上网功率"@);
            assert("余电最大上网功率"@.len() != "选定风电规模结束值"@.len());
        } else if j == 11 {
            assert(t[11].0 == "弃电率上限"@);
            assert("弃电率上限"@.len() != "选定风电规模结束值"@.len());
        } else if j == 12 {
            assert(t[12].0 == "风电系统单位投资"@);
            assert("风电系统单位投资"@.len() != "选定风电规模结束值"@.len());
        } else if j == 13 {
            assert(t[13].0 == "光伏系统单位投资"@);
            assert("光伏系统单位投资"@.len() != "选定风电规模结束值"@.len());
        } else if j == 14 {
            assert(t[14].0 == "储能系统单位投资"@);
            assert("储能系统单位投资"@.len() != "选定风电规模结束值"@.len());
        } else if j == 15 {
            assert(t[15].0 == "年运维费用占比"@);
            assert("年运维费用占比"@.len() != "选定风电规模结束值"@.len());
        } else if j == 16 {
            assert(t[16].0 == "人员工资"@);
            assert("人员工资"@.len() != "选定风电规模结束值"@.len());
        } else if j == 17 {
            assert(t[17].0 == "定员人数"@);
            assert("定员人数"@.len() != "选定风电规模结束值"@.len());
        } else if j == 18 {
            assert(t[18].0 == "折现率"@);
            assert("折现率"@.len() != "选定风电规模结束值"@.len());
        } else if j == 19 {
            assert(t[19].0 == "评价周期"@);
            assert("评价周期"@.len() != "选定风电规模结束值"@.len());
        } else if j == 20 {
            assert(t[20].0 == "其他固定投资"@);
            assert("其他固定投资"@.len() != "选定风电规模结束值"@.len());
        } else if j == 21 {
            assert(t[21].0 == "电池更换单价"@);
            assert("电池更换单价"@.len() != "选定风电规模结束值"@.len());
        } else if j == 22 {
            assert(t[22].0 == "电池更换比例"@);
            assert("电池更换比例"@.len() != "选定风电规模结束值"@.len());
        } else if j == 23 {
            assert(t[23].0 == "电池更换时间"@);
            assert("电池更换时间"@.len() != "选定风电规模结束值"@.len());
        } else if j == 24 {
            assert(t[24].0 == "选定风电规模起始值"@);
            assert("选定风电规模起始值"@[6] != "选定风电规模结束值"@[6]);
        }
    }
    assert(t[25].0 == "选定风电规模结束值"@);
    assert(t[25].1 == "windEnd"@);
    lemma_lookup_at(t, "选定风电规模结束值"@, 25);
}

proof fn lemma_template_label_26()
    ensures
        input_key_spec("选定光伏规模起始值"@) == Some("pvStart"@),
{
    reveal_strlit("选定光伏规模起始值");
    reveal_strlit("储能充放电深度");
    reveal_strlit("电池充放电倍率");
    reveal_strlit("储能初始电量");
    reveal_strlit("储能系统充电效率");
    reveal_strlit("储能系统放电效率");
    reveal_strlit("接入公共电网容量（最大下网功率）");
    reveal_strlit("平均负荷率");
    reveal_strlit("自发自用占总可用发电量比例下限");
    reveal_strlit("自发自用占总用电量比例下限");
    reveal_strlit("余电上网比例上限");
    reveal_strlit("余电最大上网功率");
    reveal_strlit("弃电率上限");
    reveal_strlit("风电系统单位投资");
    reveal_strlit("光伏系统单位投资");
    reveal_strlit("储能系统单位投资");
    reveal_strlit("年运维费用占比");
    reveal_strlit("人员工资");
    reveal_strlit("定员人数");
    reveal_strlit("折现率");
    reveal_strlit("评价周期");
    reveal_strlit("其他固定投资");
    reveal_strlit("电池更换单价");
    reveal_strlit("电池更换比例");
    reveal_strlit("电池更换时间");
    reveal_strlit("选定风电规模起始值");
    reveal_strlit("选定风电规模结束值");
    let t = input_label_keys();
    assert forall|j: int| 0 <= j < 26 implies t[j].0 != "选定光伏规模起始值"@ by {
        if j == 0 {
            assert(t[0].0 == "储能充放电深度"@);
            assert("储能充放电深度"@.len() != "选定光伏规模起始值"@.len());
        } else if j == 1 {
            assert(t[1].0 == "电池充放电倍率"@);
            assert("电池充放电倍率"@.len() != "选定光伏规模起始值"@.len());
        } else if j == 2 {
            assert(t[2].0 == "储能初始电量"@);
            assert("储能初始电量"@.len() != "选定光伏规模起始值"@.len());
        } else if j == 3 {
            assert(t[3].0 == "储能系统充电效率"@);
            assert("储能系统充电效率"@.len() != "选定光伏规模起始值"@.len());
        } else if j == 4 {
            assert(t[4].0 == "储能系统放电效率"@);
            assert("储能系统放电效率"@.len() != "选定光伏规模起始值"@.len());
        } else if j == 5 {
            assert(t[5].0 == "接入公共电网容量（最大下网功率）"@);
            assert("接入公共电网容量（最大下网功率）"@.len() != "选定光伏规模起始值"@.len());
        } else if j == 6 {
            assert(t[6].0 == "平均负荷率"@);
            assert("平均负荷率"@.len() != "选定光伏规模起始值"@.len());
        } else if j == 7 {
            assert(t[7].0 == "自发自用占总可用发电量比例下限"@);
            assert("自发自用占总可用发电量比例下限"@.len() != "选定光伏规模起始值"@.len());
        } else if j == 8 {
            assert(t[8].0 == "自发自用占总用电量比例下限"@);
            assert("自发自用占总用电量比例下限"@.len() != "选定光伏规模起始值"@.len());
        } else if j == 9 {
            assert(t[9].0 == "余电上网比例上限"@);
            assert("余电上网比例上限"@.len() != "选定光伏规模起始值"@.len());
        } else if j == 10 {
            assert(t[10].0 == "余电最大上网功率"@);
            assert("余电最大上网功率"@.len() != "选定光伏规模起始值"@.len());
        } else if j == 11 {
            assert(t[11].0 == "弃电率上限"@);
            assert("弃电率上限"@.len() != "选定光伏规模起始值"@.len());
        } else if j == 12 {
            assert(t[12].0 == "风电系统单位投资"@);
            assert("风电系统单位投资"@.len() != "选定光伏规模起始值"@.len());
        } else if j == 13 {
            assert(t[13].0 == "光伏系统单位投资"@);
            assert("光伏系统单位投资"@.len() != "选定光伏规模起始值"@.len());
        } else if j == 14 {
            assert(t[14].0 == "储能系统单位投资"@);
            assert("储能系统单位投资"@.len() != "选定光伏规模起始值"@.len());
        } else if j == 15 {
            assert(t[15].0 == "年运维费用占比"@);
            assert("年运维费用占比"@.len() != "选定光伏规模起始值"@.len());
        } else if j == 16 {
            assert(t[16].0 == "人员工资"@);
            assert("人员工资"@.len() != "选定光伏规模起始值"@.len());
        } else if j == 17 {
            assert(t[17].0 == "定员人数"@);
            assert("定员人数"@.len() != "选定光伏规模起始值"@.len());
        } else if j == 18 {
            assert(t[18].0 == "折现率"@);
            assert("折现率"@.len() != "选定光伏规模起始值"@.len());
        } else if j == 19 {
            assert(t[19].0 == "评价周期"@);
            assert("评价周期"@.len() != "选定光伏规模起始值"@.len());
        } else if j == 20 {
            assert(t[20].0 == "其他固定投资"@);
            assert("其他固定投资"@.len() != "选定光伏规模起始值"@.len());
        } else if j == 21 {
            assert(t[21].0 == "电池更换单价"@);
            assert("电池更换单价"@.len() != "选定光伏规模起始值"@.len());
        } else if j == 22 {
            assert(t[22].0 == "电池更换比例"@);
            assert("电池更换比例"@.len() != "选定光伏规模起始值"@.len());
        } else if j == 23 {
            assert(t[23].0 == "电池更换时间"@);
            assert("电池更换时间"@.len() != "选定光伏规模起始值"@.len());
        } else if j == 24 {
            assert(t[24].0 == "选定风电规模起始值"@);
            assert("选定风电规模起始值"@[2] != "选定光伏规模起始值"@[2]);
        } else if j == 25 {
            assert(t[25].0 == "选定风电规模结束值"@);
            assert("选定风电规模结束值"@[2] != "选定光伏规模起始值"@[2]);
        }
    }
    assert(t[26].0 == "选定光伏规模起始值"@);
    assert(t[26].1 == "pvStart"@);
    lemma_lookup_at(t, "选定光伏规模起始值"@, 26);
}

proof fn lemma_template_label_27()
    ensures
        input_key_spec("选定光伏规模结束值"@) == Some("pvEnd"@),
{
    reveal_strlit("选定光伏规模结束值");
    reveal_strlit("储能充放电深度");
    reveal_strlit("电池充放电倍率");
    reveal_strlit("储能初始电量");
    reveal_strlit("储能系统充电效率");
    reveal_strlit("储能系统放电效率");
    reveal_strlit("接入公共电网容量（最大下网功率）");
    reveal_strlit("平均负荷率");
    reveal_strlit("自发自用占总可用发电量比例下限");
    reveal_strlit("自发自用占总用电量比例下限");
    reveal_strlit("余电上网比例上限");
    reveal_strlit("余电最大上网功率");
    reveal_strlit("弃电率上限");
    reveal_strlit("风电系统单位投资");
    reveal_strlit("光伏系统单位投资");
    reveal_strlit("储能系统单位投资");
    reveal_strlit("年运维费用占比");
    reveal_strlit("人员工资");
    reveal_strlit("定员人数");
    reveal_strlit("折现率");
    reveal_strlit("评价周期");
    reveal_strlit("其他固定投资");
    reveal_strlit("电池更换单价");
    reveal_strlit("电池更换比例");
    reveal_strlit("电池更换时间");
    reveal_strlit("选定风电规模起始值");
    reveal_strlit("选定风电规模结束值");
    reveal_strlit("选定光伏规模起始值");
    let t = input_label_keys();
    assert forall|j: int| 0 <= j < 27 implies t[j].0 != "选定光伏规模结束值"@ by {
        if j == 0 {
            assert(t[0].0 == "储能充放电深度"@);
            assert("储能充放电深度"@.len() != "选定光伏规模结束值"@.len());
        } else if j == 1 {
            assert(t[1].0 == "电池充放电倍率"@);
            assert("电池充放电倍率"@.len() != "选定光伏规模结束值"@.len());
        } else if j == 2 {
            assert(t[2].0 == "储能初始电量"@);
            assert("储能初始电量"@.len() != "选定光伏规模结束值"@.len());
        } else if j == 3 {
            assert(t[3].0 == "储能系统充电效率"@);
            assert("储能系统充电效率"@.len() != "选定光伏规模结束值"@.len());
        } else if j == 4 {
            assert(t[4].0 == "储能系统放电效率"@);
            assert("储能系统放电效率"@.len() != "选定光伏规模结束值"@.len());
        } else if j == 5 {
            assert(t[5].0 == "接入公共电网容量（最大下网功率）"@);
            assert("接入公共电网容量（最大下网功率）"@.len() != "选定光伏规模结束值"@.len());
        } else if j == 6 {
            assert(t[6].0 == "平均负荷率"@);
            assert("平均负荷率"@.len() != "选定光伏规模结束值"@.len());
        } else if j == 7 {
            assert(t[7].0 == "自发自用占总可用发电量比例下限"@);
            assert("自发自用占总可用发电量比例下限"@.len() != "选定光伏规模结束值"@.len());
        } else if j == 8 {
            assert(t[8].0 == "自发自用占总用电量比例下限"@);
            assert("自发自用占总用电量比例下限"@.len() != "选定光伏规模结束值"@.len());
        } else if j == 9 {
            assert(t[9].0 == "余电上网比例上限"@);
            assert("余电上网比例上限"@.len() != "选定光伏规模结束值"@.len());
        } else if j == 10 {
            assert(t[10].0 == "余电最大上网功率"@);
            assert("余电最大上网功率"@.len() != "选定光伏规模结束值"@.len());
        } else if j == 11 {
            assert(t[11].0 == "弃电率上限"@);
            assert("弃电率上限"@.len() != "选定光伏规模结束值"@.len());
        } else if j == 12 {
            assert(t[12].0 == "风电系统单位投资"@);
            assert("风电系统单位投资"@.len() != "选定光伏规模结束值"@.len());
        } else if j == 13 {
            assert(t[13].0 == "光伏系统单位投资"@);
            assert("光伏系统单位投资"@.len() != "选定光伏规模结束值"@.len());
        } else if j == 14 {
            assert(t[14].0 == "储能系统单位投资"@);
            assert("储能系统单位投资"@.len() != "选定光伏规模结束值"@.len());
        } else if j == 15 {
            assert(t[15].0 == "年运维费用占比"@);
            assert("年运维费用占比"@.len() != "选定光伏规模结束值"@.len());
        } else if j == 16 {
            assert(t[16].0 == "人员工资"@);
            assert("人员工资"@.len() != "选定光伏规模结束值"@.len());
        } else if j == 17 {
            assert(t[17].0 == "定员人数"@);
            assert("定员人数"@.len() != "选定光伏规模结束值"@.len());
        } else if j == 18 {
            assert(t[18].0 == "折现率"@);
            assert("折现率"@.len() != "选定光伏规模结束值"@.len());
        } else if j == 19 {
            assert(t[19].0 == "评价周期"@);
            assert("评价周期"@.len() != "选定光伏规模结束值"@.len());
        } else if j == 20 {
            assert(t[20].0 == "其他固定投资"@);
            assert("其他固定投资"@.len() != "选定光伏规模结束值"@.len());
        } else if j == 21 {
            assert(t[21].0 == "电池更换单价"@);
            assert("电池更换单价"@.len() != "选定光伏规模结束值"@.len());
        } else if j == 22 {
            assert(t[22].0 == "电池更换比例"@);
            assert("电池更换比例"@.len() != "选定光伏规模结束值"@.len());
        } else if j == 23 {
            assert(t[23].0 == "电池更换时间"@);
            assert("电池更换时间"@.len() != "选定光伏规模结束值"@.len());
        } else if j == 24 {
            assert(t[24].0 == "选定风电规模起始值"@);
            assert("选定风电规模起始值"@[2] != "选定光伏规模结束值"@[2]);
        } else if j == 25 {
            assert(t[25].0 == "选定风电规模结束值"@);
            assert("选定风电规模结束值"@[2] != "选定光伏规模结束值"@[2]);
        } else if j == 26 {
            assert(t[26].0 == "选定光伏规模起始值"@);
            assert("选定光伏规模起始值"@[6] != "选定光伏规模结束值"@[6]);
        }
    }
    assert(t[27].0 == "选定光伏规模结束值"@);
    assert(t[27].1 == "pvEnd"@);
    lemma_lookup_at(t, "选定光伏规模结束值"@, 27);
}

proof fn lemma_template_label_28()
    ensures
        input_key_spec("选定储能容量起始值"@) == Some("essStart"@),
{
    reveal_strlit("选定储能容量起始值");
    reveal_strlit("储能充放电深度");
    reveal_strlit("电池充放电倍率");
    reveal_strlit("储能初始电量");
    reveal_strlit("储能系统充电效率");
    reveal_strlit("储能系统放电效率");
    reveal_strlit("接入公共电网容量（最大下网功率）");
    reveal_strlit("平均负荷率");
    reveal_strlit("自发自用占总可用发电量比例下限");
    reveal_strlit("自发自用占总用电量比例下限");
    reveal_strlit("余电上网比例上限");
    reveal_strlit("余电最大上网功率");
    reveal_strlit("弃电率上限");
    reveal_strlit("风电系统单位投资");
    reveal_strlit("光伏系统单位投资");
    reveal_strlit("储能系统单位投资");
    reveal_strlit("年运维费用占比");
    reveal_strlit("人员工资");
    reveal_strlit("定员人数");
    reveal_strlit("折现率");
    reveal_strlit("评价周期");
    reveal_strlit("其他固定投资");
    reveal_strlit("电池更换单价");
    reveal_strlit("电池更换比例");
    reveal_strlit("电池更换时间");
    reveal_strlit("选定风电规模起始值");
    reveal_strlit("选定风电规模结束值");
    reveal_strlit("选定光伏规模起始值");
    reveal_strlit("选定光伏规模结束值");
    let t = input_label_keys();
    assert forall|j: int| 0 <= j < 28 implies t[j].0 != "选定储能容量起始值"@ by {
        if j == 0 {
            assert(t[0].0 == "储能充放电深度"@);
            assert("储能充放电深度"@.len() != "选定储能容量起始值"@.len());
        } else if j == 1 {
            assert(t[1].0 == "电池充放电倍率"@);
            assert("电池充放电倍率"@.len() != "选定储能容量起始值"@.len());
        } else if j == 2 {
            assert(t[2].0 == "储能初始电量"@);
            assert("储能初始电量"@.len() != "选定储能容量起始值"@.len());
        } else if j == 3 {
            assert(t[3].0 == "储能系统充电效率"@);
            assert("储能系统充电效率"@.len() != "选定储能容量起始值"@.len());
        } else if j == 4 {
            assert(t[4].0 == "储能系统放电效率"@);
            assert("储能系统放电效率"@.len() != "选定储能容量起始值"@.len());
        } else if j == 5 {
            assert(t[5].0 == "接入公共电网容量（最大下网功率）"@);
            assert("接入公共电网容量（最大下网功率）"@.len() != "选定储能容量起始值"@.len());
        } else if j == 6 {
            assert(t[6].0 == "平均负荷率"@);
            assert("平均负荷率"@.len() != "选定储能容量起始值"@.len());
        } else if j == 7 {
            assert(t[7].0 == "自发自用占总可用发电量比例下限"@);
            assert("自发自用占总可用发电量比例下限"@.len() != "选定储能容量起始值"@.len());
        } else if j == 8 {
            assert(t[8].0 == "自发自用占总用电量比例下限"@);
            assert("自发自用占总用电量比例下限"@.len() != "选定储能容量起始值"@.len());
        } else if j == 9 {
            assert(t[9].0 == "余电上网比例上限"@);
            assert("余电上网比例上限"@.len() != "选定储能容量起始值"@.len());
        } else if j == 10 {
            assert(t[10].0 == "余电最大上网功率"@);
            assert("余电最大上网功率"@.len() != "选定储能容量起始值"@.len());
        } else if j == 11 {
            assert(t[11].0 == "弃电率上限"@);
            assert("弃电率上限"@.len() != "选定储能容量起始值"@.len());
        } else if j == 12 {
            assert(t[12].0 == "风电系统单位投资"@);
            assert("风电系统单位投资"@.len() != "选定储能容量起始值"@.len());
        } else if j == 13 {
            assert(t[13].0 == "光伏系统单位投资"@);
            assert("光伏系统单位投资"@.len() != "选定储能容量起始值"@.len());
        } else if j == 14 {
            assert(t[14].0 == "储能系统单位投资"@);
            assert("储能系统单位投资"@.len() != "选定储能容量起始值"@.len());
        } else if j == 15 {
            assert(t[15].0 == "年运维费用占比"@);
            assert("年运维费用占比"@.len() != "选定储能容量起始值"@.len());
        } else if j == 16 {
            assert(t[16].0 == "人员工资"@);
            assert("人员工资"@.len() != "选定储能容量起始值"@.len());
        } else if j == 17 {
            assert(t[17].0 == "定员人数"@);
            assert("定员人数"@.len() != "选定储能容量起始值"@.len());
        } else if j == 18 {
            assert(t[18].0 == "折现率"@);
            assert("折现率"@.len() != "选定储能容量起始值"@.len());
        } else if j == 19 {
            assert(t[19].0 == "评价周期"@);
            assert("评价周期"@.len() != "选定储能容量起始值"@.len());
        } else if j == 20 {
            assert(t[20].0 == "其他固定投资"@);
            assert("其他固定投资"@.len() != "选定储能容量起始值"@.len());
        } else if j == 21 {
            assert(t[21].0 == "电池更换单价"@);
            assert("电池更换单价"@.len() != "选定储能容量起始值"@.len());
        } else if j == 22 {
            assert(t[22].0 == "电池更换比例"@);
            assert("电池更换比例"@.len() != "选定储能容量起始值"@.len());
        } else if j == 23 {
            assert(t[23].0 == "电池更换时间"@);
            assert("电池更换时间"@.len() != "选定储能容量起始值"@.len());
        } else if j == 24 {
            assert(t[24].0 == "选定风电规模起始值"@);
            assert("选定风电规模起始值"@[2] != "选定储能容量起始值"@[2]);
        } else if j == 25 {
            assert(t[25].0 == "选定风电规模结束值"@);
            assert("选定风电规模结束值"@[2] != "选定储能容量起始值"@[2]);
        } else if j == 26 {
            assert(t[26].0 == "选定光伏规模起始值"@);
            assert("选定光伏规模起始值"@[2] != "选定储能容量起始值"@[2]);
        } else if j == 27 {
            assert(t[27].0 == "选定光伏规模结束值"@);
            assert("选定光伏规模结束值"@[2] != "选定储能容量起始值"@[2]);
        }
    }
    assert(t[28].0 == "选定储能容量起始值"@);
    assert(t[28].1 == "essStart"@);
    lemma_lookup_at(t, "选定储能容量起始值"@, 28);
}

proof fn lemma_template_label_29()
    ensures
        input_key_spec("选定储能容量结束值"@) == Some("essEnd"@),
{
    reveal_strlit("选定储能容量结束值");
    reveal_strlit("储能充放电深度");
    reveal_strlit("电池充放电倍率");
    reveal_strlit("储能初始电量");
    reveal_strlit("储能系统充电效率");
    reveal_strlit("储能系统放电效率");
    reveal_strlit("接入公共电网容量（最大下网功率）");
    reveal_strlit("平均负荷率");
    reveal_strlit("自发自用占总可用发电量比例下限");
    reveal_strlit("自发自用占总用电量比例下限");
    reveal_strlit("余电上网比例上限");
    reveal_strlit("余电最大上网功率");
    reveal_strlit("弃电率上限");
    reveal_strlit("风电系统单位投资");
    reveal_strlit("光伏系统单位投资");
    reveal_strlit("储能系统单位投资");
    reveal_strlit("年运维费用占比");
    reveal_strlit("人员工资");
    reveal_strlit("定员人数");
    reveal_strlit("折现率");
    reveal_strlit("评价周期");
    reveal_strlit("其他固定投资");
    reveal_strlit("电池更换单价");
    reveal_strlit("电池更换比例");
    reveal_strlit("电池更换时间");
    reveal_strlit("选定风电规模起始值");
    reveal_strlit("选定风电规模结束值");
    reveal_strlit("选定光伏规模起始值");
    reveal_strlit("选定光伏规模结束值");
    reveal_strlit("选定储能容量起始值");
    let t = input_label_keys();
    assert forall|j: int| 0 <= j < 29 implies t[j].0 != "选定储能容量结束值"@ by {
        if j == 0 {
            assert(t[0].0 == "储能充放电深度"@);
            assert("储能充放电深度"@.len() != "选定储能容量结束值"@.len());
        } else if j == 1 {
            assert(t[1].0 == "电池充放电倍率"@);
            assert("电池充放电倍率"@.len() != "选定储能容量结束值"@.len());
        } else if j == 2 {
            assert(t[2].0 == "储能初始电量"@);
            assert("储能初始电量"@.len() != "选定储能容量结束值"@.len());
        } else if j == 3 {
            assert(t[3].0 == "储能系统充电效率"@);
            assert("储能系统充电效率"@.len() != "选定储能容量结束值"@.len());
        } else if j == 4 {
            assert(t[4].0 == "储能系统放电效率"@);
            assert("储能系统放电效率"@.len() != "选定储能容量结束值"@.len());
        } else if j == 5 {
            assert(t[5].0 == "接入公共电网容量（最大下网功率）"@);
            assert("接入公共电网容量（最大下网功率）"@.len() != "选定储能容量结束值"@.len());
        } else if j == 6 {
            assert(t[6].0 == "平均负荷率"@);
            assert("平均负荷率"@.len() != "选定储能容量结束值"@.len());
        } else if j == 7 {
            assert(t[7].0 == "自发自用占总可用发电量比例下限"@);
            assert("自发自用占总可用发电量比例下限"@.len() != "选定储能容量结束值"@.len());
        } else if j == 8 {
            assert(t[8].0 == "自发自用占总用电量比例下限"@);
            assert("自发自用占总用电量比例下限"@.len() != "选定储能容量结束值"@.len());
        } else if j == 9 {
            assert(t[9].0 == "余电上网比例上限"@);
            assert("余电上网比例上限"@.len() != "选定储能容量结束值"@.len());
        } else if j == 10 {
            assert(t[10].0 == "余电最大上网功率"@);
            assert("余电最大上网功率"@.len() != "选定储能容量结束值"@.len());
        } else if j == 11 {
            assert(t[11].0 == "弃电率上限"@);
            assert("弃电率上限"@.len() != "选定储能容量结束值"@.len());
        } else if j == 12 {
            assert(t[12].0 == "风电系统单位投资"@);
            assert("风电系统单位投资"@.len() != "选定储能容量结束值"@.len());
        } else if j == 13 {
            assert(t[13].0 == "光伏系统单位投资"@);
            assert("光伏系统单位投资"@.len() != "选定储能容量结束值"@.len());
        } else if j == 14 {
            assert(t[14].0 == "储能系统单位投资"@);
            assert("储能系统单位投资"@.len() != "选定储能容量结束值"@.len());
        } else if j == 15 {
            assert(t[15].0 == "年运维费用占比"@);
            assert("年运维费用占比"@.len() != "选定储能容量结束值"@.len());
        } else if j == 16 {
            assert(t[16].0 == "人员工资"@);
            assert("人员工资"@.len() != "选定储能容量结束值"@.len());
        } else if j == 17 {
            assert(t[17].0 == "定员人数"@);
            assert("定员人数"@.len() != "选定储能容量结束值"@.len());
        } else if j == 18 {
            assert(t[18].0 == "折现率"@);
            assert("折现率"@.len() != "选定储能容量结束值"@.len());
        } else if j == 19 {
            assert(t[19].0 == "评价周期"@);
            assert("评价周期"@.len() != "选定储能容量结束值"@.len());
        } else if j == 20 {
            assert(t[20].0 == "其他固定投资"@);
            assert("其他固定投资"@.len() != "选定储能容量结束值"@.len());
        } else if j == 21 {
            assert(t[21].0 == "电池更换单价"@);
            assert("电池更换单价"@.len() != "选定储能容量结束值"@.len());
        } else if j == 22 {
            assert(t[22].0 == "电池更换比例"@);
            assert("电池更换比例"@.len() != "选定储能容量结束值"@.len());
        } else if j == 23 {
            assert(t[23].0 == "电池更换时间"@);
            assert("电池更换时间"@.len() != "选定储能容量结束值"@.len());
        } else if j == 24 {
            assert(t[24].0 == "选定风电规模起始值"@);
            assert("选定风电规模起始值"@[2] != "选定储能容量结束值"@[2]);
        } else if j == 25 {
            assert(t[25].0 == "选定风电规模结束值"@);
            assert("选定风电规模结束值"@[2] != "选定储能容量结束值"@[2]);
        } else if j == 26 {
            assert(t[26].0 == "选定光伏规模起始值"@);
            assert("选定光伏规模起始值"@[2] != "选定储能容量结束值"@[2]);
        } else if j == 27 {
            assert(t[27].0 == "选定光伏规模结束值"@);
            assert("选定光伏规模结束值"@[2] != "选定储能容量结束值"@[2]);
        } else if j == 28 {
            assert(t[28].0 == "选定储能容量起始值"@);
            assert("选定储能容量起始值"@[6] != "选定储能容量结束值"@[6]);
        }
    }
    assert(t[29].0 == "选定储能容量结束值"@);
    assert(t[29].1 == "essEnd"@);
    lemma_lookup_at(t, "选定储能容量结束值"@, 29);
}


/// Each label of the standard input template is read into its own
/// front-end key.
pub proof fn law_template_labels_map_to_their_keys()
    ensures
        input_key_spec("储能充放电深度"@) == Some("dod"@),
        input_key_spec("电池充放电倍率"@) == Some("rate"@),
        input_key_spec("储能初始电量"@) == Some("initialSoc"@),
        input_key_spec("储能系统充电效率"@) == Some("chargeEff"@),
        input_key_spec("储能系统放电效率"@) == Some("dischargeEff"@),
        input_key_spec("接入公共电网容量（最大下网功率）"@) == Some("gridCapacity"@),
        input_key_spec("平均负荷率"@) == Some("avgLoadRate"@),
        input_key_spec("自发自用占总可用发电量比例下限"@) == Some("selfUseGenMin"@),
        input_key_spec("自发自用占总用电量比例下限"@) == Some("selfUseLoadMin"@),
        input_key_spec("余电上网比例上限"@) == Some("feedLimit"@),
        input_key_spec("余电最大上网功率"@) == Some("feedPower"@),
        input_key_spec("弃电率上限"@) == Some("curtailLimit"@),
        input_key_spec("风电系统单位投资"@) == Some("windInvest"@),
        input_key_spec("光伏系统单位投资"@) == Some("pvInvest"@),
        input_key_spec("储能系统单位投资"@) == Some("essInvest"@),
        input_key_spec("年运维费用占比"@) == Some("opexRatio"@),
        input_key_spec("人员工资"@) == Some("salary"@),
        input_key_spec("定员人数"@) == Some("staffCount"@),
        input_key_spec("折现率"@) == Some("discountRate"@),
        input_key_spec("评价周期"@) == Some("evalPeriod"@),
        input_key_spec("其他固定投资"@) == Some("otherInvest"@),
        input_key_spec("电池更换单价"@) == Some("batteryReplaceUnit"@),
        input_key_spec("电池更换比例"@) == Some("batteryReplaceRatio"@),
        input_key_spec("电池更换时间"@) == Some("batteryReplaceYear"@),
        input_key_spec("选定风电规模起始值"@) == Some("windStart"@),
        input_key_spec("选定风电规模结束值"@) == Some("windEnd"@),
        input_key_spec("选定光伏规模起始值"@) == Some("pvStart"@),
        input_key_spec("选定光伏规模结束值"@) == Some("pvEnd"@),
        input_key_spec("选定储能容量起始值"@) == Some("essStart"@),
        input_key_spec("选定储能容量结束值"@) == Some("essEnd"@),
{
    lemma_template_label_0();
    lemma_template_label_1();
    lemma_template_label_2();
    lemma_template_label_3();
    lemma_template_label_4();
    lemma_template_label_5();
    lemma_template_label_6();
    lemma_template_label_7();
    lemma_template_label_8();
    lemma_template_label_9();
    lemma_template_label_10();
    lemma_template_label_11();
    lemma_template_label_12();
    lemma_template_label_13();
    lemma_template_label_14();
    lemma_template_label_15();
    lemma_template_label_16();
    lemma_template_label_17();
    lemma_template_label_18();
    lemma_template_label_19();
    lemma_template_label_20();
    lemma_template_label_21();
    lemma_template_label_22();
    lemma_template_label_23();
    lemma_template_label_24();
    lemma_template_label_25();
    lemma_template_label_26();
    lemma_template_label_27();
    lemma_template_label_28();
    lemma_template_label_29();
}

/// The front-end key of a template label, if it is one.
pub fn input_key(label: &str) -> (r: Option<String>)
    ensures
        match r {
            Some(k) => input_key_spec(label@) == Some(k@),
            None => input_key_spec(label@) is None,
        },
{
    let table = input_label_table();
    let ghost t = table@.map_values(|p: (&str, &str)| (p.0@, p.1@));
    let mut i: usize = 0;
    assert(t.skip(0) =~= t);
    while i < table.len()
        invariant
            t == table@.map_values(|p: (&str, &str)| (p.0@, p.1@)),
            t == input_label_keys(),
            i <= table@.len(),
            lookup_key(t, label@) == lookup_key(t.skip(i as int), label@),
        decreases table.len() - i,
    {
        let (l, k) = table[i];
        assert(t.skip(i as int)[0] == t[i as int]);
        assert(t.skip(i as int).drop_first() =~= t.skip(i + 1));
        if str_eq(l, label) {
            return Some(String::from_str(k));
        }
        i = i + 1;
    }
    assert(t.skip(i as int).len() == 0);
    None
}


/// The lower-case form of a sheet name, as `str::to_lowercase` gives it.
pub uninterp spec fn lowercased(s: Seq<char>) -> Seq<char>;

/// Calls `str::to_lowercase`. Trusted: the result is `lowercased` of the
/// argument, a function of the characters alone.
#[verifier::external_body]
fn to_lowercase(s: &str) -> (r: String)
    ensures
        r@ == lowercased(s@),
{
    s.to_lowercase()
}

/// The message for a workbook without sheets.
pub open spec fn no_sheet_message() -> Seq<char> {
    "输入文件中没有工作表"@
}

/// The first name whose lower-case form contains `input`.
pub open spec fn first_input_sheet(names: Seq<Seq<char>>, lowered: Seq<Seq<char>>) -> Option<Seq<char>>
    decreases names.len(),
{
    if names.len() == 0 || lowered.len() == 0 {
        None
    } else if has_substring(lowered[0], "input"@) {
        Some(names[0])
    } else {
        first_input_sheet(names.drop_first(), lowered.drop_first())
    }
}

/// Which sheet is read, given the sheet names and their lower-case forms:
/// the first one whose lower-case name contains `input`, else the first
/// sheet; a workbook without sheets is refused.
pub open spec fn sheet_choice_spec(names: Seq<Seq<char>>, lowered: Seq<Seq<char>>) -> Result<Seq<char>, Seq<char>> {
    if names.len() == 0 {
        Err(no_sheet_message())
    } else {
        match first_input_sheet(names, lowered) {
            Some(n) => Ok(n),
            None => Ok(names[0]),
        }
    }
}

/// Picks the sheet to read from the sheet names and their lower-case
/// forms.
pub fn pick_sheet(names: &Vec<String>, lowered: &Vec<String>) -> (r: Result<String, String>)
    requires
        lowered@.len() == names@.len(),
    ensures
        match sheet_choice_spec(views(names@), views(lowered@)) {
            Ok(n) => r matches Ok(s) && s@ == n,
            Err(m) => r matches Err(e) && e@ == m,
        },
{
    if names.len() == 0 {
        return Err(String::from_str("输入文件中没有工作表"));
    }
    let ghost vn = views(names@);
    let ghost vl = views(lowered@);
    let mut i: usize = 0;
    assert(vn.skip(0) =~= vn);
    assert(vl.skip(0) =~= vl);
    while i < names.len()
        invariant
            vn == views(names@),
            vl == views(lowered@),
            lowered@.len() == names@.len(),
            i <= names@.len(),
            first_input_sheet(vn, vl) == first_input_sheet(vn.skip(i as int), vl.skip(i as int)),
        decreases names.len() - i,
    {
        assert(vn.skip(i as int).drop_first() =~= vn.skip(i + 1));
        assert(vl.skip(i as int).drop_first() =~= vl.skip(i + 1));
        assert(vl.skip(i as int)[0] == lowered@[i as int]@);
        assert(vn.skip(i as int)[0] == names@[i as int]@);
        if contains_str(lowered[i].as_str(), "input") {
            return Ok(names[i].clone());
        }
        i = i + 1;
    }
    Ok(names[0].clone())
}

/// Chooses the sheet of an input workbook to read.
pub fn choose_input_sheet(names: &Vec<String>) -> (r: Result<String, String>)
    ensures
        match sheet_choice_spec(views(names@), views(names@).map_values(|n: Seq<char>| lowercased(n))) {
            Ok(n) => r matches Ok(s) && s@ == n,
            Err(m) => r matches Err(e) && e@ == m,
        },
        names@.len() == 0 ==> (r matches Err(e) && e@ == no_sheet_message()),
        names@.len() > 0 ==> (r matches Ok(s) && views(names@).contains(s@)),
{
    let mut lowered: Vec<String> = Vec::new();
    let mut i: usize = 0;
    while i < names.len()
        invariant
            i <= names@.len(),
            lowered@.len() == i,
            forall|j: int| 0 <= j < i ==> #[trigger] lowered@[j]@ == lowercased(names@[j]@),
        decreases names.len() - i,
    {
        lowered.push(to_lowercase(names[i].as_str()));
        i = i + 1;
    }
    let r = pick_sheet(names, &lowered);
    proof {
        assert(views(lowered@) =~= views(names@).map_values(|n: Seq<char>| lowercased(n)));
        lemma_first_input_sheet_member(views(names@), views(lowered@));
        if names@.len() > 0 {
            assert(views(names@)[0] == names@[0]@);
        }
    }
    r
}

proof fn lemma_first_input_sheet_member(names: Seq<Seq<char>>, lowered: Seq<Seq<char>>)
    ensures
        first_input_sheet(names, lowered) matches Some(n) ==> names.contains(n),
    decreases names.len(),
{
    if names.len() > 0 && lowered.len() > 0 && !has_substring(lowered[0], "input"@) {
        lemma_first_input_sheet_member(names.drop_first(), lowered.drop_first());
        if first_input_sheet(names, lowered) is Some {
            let n = first_input_sheet(names, lowered)->Some_0;
            let k = choose|k: int| 0 <= k < names.drop_first().len() && names.drop_first()[k] == n;
            assert(names[k + 1] == n);
        }
    } else if names.len() > 0 && lowered.len() > 0 {
        assert(names.contains(names[0]));
    }
}


/// One cell of a sheet as the reader sees it: its trimmed text, and whether
/// it holds a finite number.
#[derive(Debug)]
pub struct SheetCell {
    pub text: String,
    pub has_number: bool,
}

/// A parameter row that is applied: its key, its label and the row it is
/// read from.
#[derive(Debug)]
pub struct PlannedValue {
    pub key: String,
    pub label: String,
    pub row: usize,
}

/// How a sheet is read: the label and value columns, the rows whose values
/// are applied, and the labels of the rows that are skipped.
#[derive(Debug)]
pub struct InputPlan {
    pub label_col: usize,
    pub value_col: usize,
    pub applied: Vec<PlannedValue>,
    pub skipped_labels: Vec<String>,
}

/// The texts of a row's cells.
pub open spec fn cell_texts(row: Seq<SheetCell>) -> Seq<Seq<char>> {
    row.map_values(|c: SheetCell| c.text@)
}

/// Whether a row is the header: it has a cell `项目` and a cell `数值`.
pub open spec fn is_header_row(row: Seq<SheetCell>) -> bool {
    cell_texts(row).contains("项目"@) && cell_texts(row).contains("数值"@)
}

/// The index of the first header row, if any.
pub open spec fn header_index(rows: Seq<Seq<SheetCell>>) -> Option<int> {
    if exists|i: int| 0 <= i < rows.len() && is_header_row(#[trigger] rows[i]) {
        Some(choose|i: int| 0 <= i < rows.len() && is_header_row(#[trigger] rows[i])
            && forall|j: int| 0 <= j < i ==> !is_header_row(#[trigger] rows[j]))
    } else {
        None
    }
}

proof fn lemma_header_index(rows: Seq<Seq<SheetCell>>, i: int)
    requires
        0 <= i < rows.len(),
        is_header_row(rows[i]),
        forall|j: int| 0 <= j < i ==> !is_header_row(#[trigger] rows[j]),
    ensures
        header_index(rows) == Some(i),
{
    let k = choose|k: int| 0 <= k < rows.len() && is_header_row(#[trigger] rows[k])
        && forall|j: int| 0 <= j < k ==> !is_header_row(#[trigger] rows[j]);
    assert(k == i) by {
        if k < i {
            assert(!is_header_row(rows[k]));
        } else if i < k {
            assert(!is_header_row(rows[i]));
        }
    }
}

/// The label of a row: the text in the label column, or nothing when the
/// row is shorter.
pub open spec fn label_at(row: Seq<SheetCell>, col: int) -> Seq<char> {
    if 0 <= col < row.len() { row[col].text@ } else { Seq::empty() }
}

/// Whether a row has a number in the value column.
pub open spec fn number_at(row: Seq<SheetCell>, col: int) -> bool {
    0 <= col < row.len() && row[col].has_number
}

/// The rows `start..end` sorted into applied values (key, label, row) and
/// skipped labels; rows without a label are passed over.
pub open spec fn classify_rows(rows: Seq<Seq<SheetCell>>, start: int, label_col: int, value_col: int, end: int)
    -> (Seq<(Seq<char>, Seq<char>, int)>, Seq<Seq<char>>)
    decreases end - start,
{
    if end <= start {
        (Seq::empty(), Seq::empty())
    } else {
        let prev = classify_rows(rows, start, label_col, value_col, end - 1);
        let row = rows[end - 1];
        let label = label_at(row, label_col);
        if label.len() == 0 {
            prev
        } else {
            match input_key_spec(label) {
                Some(k) => if number_at(row, value_col) {
                    (prev.0.push((k, label, end - 1)), prev.1)
                } else {
                    (prev.0, prev.1.push(label))
                },
                None => (prev.0, prev.1.push(label)),
            }
        }
    }
}

/// The message for a sheet without the header.
pub open spec fn no_header_message(sheet: Seq<char>) -> Seq<char> {
    "工作表「"@ + sheet + "」中未找到「项目 / 数值」表头，请使用标准输入文件模板"@
}

/// The message for a sheet in which no known parameter was found.
pub open spec fn no_parameter_message(sheet: Seq<char>) -> Seq<char> {
    "工作表「"@ + sheet + "」中未识别到任何标准参数，请使用标准输入文件模板"@
}

/// How a sheet is read: find the first header row, take the first `项目`
/// and the first `数值` column of it, and sort the rows below it; a sheet
/// without a header or without any applied row is refused.
pub open spec fn plan_spec(sheet: Seq<char>, rows: Seq<Seq<SheetCell>>)
    -> Result<(int, int, Seq<(Seq<char>, Seq<char>, int)>, Seq<Seq<char>>), Seq<char>>
{
    match header_index(rows) {
        None => Err(no_header_message(sheet)),
        Some(h) => {
            let lc = first_index_of(cell_texts(rows[h]), "项目"@)->Some_0;
            let vc = first_index_of(cell_texts(rows[h]), "数值"@)->Some_0;
            let c = classify_rows(rows, h + 1, lc, vc, rows.len() as int);
            if c.0.len() == 0 {
                Err(no_parameter_message(sheet))
            } else {
                Ok((lc, vc, c.0, c.1))
            }
        },
    }
}

/// The view of an applied row.
pub open spec fn planned_view(p: PlannedValue) -> (Seq<char>, Seq<char>, int) {
    (p.key@, p.label@, p.row as int)
}

fn text_position(row: &Vec<SheetCell>, t: &str) -> (r: Option<usize>)
    ensures
        match r {
            Some(j) => first_index_of(cell_texts(row@), t@) == Some(j as int),
            None => first_index_of(cell_texts(row@), t@) is None,
        },
        r matches Some(j) ==> j < row@.len(),
{
    let ghost texts = cell_texts(row@);
    let mut j: usize = 0;
    while j < row.len()
        invariant
            texts == cell_texts(row@),
            j <= row@.len(),
            forall|k: int| 0 <= k < j ==> texts[k] != t@,
        decreases row.len() - j,
    {
        if str_eq(row[j].text.as_str(), t) {
            proof {
                lemma_first_index_of(texts, t@, j as int);
            }
            return Some(j);
        }
        j = j + 1;
    }
    assert(!texts.contains(t@));
    None
}

fn find_header(rows: &Vec<Vec<SheetCell>>) -> (r: Option<(usize, usize, usize)>)
    ensures
        match header_index(rows@.map_values(|row: Vec<SheetCell>| row@)) {
            None => r is None,
            Some(h) => r matches Some((rh, lc, vc)) && rh == h && rh < rows@.len()
                && first_index_of(cell_texts(rows@[h]@), "项目"@) == Some(lc as int)
                && first_index_of(cell_texts(rows@[h]@), "数值"@) == Some(vc as int),
        },
{
    let ghost rs = rows@.map_values(|row: Vec<SheetCell>| row@);
    let mut h: usize = 0;
    while h < rows.len()
        invariant
            rs == rows@.map_values(|row: Vec<SheetCell>| row@),
            h <= rows@.len(),
            forall|j: int| 0 <= j < h ==> !is_header_row(#[trigger] rs[j]),
        decreases rows.len() - h,
    {
        let a = text_position(&rows[h], "项目");
        let b = text_position(&rows[h], "数值");
        assert(rs[h as int] == rows@[h as int]@);
        if let (Some(lc), Some(vc)) = (a, b) {
            proof {
                lemma_header_index(rs, h as int);
            }
            return Some((h, lc, vc));
        }
        h = h + 1;
    }
    None
}

fn classify(rows: &Vec<Vec<SheetCell>>, h: usize, lc: usize, vc: usize) -> (r: (Vec<PlannedValue>, Vec<String>))
    requires
        h < rows@.len(),
    ensures
        r.0@.map_values(|a: PlannedValue| planned_view(a))
            == classify_rows(rows@.map_values(|row: Vec<SheetCell>| row@), h + 1, lc as int, vc as int, rows@.len() as int).0,
        views(r.1@)
            == classify_rows(rows@.map_values(|row: Vec<SheetCell>| row@), h + 1, lc as int, vc as int, rows@.len() as int).1,
{
    let ghost rs = rows@.map_values(|row: Vec<SheetCell>| row@);
    let mut applied: Vec<PlannedValue> = Vec::new();
    let mut skipped: Vec<String> = Vec::new();
    let n = rows.len();
    let mut i: usize = h + 1;
    while i < rows.len()
        invariant
            rs == rows@.map_values(|row: Vec<SheetCell>| row@),
            h < rows@.len(),
            h + 1 <= i <= rows@.len(),
            applied@.map_values(|a: PlannedValue| planned_view(a))
                == classify_rows(rs, h + 1, lc as int, vc as int, i as int).0,
            views(skipped@) == classify_rows(rs, h + 1, lc as int, vc as int, i as int).1,
        decreases rows.len() - i,
    {
        let row = &rows[i];
        assert(rs[i as int] == row@);
        let label: String = if lc < row.len() { row[lc].text.clone() } else { String::new() };
        let has_number = vc < row.len() && row[vc].has_number;
        let ghost pa = applied@;
        let ghost ps = skipped@;
        if label.unicode_len() != 0 {
            match input_key(label.as_str()) {
                Some(k) => {
                    if has_number {
                        applied.push(PlannedValue { key: k, label, row: i });
                        assert(applied@.map_values(|a: PlannedValue| planned_view(a))
                            =~= pa.map_values(|a: PlannedValue| planned_view(a)).push(planned_view(applied@[pa.len() as int])));
                    } else {
                        skipped.push(label);
                        assert(views(skipped@) =~= views(ps).push(skipped@[ps.len() as int]@));
                    }
                },
                None => {
                    skipped.push(label);
                    assert(views(skipped@) =~= views(ps).push(skipped@[ps.len() as int]@));
                },
            }
        }
        i = i + 1;
    }
    (applied, skipped)
}

/// Decides how a sheet of the input workbook is read.
pub fn plan_input_rows(sheet: &str, rows: &Vec<Vec<SheetCell>>) -> (r: Result<InputPlan, String>)
    ensures
        match plan_spec(sheet@, rows@.map_values(|row: Vec<SheetCell>| row@)) {
            Err(m) => r matches Err(e) && e@ == m,
            Ok((lc, vc, applied, skipped)) => r matches Ok(p)
                && p.label_col == lc && p.value_col == vc
                && p.applied@.map_values(|a: PlannedValue| planned_view(a)) == applied
                && views(p.skipped_labels@) == skipped,
        },
{
    let ghost rs = rows@.map_values(|row: Vec<SheetCell>| row@);
    let (h, lc, vc) = match find_header(rows) {
        Some(t) => t,
        None => {
            let mut m = String::from_str("工作表「");
            m.append(sheet);
            m.append("」中未找到「项目 / 数值」表头，请使用标准输入文件模板");
            return Err(m);
        },
    };
    assert(rs[h as int] == rows@[h as int]@);
    let (applied, skipped) = classify(rows, h, lc, vc);
    if applied.len() == 0 {
        let mut m = String::from_str("工作表「");
        m.append(sheet);
        m.append("」中未识别到任何标准参数，请使用标准输入文件模板");
        return Err(m);
    }
    Ok(InputPlan { label_col: lc, value_col: vc, applied, skipped_labels: skipped })
}

} // verus!
