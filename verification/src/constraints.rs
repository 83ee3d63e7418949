//! How the yearly constraint checks are reported: the list of violated
//! constraints and the note shown for a configuration.

use vstd::prelude::*;
use vstd::string::*;
use crate::text::{joined, views, join};

verus! {

/// Which yearly constraints a configuration violates.
#[derive(Clone, Copy, Debug)]
pub struct ConstraintFlags {
    /// Self-consumption below its share of available generation.
    pub self_use_gen_short: bool,
    /// Self-consumption below its share of the load.
    pub self_use_load_short: bool,
    /// Energy fed into the grid above its allowed share.
    pub feed_over: bool,
    /// Curtailment above its allowed rate.
    pub curtail_over: bool,
    /// Some load left unserved.
    pub unserved: bool,
}

/// The messages of the violated constraints, in the order they are
/// checked.
pub open spec fn violations_spec(f: ConstraintFlags) -> Seq<Seq<char>> {
    (if f.self_use_gen_short { seq!["自发自用占总可用发电量比例不足"@] } else { Seq::empty() })
        + (if f.self_use_load_short { seq!["自发自用占总用电量比例不足"@] } else { Seq::empty() })
        + (if f.feed_over { seq!["余电上网比例超标"@] } else { Seq::empty() })
        + (if f.curtail_over { seq!["弃电率超标"@] } else { Seq::empty() })
        + (if f.unserved { seq!["存在缺供电量"@] } else { Seq::empty() })
}

/// Each violated constraint is reported by its own message, and a message
/// is reported only when its constraint is violated.
pub proof fn law_each_violation_reports_its_own_message(f: ConstraintFlags)
    ensures
        violations_spec(f).contains("自发自用占总可用发电量比例不足"@) <==> f.self_use_gen_short,
        violations_spec(f).contains("自发自用占总用电量比例不足"@) <==> f.self_use_load_short,
        violations_spec(f).contains("余电上网比例超标"@) <==> f.feed_over,
        violations_spec(f).contains("弃电率超标"@) <==> f.curtail_over,
        violations_spec(f).contains("存在缺供电量"@) <==> f.unserved,
{
    let m = seq![
        "自发自用占总可用发电量比例不足"@,
        "自发自用占总用电量比例不足"@,
        "余电上网比例超标"@,
        "弃电率超标"@,
        "存在缺供电量"@
    ];
    reveal_strlit("自发自用占总可用发电量比例不足");
    reveal_strlit("自发自用占总用电量比例不足");
    reveal_strlit("余电上网比例超标");
    reveal_strlit("弃电率超标");
    reveal_strlit("存在缺供电量");
    assert(m[0] != m[1]) by { assert(m[0].len() != m[1].len()); }
    assert(m[0] != m[2]) by { assert(m[0][0] != m[2][0]); }
    assert(m[0] != m[3]) by { assert(m[0][0] != m[3][0]); }
    assert(m[0] != m[4]) by { assert(m[0][0] != m[4][0]); }
    assert(m[1] != m[2]) by { assert(m[1][0] != m[2][0]); }
    assert(m[1] != m[3]) by { assert(m[1][0] != m[3][0]); }
    assert(m[1] != m[4]) by { assert(m[1][0] != m[4][0]); }
    assert(m[2] != m[3]) by { assert(m[2][0] != m[3][0]); }
    assert(m[2] != m[4]) by { assert(m[2][0] != m[4][0]); }
    assert(m[3] != m[4]) by { assert(m[3][0] != m[4][0]); }
    let v = violations_spec(f);
    let c0: int = if f.self_use_gen_short { 1 } else { 0 };
    let c1: int = c0 + if f.self_use_load_short { 1int } else { 0int };
    let c2: int = c1 + if f.feed_over { 1int } else { 0int };
    let c3: int = c2 + if f.curtail_over { 1int } else { 0int };
    if f.self_use_gen_short {
        assert(v[0] == m[0]);
        assert(v.contains(m[0]));
    }
    if f.self_use_load_short {
        assert(v[c0] == m[1]);
        assert(v.contains(m[1]));
    }
    if f.feed_over {
        assert(v[c1] == m[2]);
        assert(v.contains(m[2]));
    }
    if f.curtail_over {
        assert(v[c2] == m[3]);
        assert(v.contains(m[3]));
    }
    if f.unserved {
        assert(v[c3] == m[4]);
        assert(v.contains(m[4]));
    }
    assert forall|k: int| 0 <= k < 5 implies (v.contains(#[trigger] m[k]) <==> (
        if k == 0 { f.self_use_gen_short } else if k == 1 { f.self_use_load_short } else if k == 2 { f.feed_over }
        else if k == 3 { f.curtail_over } else { f.unserved })) by {
        let flags = seq![f.self_use_gen_short, f.self_use_load_short, f.feed_over, f.curtail_over, f.unserved];
        assert(forall|i: int| 0 <= i < v.len() ==> exists|j: int| 0 <= j < 5 && flags[j] && #[trigger] v[i] == m[j]);
        if v.contains(m[k]) {
            let i = choose|i: int| 0 <= i < v.len() && v[i] == m[k];
            let j = choose|j: int| 0 <= j < 5 && flags[j] && v[i] == m[j];
            assert(j == k);
        }
    }
    assert(v.contains(m[0]) <==> f.self_use_gen_short);
    assert(v.contains(m[1]) <==> f.self_use_load_short);
    assert(v.contains(m[2]) <==> f.feed_over);
    assert(v.contains(m[3]) <==> f.curtail_over);
    assert(v.contains(m[4]) <==> f.unserved);
}

/// The messages of the violated constraints.
pub fn violation_messages(f: &ConstraintFlags) -> (r: Vec<String>)
    ensures
        views(r@) == violations_spec(*f),
        r@.len() == 0 <==> !(f.self_use_gen_short || f.self_use_load_short || f.feed_over || f.curtail_over || f.unserved),
        views(r@).contains("自发自用占总可用发电量比例不足"@) <==> f.self_use_gen_short,
        views(r@).contains("自发自用占总用电量比例不足"@) <==> f.self_use_load_short,
        views(r@).contains("余电上网比例超标"@) <==> f.feed_over,
        views(r@).contains("弃电率超标"@) <==> f.curtail_over,
        views(r@).contains("存在缺供电量"@) <==> f.unserved,
{
    proof {
        law_each_violation_reports_its_own_message(*f);
    }
    let mut r: Vec<String> = Vec::new();
    if f.self_use_gen_short {
        r.push(String::from_str("自发自用占总可用发电量比例不足"));
    }
    if f.self_use_load_short {
        r.push(String::from_str("自发自用占总用电量比例不足"));
    }
    if f.feed_over {
        r.push(String::from_str("余电上网比例超标"));
    }
    if f.curtail_over {
        r.push(String::from_str("弃电率超标"));
    }
    if f.unserved {
        r.push(String::from_str("存在缺供电量"));
    }
    assert(views(r@) =~= violations_spec(*f));
    r
}

/// The note of a configuration: that it meets every constraint, or the
/// violated ones separated by `、`.
pub open spec fn note_spec(violations: Seq<Seq<char>>) -> Seq<char> {
    if violations.len() == 0 { "满足所有约束"@ } else { joined(violations, "、"@) }
}

/// The note shown for a configuration with the given violations.
pub fn constraint_note(violations: &Vec<String>) -> (r: String)
    ensures
        r@ == note_spec(views(violations@)),
{
    if violations.len() == 0 {
        String::from_str("满足所有约束")
    } else {
        join(violations, "、")
    }
}

} // verus!
