use vstd::prelude::*;
use std::sync::Arc;
use vstd::string::*;

use crate::config_value::{spec_as_u64, spec_is_default, spec_value_of, is_conversion_error, value_of, ConfigValue, ValueType};
use crate::decimal::{all_digits, decimal, digits_value, is_digit, decimal_of};
use crate::errors::{EntityEvaluationError, Error, SegmentEvaluationError};
use crate::models::{Rule, Segment, SegmentRule, Segments};
use crate::text::{chars_of, contains_exec, seq_contains, seq_starts_with, starts_with};
use crate::value::Value;

verus! {

/// Something that features and properties are evaluated for: an id and
/// named attributes (the first attribute of a name is the one that counts).
pub trait Entity {
    /// Whether `id` is an id that the entity gives. An entity that does not
    /// describe itself (as the function below does) admits every id.
    open spec fn gives_id(&self, id: Seq<char>) -> bool {
        true
    }

    /// Whether `attrs` are attributes that the entity gives. An entity that
    /// does not describe itself admits every list of attributes.
    open spec fn gives_attributes(&self, attrs: Seq<(String, Value)>) -> bool {
        true
    }

    /// The id of the entity.
    fn get_id(&self) -> (r: String)
        ensures
            self.gives_id(r@),
    ;

    /// The attributes of the entity, by name.
    fn get_attributes(&self) -> (r: Vec<(String, Value)>)
        ensures
            self.gives_attributes(r@),
    ;
}

/// The value of the first attribute named `name`.
pub open spec fn attr_lookup(attrs: Seq<(String, Value)>, name: Seq<char>) -> Option<Value>
    decreases attrs.len(),
{
    if attrs.len() == 0 {
        None
    } else if attrs[0].0@ == name {
        Some(attrs[0].1)
    } else {
        attr_lookup(attrs.skip(1), name)
    }
}

/// Whether `p` ends `s`.
pub open spec fn seq_ends_with(s: Seq<char>, p: Seq<char>) -> bool {
    p.len() <= s.len() && s.subrange(s.len() - p.len(), s.len() as int) == p
}

/// The operators a segment rule may use.
pub open spec fn known_operator(op: Seq<char>) -> bool {
    op == "is"@ || op == "contains"@ || op == "startsWith"@ || op == "endsWith"@
        || op == "greaterThan"@ || op == "lesserThan"@ || op == "greaterThanEquals"@
        || op == "lesserThanEquals"@
}

/// The decimal notation of a signed integer.
pub open spec fn signed_decimal(n: int) -> Seq<char> {
    if n < 0 { "-"@ + decimal((-n) as nat) } else { decimal(n as nat) }
}

/// A signed decimal integer: optional sign, then at least one digit.
pub open spec fn spec_parse_int(v: Seq<char>) -> Option<int> {
    let d = int_digits(v);
    if d.len() > 0 && all_digits(d) {
        Some(if int_negative(v) { -(digits_value(d) as int) } else { digits_value(d) as int })
    } else {
        None
    }
}

/// Whether a number in text starts with `-`.
pub open spec fn int_negative(v: Seq<char>) -> bool {
    v.len() > 0 && v[0] == '-'
}

/// The text of a signed number after its optional sign.
pub open spec fn int_digits(v: Seq<char>) -> Seq<char> {
    if v.len() > 0 && (v[0] == '-' || v[0] == '+') { v.subrange(1, v.len() as int) } else { v }
}

/// The bound above which magnitudes of rule values are clamped; it exceeds
/// every attribute integer.
pub open spec fn magnitude_cap() -> nat {
    0x2_0000_0000_0000_0000
}

/// The integer an attribute value holds, if it is an integer.
pub open spec fn integer_of(a: Value) -> Option<int> {
    match a {
        Value::Int64(n) => Some(n as int),
        Value::UInt64(n) => Some(n as int),
        _ => None,
    }
}

/// Whether attribute value `a` satisfies `op` against the rule value `v`.
///
/// `is` compares strings, booleans (`"true"`/`"false"`) and integers (their
/// decimal notation); `contains`, `startsWith` and `endsWith` apply to
/// strings; the four comparisons apply to integers against a rule value
/// that is a decimal integer.
pub open spec fn op_holds(op: Seq<char>, a: Value, v: Seq<char>) -> bool {
    if op == "is"@ {
        match a {
            Value::String(s) => s@ == v,
            Value::Boolean(b) => v == (if b { "true"@ } else { "false"@ }),
            Value::Int64(n) => v == signed_decimal(n as int),
            Value::UInt64(n) => v == decimal(n as nat),
            Value::Float64Bits(_) => false,
        }
    } else if op == "contains"@ {
        a matches Value::String(s) && seq_contains(s@, v)
    } else if op == "startsWith"@ {
        a matches Value::String(s) && seq_starts_with(s@, v)
    } else if op == "endsWith"@ {
        a matches Value::String(s) && seq_ends_with(s@, v)
    } else {
        match (integer_of(a), spec_parse_int(v)) {
            (Some(x), Some(y)) => if op == "greaterThan"@ {
                x > y
            } else if op == "lesserThan"@ {
                x < y
            } else if op == "greaterThanEquals"@ {
                x >= y
            } else {
                x <= y
            },
            _ => false,
        }
    }
}

/// Evaluation of one segment rule: an unknown operator is an error; an
/// absent attribute does not match; otherwise the rule matches when one of
/// its values satisfies the operator.
pub open spec fn rule_eval(r: Rule, attrs: Seq<(String, Value)>) -> Result<bool, SegmentEvaluationError> {
    if !known_operator(r.operator@) {
        Err(SegmentEvaluationError::UnknownOperator(r.operator))
    } else {
        match attr_lookup(attrs, r.attribute_name@) {
            None => Ok(false),
            Some(a) => Ok(exists|i: int| 0 <= i < r.values@.len() && op_holds(r.operator@, a, #[trigger] r.values@[i]@)),
        }
    }
}

/// Evaluation of the rules of a segment, in order: the first error or the
/// first rule that does not match decides; an entity belongs to a segment
/// when all of its rules match.
pub open spec fn segment_eval(rules: Seq<Rule>, attrs: Seq<(String, Value)>) -> Result<bool, SegmentEvaluationError>
    decreases rules.len(),
{
    if rules.len() == 0 {
        Ok(true)
    } else {
        match rule_eval(rules[0], attrs) {
            Err(e) => Err(e),
            Ok(false) => Ok(false),
            Ok(true) => segment_eval(rules.skip(1), attrs),
        }
    }
}

/// The segment ids of a list of groups, in order.
pub open spec fn group_ids(groups: Seq<Segments>) -> Seq<String>
    decreases groups.len(),
{
    if groups.len() == 0 {
        Seq::empty()
    } else {
        group_ids(groups.drop_last()) + groups.last().segments@
    }
}

/// Every targeted segment id with the position of its targeting rule, in
/// rule order.
pub open spec fn flat_targets(rules: Seq<SegmentRule>) -> Seq<(usize, String)>
    decreases rules.len(),
{
    if rules.len() == 0 {
        Seq::empty()
    } else {
        flat_targets(rules.drop_last()) + group_ids(rules.last().rules@).map_values(
            |id: String| ((rules.len() - 1) as usize, id),
        )
    }
}

/// The position of the first segment keyed by `id`.
pub open spec fn segment_lookup(segments: Seq<(String, Arc<Segment>)>, id: Seq<char>) -> Option<int>
    decreases segments.len(),
{
    if segments.len() == 0 {
        None
    } else if segments[0].0@ == id {
        Some(0)
    } else {
        match segment_lookup(segments.skip(1), id) {
            Some(i) => Some(i + 1),
            None => None,
        }
    }
}

/// The first targeted segment that the entity belongs to, as positions of
/// its targeting rule and of the segment; a missing segment or an error of
/// a segment evaluated before it is an error.
pub open spec fn find_target(
    targets: Seq<(usize, String)>,
    segments: Seq<(String, Arc<Segment>)>,
    attrs: Seq<(String, Value)>,
) -> Result<Option<(usize, usize)>, SegmentEvaluationError>
    decreases targets.len(),
{
    if targets.len() == 0 {
        Ok(None)
    } else {
        let (ri, id) = targets[0];
        match segment_lookup(segments, id@) {
            None => Err(SegmentEvaluationError::SegmentIdNotFound(id)),
            Some(si) => match segment_eval(segments[si].1.rules@, attrs) {
                Err(e) => Err(e),
                Ok(true) => Ok(Some((ri, si as usize))),
                Ok(false) => find_target(targets.skip(1), segments, attrs),
            },
        }
    }
}


proof fn lemma_capped_step(v: nat, acc: nat, d: nat, cap: nat)
    requires
        d < 10,
        cap > 0,
        acc == (if v < cap { v } else { cap }),
    ensures
        (if acc * 10 + d < cap { acc * 10 + d } else { cap }) == (if v * 10 + d < cap {
            v * 10 + d
        } else {
            cap
        }),
{
}

/// Whether two character sequences are equal.
pub(crate) fn chars_equal(a: &[char], b: &[char]) -> (r: bool)
    ensures
        r == (a@ == b@),
{
    if a.len() != b.len() {
        return false;
    }
    let mut i: usize = 0;
    while i < a.len()
        invariant
            a@.len() == b@.len(),
            i <= a@.len(),
            forall|j: int| 0 <= j < i ==> a@[j] == b@[j],
        decreases a@.len() - i,
    {
        if a[i] != b[i] {
            return false;
        }
        i = i + 1;
    }
    assert(a@ =~= b@);
    true
}

fn ends_with(s: &[char], p: &[char]) -> (r: bool)
    ensures
        r == seq_ends_with(s@, p@),
{
    if p.len() > s.len() {
        return false;
    }
    let n = s.len();
    let off = n - p.len();
    let mut i: usize = 0;
    while i < p.len()
        invariant
            n == s@.len(),
            p@.len() <= s@.len(),
            off == s@.len() - p@.len(),
            i <= p@.len(),
            forall|j: int| 0 <= j < i ==> s@[off + j] == p@[j],
        decreases p@.len() - i,
    {
        if s[off + i] != p[i] {
            assert(s@.subrange(off as int, s@.len() as int)[i as int] != p@[i as int]);
            return false;
        }
        i = i + 1;
    }
    assert(s@.subrange(off as int, s@.len() as int) =~= p@);
    true
}

/// Parses a signed decimal integer, clamping its magnitude at `magnitude_cap()`.
fn parse_int_capped(v: &[char]) -> (r: Option<(bool, u128)>)
    ensures
        match spec_parse_int(v@) {
            None => r is None,
            Some(_) => r matches Some((neg, m)) && neg == int_negative(v@) && m as int == (if digits_value(
                int_digits(v@),
            ) < magnitude_cap() {
                digits_value(int_digits(v@))
            } else {
                magnitude_cap()
            }),
        },
{
    let n = v.len();
    let neg = n > 0 && v[0] == '-';
    let start: usize = if n > 0 && (v[0] == '-' || v[0] == '+') { 1 } else { 0 };
    let ghost d = int_digits(v@);
    assert(d == v@.subrange(start as int, n as int));
    if start == n {
        return None;
    }
    let cap: u128 = 0x2_0000_0000_0000_0000;
    let mut acc: u128 = 0;
    let mut i: usize = start;
    while i < n
        invariant
            n == v@.len(),
            start <= i <= n,
            start < n,
            cap == magnitude_cap(),
            d == int_digits(v@),
            d == v@.subrange(start as int, n as int),
            forall|k: int| start <= k < i ==> is_digit(v@[k]),
            acc == (if digits_value(v@.subrange(start as int, i as int)) < magnitude_cap() {
                digits_value(v@.subrange(start as int, i as int))
            } else {
                magnitude_cap()
            }),
        decreases n - i,
    {
        let c = v[i];
        if !('0' <= c && c <= '9') {
            assert(!is_digit(d[i - start]));
            assert(!all_digits(d));
            return None;
        }
        let dv: u128 = (c as u32 - '0' as u32) as u128;
        let ghost before = v@.subrange(start as int, i as int);
        let ghost after = v@.subrange(start as int, i + 1);
        assert(after.drop_last() =~= before);
        proof {
            lemma_capped_step(digits_value(before), acc as nat, dv as nat, magnitude_cap());
        }
        let next = acc * 10 + dv;
        acc = if next < cap { next } else { cap };
        i = i + 1;
    }
    assert(all_digits(d)) by {
        assert forall|k: int| 0 <= k < d.len() implies is_digit(#[trigger] d[k]) by {
            assert(d[k] == v@[start + k]);
        }
    }
    Some((neg, acc))
}

fn signed_decimal_of(n: i64) -> (r: Vec<char>)
    ensures
        r@ == signed_decimal(n as int),
{
    if n < 0 {
        let m: u64 = (0i128 - n as i128) as u64;
        let mut r: Vec<char> = Vec::new();
        r.push('-');
        let ds = decimal_of(m);
        let mut i: usize = 0;
        while i < ds.len()
            invariant
                r@ == seq!['-'] + ds@.subrange(0, i as int),
                i <= ds@.len(),
            decreases ds@.len() - i,
        {
            r.push(ds[i]);
            i = i + 1;
            assert(r@ =~= seq!['-'] + ds@.subrange(0, i as int));
        }
        assert(ds@.subrange(0, ds@.len() as int) == ds@);
        assert("-"@ =~= seq!['-']) by {
            reveal_strlit("-");
        }
        r
    } else {
        decimal_of(n as u64)
    }
}

fn integer_of_exec(a: &Value) -> (r: Option<i128>)
    ensures
        match integer_of(*a) {
            Some(x) => r == Some(x as i128),
            None => r is None,
        },
{
    match a {
        Value::Int64(n) => Some(*n as i128),
        Value::UInt64(n) => Some(*n as i128),
        _ => None,
    }
}

/// Decides whether an attribute value satisfies an operator against a rule value.
fn op_holds_exec(op: &[char], a: &Value, v: &[char]) -> (r: bool)
    ensures
        r == op_holds(op@, *a, v@),
{
    if chars_equal(op, chars_of("is").as_slice()) {
        match a {
            Value::String(s) => chars_equal(chars_of(s.as_str()).as_slice(), v),
            Value::Boolean(b) => if *b {
                chars_equal(v, chars_of("true").as_slice())
            } else {
                chars_equal(v, chars_of("false").as_slice())
            },
            Value::Int64(n) => chars_equal(v, signed_decimal_of(*n).as_slice()),
            Value::UInt64(n) => chars_equal(v, decimal_of(*n).as_slice()),
            Value::Float64Bits(_) => false,
        }
    } else if chars_equal(op, chars_of("contains").as_slice()) {
        match a {
            Value::String(s) => contains_exec(chars_of(s.as_str()).as_slice(), v),
            _ => false,
        }
    } else if chars_equal(op, chars_of("startsWith").as_slice()) {
        match a {
            Value::String(s) => starts_with(chars_of(s.as_str()).as_slice(), v),
            _ => false,
        }
    } else if chars_equal(op, chars_of("endsWith").as_slice()) {
        match a {
            Value::String(s) => ends_with(chars_of(s.as_str()).as_slice(), v),
            _ => false,
        }
    } else {
        let x = match integer_of_exec(a) {
            Some(x) => x,
            None => return false,
        };
        let (neg, m) = match parse_int_capped(v) {
            Some(p) => p,
            None => return false,
        };
        let y: i128 = if neg { 0i128 - m as i128 } else { m as i128 };
        proof {
            let yy = spec_parse_int(v@)->Some_0;
            let dv = digits_value(int_digits(v@));
            assert(-0x1_0000_0000_0000_0000 < x < 0x1_0000_0000_0000_0000);
            if dv >= magnitude_cap() {
                assert(yy == (if neg { -(dv as int) } else { dv as int }));
            }
        }
        if chars_equal(op, chars_of("greaterThan").as_slice()) {
            x > y
        } else if chars_equal(op, chars_of("lesserThan").as_slice()) {
            x < y
        } else if chars_equal(op, chars_of("greaterThanEquals").as_slice()) {
            x >= y
        } else {
            x <= y
        }
    }
}


/// The position of the first attribute named `name`.
pub fn lookup_attribute(attrs: &[(String, Value)], name: &String) -> (r: Option<usize>)
    ensures
        match r {
            Some(i) => i < attrs@.len() && attr_lookup(attrs@, name@) == Some(attrs@[i as int].1),
            None => attr_lookup(attrs@, name@) is None,
        },
{
    let mut i: usize = 0;
    assert(attrs@.skip(0) =~= attrs@);
    while i < attrs.len()
        invariant
            i <= attrs@.len(),
            attr_lookup(attrs@, name@) == attr_lookup(attrs@.skip(i as int), name@),
        decreases attrs@.len() - i,
    {
        assert(attrs@.skip(i as int)[0] == attrs@[i as int]);
        assert(attrs@.skip(i as int).skip(1) =~= attrs@.skip(i + 1));
        if attrs[i].0 == *name {
            return Some(i);
        }
        i = i + 1;
    }
    None
}

fn known_operator_exec(op: &[char]) -> (r: bool)
    ensures
        r == known_operator(op@),
{
    chars_equal(op, chars_of("is").as_slice()) || chars_equal(op, chars_of("contains").as_slice())
        || chars_equal(op, chars_of("startsWith").as_slice()) || chars_equal(
        op,
        chars_of("endsWith").as_slice(),
    ) || chars_equal(op, chars_of("greaterThan").as_slice()) || chars_equal(
        op,
        chars_of("lesserThan").as_slice(),
    ) || chars_equal(op, chars_of("greaterThanEquals").as_slice()) || chars_equal(
        op,
        chars_of("lesserThanEquals").as_slice(),
    )
}

/// Evaluates one segment rule for an entity's attributes.
pub fn rule_eval_exec(r: &Rule, attrs: &[(String, Value)]) -> (res: Result<bool, SegmentEvaluationError>)
    ensures
        res == rule_eval(*r, attrs@),
{
    let op = chars_of(r.operator.as_str());
    if !known_operator_exec(op.as_slice()) {
        return Err(SegmentEvaluationError::UnknownOperator(r.operator.clone()));
    }
    let a = match lookup_attribute(attrs, &r.attribute_name) {
        Some(i) => &attrs[i].1,
        None => return Ok(false),
    };
    let mut j: usize = 0;
    while j < r.values.len()
        invariant
            j <= r.values@.len(),
            attr_lookup(attrs@, r.attribute_name@) == Some(*a),
            op@ == r.operator@,
            known_operator(r.operator@),
            forall|k: int| 0 <= k < j ==> !op_holds(r.operator@, *a, #[trigger] r.values@[k]@),
        decreases r.values@.len() - j,
    {
        let v = chars_of(r.values[j].as_str());
        if op_holds_exec(op.as_slice(), a, v.as_slice()) {
            assert(op_holds(r.operator@, *a, r.values@[j as int]@));
            assert(exists|k: int| 0 <= k < r.values@.len() && op_holds(r.operator@, *a, #[trigger] r.values@[k]@));
            assert(known_operator(r.operator@));
            return Ok(true);
        }
        j = j + 1;
    }
    Ok(false)
}

/// Evaluates the rules of a segment in order.
pub fn segment_eval_exec(rules: &[Rule], attrs: &[(String, Value)]) -> (res: Result<bool, SegmentEvaluationError>)
    ensures
        res == segment_eval(rules@, attrs@),
{
    let mut i: usize = 0;
    assert(rules@.skip(0) =~= rules@);
    while i < rules.len()
        invariant
            i <= rules@.len(),
            segment_eval(rules@, attrs@) == segment_eval(rules@.skip(i as int), attrs@),
        decreases rules@.len() - i,
    {
        assert(rules@.skip(i as int)[0] == rules@[i as int]);
        assert(rules@.skip(i as int).skip(1) =~= rules@.skip(i + 1));
        match rule_eval_exec(&rules[i], attrs) {
            Err(e) => return Err(e),
            Ok(false) => return Ok(false),
            Ok(true) => {},
        }
        i = i + 1;
    }
    assert(rules@.skip(i as int) =~= Seq::<Rule>::empty());
    Ok(true)
}

/// The position of the first segment keyed by `id`.
pub fn segment_lookup_exec(segments: &[(String, Arc<Segment>)], id: &String) -> (r: Option<usize>)
    ensures
        match r {
            Some(i) => i < segments@.len() && segment_lookup(segments@, id@) == Some(i as int),
            None => segment_lookup(segments@, id@) is None,
        },
{
    let mut i: usize = 0;
    assert(segments@.skip(0) =~= segments@);
    while i < segments.len()
        invariant
            i <= segments@.len(),
            segment_lookup(segments@, id@) == (match segment_lookup(segments@.skip(i as int), id@) {
                Some(k) => Some(k + i),
                None => None,
            }),
        decreases segments@.len() - i,
    {
        assert(segments@.skip(i as int)[0] == segments@[i as int]);
        assert(segments@.skip(i as int).skip(1) =~= segments@.skip(i + 1));
        if segments[i].0 == *id {
            return Some(i);
        }
        i = i + 1;
    }
    None
}

fn group_ids_exec(groups: &[Segments]) -> (r: Vec<String>)
    ensures
        r@ == group_ids(groups@),
{
    let mut r: Vec<String> = Vec::new();
    let mut g: usize = 0;
    while g < groups.len()
        invariant
            g <= groups@.len(),
            r@ == group_ids(groups@.subrange(0, g as int)),
        decreases groups@.len() - g,
    {
        let ghost before = r@;
        let ids = &groups[g].segments;
        let mut k: usize = 0;
        while k < ids.len()
            invariant
                k <= ids@.len(),
                r@ == before + ids@.subrange(0, k as int),
            decreases ids@.len() - k,
        {
            r.push(ids[k].clone());
            k = k + 1;
            assert(r@ =~= before + ids@.subrange(0, k as int));
        }
        assert(ids@.subrange(0, ids@.len() as int) =~= ids@);
        assert(groups@.subrange(0, g + 1).drop_last() =~= groups@.subrange(0, g as int));
        g = g + 1;
    }
    assert(groups@.subrange(0, groups@.len() as int) =~= groups@);
    r
}

/// Every targeted segment id with the position of its targeting rule.
pub fn flat_targets_exec(rules: &[SegmentRule]) -> (r: Vec<(usize, String)>)
    ensures
        r@ == flat_targets(rules@),
{
    let mut r: Vec<(usize, String)> = Vec::new();
    let mut i: usize = 0;
    while i < rules.len()
        invariant
            i <= rules@.len(),
            r@ == flat_targets(rules@.subrange(0, i as int)),
        decreases rules@.len() - i,
    {
        let ghost before = r@;
        let ids = group_ids_exec(rules[i].rules.as_slice());
        let ghost mapped = ids@.map_values(|id: String| (i, id));
        let mut k: usize = 0;
        while k < ids.len()
            invariant
                k <= ids@.len(),
                mapped == ids@.map_values(|id: String| (i, id)),
                r@ == before + mapped.subrange(0, k as int),
            decreases ids@.len() - k,
        {
            r.push((i, ids[k].clone()));
            k = k + 1;
            assert(r@ =~= before + mapped.subrange(0, k as int));
        }
        assert(mapped.subrange(0, ids@.len() as int) =~= mapped);
        let ghost pre = rules@.subrange(0, i + 1);
        assert(pre.drop_last() =~= rules@.subrange(0, i as int));
        assert(pre.last() == rules@[i as int]);
        assert(((pre.len() - 1) as usize) == i);
        assert(r@ =~= flat_targets(pre));
        i = i + 1;
    }
    assert(rules@.subrange(0, rules@.len() as int) =~= rules@);
    r
}

/// Finds the first targeted segment the entity belongs to.
pub fn find_target_exec(
    targets: &[(usize, String)],
    segments: &[(String, Arc<Segment>)],
    attrs: &[(String, Value)],
) -> (r: Result<Option<(usize, usize)>, SegmentEvaluationError>)
    ensures
        r == find_target(targets@, segments@, attrs@),
{
    let mut i: usize = 0;
    assert(targets@.skip(0) =~= targets@);
    while i < targets.len()
        invariant
            i <= targets@.len(),
            find_target(targets@, segments@, attrs@) == find_target(targets@.skip(i as int), segments@, attrs@),
        decreases targets@.len() - i,
    {
        assert(targets@.skip(i as int)[0] == targets@[i as int]);
        assert(targets@.skip(i as int).skip(1) =~= targets@.skip(i + 1));
        let id = &targets[i].1;
        match segment_lookup_exec(segments, id) {
            None => return Err(SegmentEvaluationError::SegmentIdNotFound(id.clone())),
            Some(si) => {
                match segment_eval_exec(segments[si].1.rules.as_slice(), attrs) {
                    Err(e) => return Err(e),
                    Ok(true) => return Ok(Some((targets[i].0, si))),
                    Ok(false) => {},
                }
            },
        }
        i = i + 1;
    }
    assert(targets@.skip(i as int) =~= Seq::<(usize, String)>::empty());
    Ok(None)
}


/// The targeting rules of a feature or property together with the
/// segments they refer to (keyed by segment id) and the declared data type
/// of the values they give.
#[derive(Debug, Clone)]
pub struct TargetingRules {
    pub segments: Vec<(String, Arc<Segment>)>,
    pub segment_rules: Vec<SegmentRule>,
    pub kind: ValueType,
}

/// The rollout percentage of a targeting rule: the default when the rule
/// has none or has `"$default"`, otherwise the integer it holds when that
/// fits `u32`; `None` for anything else.
pub open spec fn spec_rule_rollout(p: Option<ConfigValue>, default: u32) -> Option<u32> {
    match p {
        None => Some(default),
        Some(v) => if spec_is_default(v) {
            Some(default)
        } else {
            match spec_as_u64(v) {
                Some(n) => if n <= u32::MAX { Some(n as u32) } else { None },
                None => None,
            }
        },
    }
}

/// The value a targeting rule gives: the default when the rule holds
/// `"$default"`, otherwise its own value converted to the declared type.
pub open spec fn spec_rule_value(kind: ValueType, v: ConfigValue, default: Value) -> Option<Value> {
    if spec_is_default(v) {
        Some(default)
    } else {
        spec_value_of(kind, v)
    }
}

/// The outcome of matching an entity against targeting rules.
pub open spec fn spec_find_applicable(t: TargetingRules, attrs: Seq<(String, Value)>) -> Result<Option<(usize, usize)>, SegmentEvaluationError> {
    find_target(flat_targets(t.segment_rules@), t.segments@, attrs)
}

impl TargetingRules {
    pub fn new(segments: Vec<(String, Arc<Segment>)>, segment_rules: Vec<SegmentRule>, kind: ValueType) -> (r: Self)
        ensures
            r.segments == segments,
            r.segment_rules == segment_rules,
            r.kind == kind,
    {
        TargetingRules { segments, segment_rules, kind }
    }

    /// Whether there are no targeting rules.
    pub fn is_empty(&self) -> (r: bool)
        ensures
            r == (self.segment_rules@.len() == 0),
    {
        self.segment_rules.len() == 0
    }

    /// The first targeting rule (in order) with a segment the entity belongs
    /// to, as the positions of the rule and of the segment.
    pub fn find_applicable_targeting_rule_and_segment_for_entity(
        &self,
        attrs: &[(String, Value)],
    ) -> (r: Result<Option<(usize, usize)>, Error>)
        ensures
            match spec_find_applicable(*self, attrs@) {
                Ok(x) => r == Ok::<Option<(usize, usize)>, Error>(x),
                Err(e) => r == Err::<Option<(usize, usize)>, Error>(Error::EntityEvaluationError(EntityEvaluationError(e))),
            },
            r matches Ok(Some((ri, si))) ==> ri < self.segment_rules@.len() && si < self.segments@.len(),
    {
        let targets = flat_targets_exec(self.segment_rules.as_slice());
        let res = find_target_exec(targets.as_slice(), self.segments.as_slice(), attrs);
        proof {
            lemma_flat_targets_bounds(self.segment_rules@);
            lemma_find_target_bounds(flat_targets(self.segment_rules@), self.segments@, attrs@, self.segment_rules@);
        }
        match res {
            Ok(x) => Ok(x),
            Err(e) => Err(Error::EntityEvaluationError(EntityEvaluationError(e))),
        }
    }

    /// The rollout percentage of the rule at `ri`, `default` standing for the feature's.
    pub fn rule_rollout_percentage(&self, ri: usize, default: u32) -> (r: Result<u32, Error>)
        requires
            ri < self.segment_rules@.len(),
        ensures
            match spec_rule_rollout(self.segment_rules@[ri as int].rollout_percentage, default) {
                Some(p) => r == Ok::<u32, Error>(p),
                None => r matches Err(Error::ProtocolError(m)) && m@ == "Invalid rollout percentage"@,
            },
    {
        match &self.segment_rules[ri].rollout_percentage {
            None => Ok(default),
            Some(v) => {
                if v.is_default() {
                    Ok(default)
                } else {
                    match v.as_u64() {
                        Some(n) => if n <= 4294967295u64 {
                            Ok(n as u32)
                        } else {
                            Err(Error::ProtocolError(String::from_str("Invalid rollout percentage")))
                        },
                        None => Err(Error::ProtocolError(String::from_str("Invalid rollout percentage"))),
                    }
                }
            },
        }
    }

    /// The value the rule at `ri` gives, `default` standing for `"$default"`.
    pub fn rule_value(&self, ri: usize, default: &Value) -> (r: Result<Value, Error>)
        requires
            ri < self.segment_rules@.len(),
        ensures
            match spec_rule_value(self.kind, self.segment_rules@[ri as int].value, *default) {
                Some(v) => r == Ok::<Value, Error>(v),
                None => r matches Err(e) && is_conversion_error(self.kind, e),
            },
    {
        let v = &self.segment_rules[ri].value;
        if v.is_default() {
            Ok(default.duplicate())
        } else {
            value_of(self.kind, v)
        }
    }
}

proof fn lemma_flat_targets_bounds(rules: Seq<SegmentRule>)
    ensures
        forall|k: int| 0 <= k < flat_targets(rules).len() ==> (#[trigger] flat_targets(rules)[k]).0 < rules.len(),
    decreases rules.len(),
{
    if rules.len() > 0 {
        lemma_flat_targets_bounds(rules.drop_last());
        let prev = flat_targets(rules.drop_last());
        let ids = group_ids(rules.last().rules@);
        let mapped = ids.map_values(|id: String| ((rules.len() - 1) as usize, id));
        assert forall|k: int| 0 <= k < flat_targets(rules).len() implies (#[trigger] flat_targets(rules)[k]).0 < rules.len() by {
            if k < prev.len() {
                assert(flat_targets(rules)[k] == prev[k]);
            } else {
                assert(flat_targets(rules)[k] == mapped[k - prev.len()]);
            }
        }
    }
}

proof fn lemma_segment_lookup_bounds(segments: Seq<(String, Arc<Segment>)>, id: Seq<char>)
    ensures
        segment_lookup(segments, id) matches Some(i) ==> 0 <= i < segments.len(),
    decreases segments.len(),
{
    if segments.len() > 0 && segments[0].0@ != id {
        lemma_segment_lookup_bounds(segments.skip(1), id);
    }
}

proof fn lemma_find_target_bounds(
    targets: Seq<(usize, String)>,
    segments: Seq<(String, Arc<Segment>)>,
    attrs: Seq<(String, Value)>,
    rules: Seq<SegmentRule>,
)
    requires
        forall|k: int| 0 <= k < targets.len() ==> (#[trigger] targets[k]).0 < rules.len(),
    ensures
        find_target(targets, segments, attrs) matches Ok(Some((ri, si))) ==> ri < rules.len() && si < segments.len(),
    decreases targets.len(),
{
    if targets.len() > 0 {
        let (ri, id) = targets[0];
        lemma_segment_lookup_bounds(segments, id@);
        assert forall|k: int| 0 <= k < targets.skip(1).len() implies (#[trigger] targets.skip(1)[k]).0 < rules.len() by {
            assert(targets.skip(1)[k] == targets[k + 1]);
        }
        lemma_find_target_bounds(targets.skip(1), segments, attrs, rules);
    }
}

} // verus!
