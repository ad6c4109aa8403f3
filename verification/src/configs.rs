//! The value-comparison language that trigger conditions are written in, and
//! its evaluator.
//!
//! A [`ValueCmp`] constrains one observed integer; a [`NewOldValueCmp`] pairs
//! an optional constraint on the current value with an optional constraint on
//! the previous value.  An absent constraint means "don't care".

use vstd::prelude::*;

verus! {

/// One comparison against an observed integer value.
#[derive(Debug, PartialEq)]
pub enum ValueCmp {
    /// The observed value must equal this literal.
    EqInt(i32),
    /// A symbolic token (for example `"full"`), resolved by a per-field
    /// expander when the condition is compiled; it is never compared against
    /// an observed value directly.
    Special(String),
    /// A conjunction of range and set constraints; every absent sub-field
    /// imposes no constraint at all.
    Cmp {
        /// Observed value must differ from this value.
        ne: Option<i32>,
        /// Observed value must be strictly greater than this value.
        gt: Option<i32>,
        /// Observed value must be greater than or equal to this value.
        ge: Option<i32>,
        /// Observed value must be strictly less than this value.
        lt: Option<i32>,
        /// Observed value must be less than or equal to this value.
        le: Option<i32>,
        /// Observed value must be one of these values.
        in_vals: Option<Vec<i32>>,
        /// Observed value must be none of these values.
        nin_vals: Option<Vec<i32>>,
    },
}

/// Optional constraints on the current (`new_cmp`) and previous (`old_cmp`)
/// value of one observed field.  Both absent means the field is
/// unconstrained.
#[derive(Debug, PartialEq)]
pub struct NewOldValueCmp {
    pub new_cmp: Option<ValueCmp>,
    pub old_cmp: Option<ValueCmp>,
}

/// One user-configured rule, one variant per monitored subsystem.  Each
/// field of a variant optionally constrains one tracked quantity; the whole
/// condition is the conjunction of its configured fields.
#[derive(Debug, PartialEq)]
pub enum TriggerCondition {
    ChargeBlade {
        sword_charge_timer: Option<NewOldValueCmp>,
        shield_charge_timer: Option<NewOldValueCmp>,
        power_axe_timer: Option<NewOldValueCmp>,
        phials: Option<NewOldValueCmp>,
        sword_power: Option<NewOldValueCmp>,
    },
    /// A condition for some other monitored subsystem.
    Other,
}

/// The mathematical model of a [`ValueCmp`]: strings become character
/// sequences and vectors become integer sequences.
pub enum ValueCmpModel {
    EqInt(i32),
    Special(Seq<char>),
    Cmp {
        ne: Option<i32>,
        gt: Option<i32>,
        ge: Option<i32>,
        lt: Option<i32>,
        le: Option<i32>,
        in_vals: Option<Seq<i32>>,
        nin_vals: Option<Seq<i32>>,
    },
}

/// The mathematical model of a [`NewOldValueCmp`].
pub struct NewOldValueCmpModel {
    pub new_cmp: Option<ValueCmpModel>,
    pub old_cmp: Option<ValueCmpModel>,
}

pub open spec fn opt_vec_view(v: Option<Vec<i32>>) -> Option<Seq<i32>> {
    match v {
        Some(xs) => Some(xs@),
        None => None,
    }
}

impl View for ValueCmp {
    type V = ValueCmpModel;

    open spec fn view(&self) -> ValueCmpModel {
        match *self {
            ValueCmp::EqInt(n) => ValueCmpModel::EqInt(n),
            ValueCmp::Special(s) => ValueCmpModel::Special(s@),
            ValueCmp::Cmp { ne, gt, ge, lt, le, in_vals, nin_vals } => ValueCmpModel::Cmp {
                ne,
                gt,
                ge,
                lt,
                le,
                in_vals: opt_vec_view(in_vals),
                nin_vals: opt_vec_view(nin_vals),
            },
        }
    }
}

pub open spec fn opt_cmp_view(c: Option<ValueCmp>) -> Option<ValueCmpModel> {
    match c {
        Some(v) => Some(v@),
        None => None,
    }
}

impl View for NewOldValueCmp {
    type V = NewOldValueCmpModel;

    open spec fn view(&self) -> NewOldValueCmpModel {
        NewOldValueCmpModel { new_cmp: opt_cmp_view(self.new_cmp), old_cmp: opt_cmp_view(self.old_cmp) }
    }
}

pub open spec fn opt_pair_view(c: Option<NewOldValueCmp>) -> Option<NewOldValueCmpModel> {
    match c {
        Some(v) => Some(v@),
        None => None,
    }
}

/// Whether this comparison is a symbolic token.
pub open spec fn is_special(c: ValueCmpModel) -> bool {
    c matches ValueCmpModel::Special(_)
}

/// Whether either half of the pair still holds a symbolic token.  Such a
/// token is resolved at compile time; one that survives to evaluation is a
/// configuration error, and the whole field degrades to "no constraint".
pub open spec fn pair_has_special(c: NewOldValueCmpModel) -> bool {
    ||| (c.new_cmp matches Some(v) && is_special(v))
    ||| (c.old_cmp matches Some(v) && is_special(v))
}

/// What one comparison says of one observed value.  The `Special` arm never
/// decides anything: [`new_old_eval`] degrades a pair that still holds a
/// token to "no constraint" before the halves are read.
pub open spec fn value_cmp_eval(c: ValueCmpModel, observed: i32) -> bool {
    match c {
        ValueCmpModel::EqInt(n) => observed == n,
        ValueCmpModel::Special(_) => true,
        ValueCmpModel::Cmp { ne, gt, ge, lt, le, in_vals, nin_vals } => {
            &&& (ne matches Some(v) ==> observed != v)
            &&& (gt matches Some(v) ==> observed > v)
            &&& (ge matches Some(v) ==> observed >= v)
            &&& (lt matches Some(v) ==> observed < v)
            &&& (le matches Some(v) ==> observed <= v)
            &&& (in_vals matches Some(s) ==> s.contains(observed))
            &&& (nin_vals matches Some(s) ==> !s.contains(observed))
        },
    }
}

/// An absent comparison constrains nothing.
pub open spec fn opt_cmp_eval(c: Option<ValueCmpModel>, observed: i32) -> bool {
    match c {
        Some(v) => value_cmp_eval(v, observed),
        None => true,
    }
}

/// What one field's configured pair says of the field's current and previous
/// values: absent pair, or a pair still holding an unresolved token, means
/// "no constraint"; otherwise both halves must accept their value.
pub open spec fn new_old_eval(cfg: Option<NewOldValueCmpModel>, new_v: i32, old_v: i32) -> bool {
    match cfg {
        None => true,
        Some(c) => {
            if pair_has_special(c) {
                true
            } else {
                opt_cmp_eval(c.new_cmp, new_v) && opt_cmp_eval(c.old_cmp, old_v)
            }
        },
    }
}

/// Whether `x` occurs in `v`.
fn contains_val(v: &Vec<i32>, x: i32) -> (r: bool)
    ensures
        r == v@.contains(x),
{
    let mut i: usize = 0;
    while i < v.len()
        invariant
            i <= v.len(),
            forall|j: int| 0 <= j < i ==> v@[j] != x,
        decreases v.len() - i,
    {
        if v[i] == x {
            return true;
        }
        i = i + 1;
    }
    false
}

/// Evaluates one optional comparison against an observed value, as the
/// comparison language defines it.  Symbolic tokens are resolved before
/// evaluation, so none may reach this function.
pub fn evaluate(cmp: &Option<ValueCmp>, observed: i32) -> (r: bool)
    requires
        opt_cmp_view(*cmp) matches Some(c) ==> !is_special(c),
    ensures
        r == opt_cmp_eval(opt_cmp_view(*cmp), observed),
{
    match cmp {
        None => true,
        Some(ValueCmp::EqInt(n)) => observed == *n,
        Some(ValueCmp::Special(_)) => true,
        Some(ValueCmp::Cmp { ne, gt, ge, lt, le, in_vals, nin_vals }) => {
            let ne_ok = match ne {
                Some(v) => observed != *v,
                None => true,
            };
            let gt_ok = match gt {
                Some(v) => observed > *v,
                None => true,
            };
            let ge_ok = match ge {
                Some(v) => observed >= *v,
                None => true,
            };
            let lt_ok = match lt {
                Some(v) => observed < *v,
                None => true,
            };
            let le_ok = match le {
                Some(v) => observed <= *v,
                None => true,
            };
            let in_ok = match in_vals {
                Some(s) => contains_val(s, observed),
                None => true,
            };
            let nin_ok = match nin_vals {
                Some(s) => !contains_val(s, observed),
                None => true,
            };
            ne_ok && gt_ok && ge_ok && lt_ok && le_ok && in_ok && nin_ok
        },
    }
}

/// Whether either half of the pair is a symbolic token.
pub fn pair_has_special_exec(c: &NewOldValueCmp) -> (r: bool)
    ensures
        r == pair_has_special(c@),
{
    let new_special = match &c.new_cmp {
        Some(ValueCmp::Special(_)) => true,
        _ => false,
    };
    let old_special = match &c.old_cmp {
        Some(ValueCmp::Special(_)) => true,
        _ => false,
    };
    new_special || old_special
}

fn clone_opt_vals(v: &Option<Vec<i32>>) -> (r: Option<Vec<i32>>)
    ensures
        opt_vec_view(r) == opt_vec_view(*v),
{
    match v {
        None => None,
        Some(xs) => {
            let mut out: Vec<i32> = Vec::new();
            let mut i: usize = 0;
            while i < xs.len()
                invariant
                    i <= xs.len(),
                    out@ == xs@.subrange(0, i as int),
                decreases xs.len() - i,
            {
                out.push(xs[i]);
                assert(out@ =~= xs@.subrange(0, i as int + 1));
                i = i + 1;
            }
            assert(out@ =~= xs@);
            Some(out)
        },
    }
}

impl Clone for ValueCmp {
    /// The copy denotes the same comparison as the source value.
    fn clone(&self) -> (r: Self)
        ensures
            r@ == self@,
    {
        match self {
            ValueCmp::EqInt(n) => ValueCmp::EqInt(*n),
            ValueCmp::Special(s) => ValueCmp::Special(s.clone()),
            ValueCmp::Cmp { ne, gt, ge, lt, le, in_vals, nin_vals } => ValueCmp::Cmp {
                ne: *ne,
                gt: *gt,
                ge: *ge,
                lt: *lt,
                le: *le,
                in_vals: clone_opt_vals(in_vals),
                nin_vals: clone_opt_vals(nin_vals),
            },
        }
    }
}

fn clone_opt_cmp(c: &Option<ValueCmp>) -> (r: Option<ValueCmp>)
    ensures
        opt_cmp_view(r) == opt_cmp_view(*c),
{
    match c {
        None => None,
        Some(v) => Some(v.clone()),
    }
}

impl Clone for NewOldValueCmp {
    /// The copy denotes the same pair of comparisons as the source value.
    fn clone(&self) -> (r: Self)
        ensures
            r@ == self@,
    {
        NewOldValueCmp { new_cmp: clone_opt_cmp(&self.new_cmp), old_cmp: clone_opt_cmp(&self.old_cmp) }
    }
}

/// Copies one field's optional configured pair.
pub fn clone_cfg_pair(c: &Option<NewOldValueCmp>) -> (r: Option<NewOldValueCmp>)
    ensures
        opt_pair_view(r) == opt_pair_view(*c),
{
    match c {
        None => None,
        Some(v) => Some(v.clone()),
    }
}

/// A range/set comparison with every sub-field absent constrains nothing:
/// it accepts every observed value.
pub proof fn lemma_absent_cmp_accepts_all(c: ValueCmpModel, observed: i32)
    requires
        (c matches ValueCmpModel::Cmp {
            ne: None,
            gt: None,
            ge: None,
            lt: None,
            le: None,
            in_vals: None,
            nin_vals: None,
        }),
    ensures
        value_cmp_eval(c, observed),
{
}

/// A pair with both halves absent is vacuously true, whatever the current
/// and previous values are.
pub proof fn lemma_vacuous_pair(new_v: i32, old_v: i32)
    ensures
        new_old_eval(Some((NewOldValueCmpModel { new_cmp: None, old_cmp: None })), new_v, old_v),
{
}

} // verus!
