//! The charge-blade condition: compiles a declarative [`TriggerCondition`]
//! into a predicate over charge-blade events.
//!
//! The phial and power-axe fields understand symbolic tokens ("full",
//! "empty", "enabled", "disabled"); each token stands for a transition
//! between the previous and the current value and is expanded into plain
//! comparisons before evaluation.

use vstd::prelude::*;

use crate::configs::{
    NewOldValueCmp, NewOldValueCmpModel, TriggerCondition, ValueCmp, ValueCmpModel, new_old_eval,
    opt_pair_view, pair_has_special_exec, evaluate, clone_cfg_pair,
};
use crate::triggers::{ChargeBladeState, Event};

verus! {

/// The comparison "became full": the current value reaches the capacity,
/// the previous value was below it.
pub open spec fn phials_full_pair(max_phials: i32) -> NewOldValueCmpModel {
    NewOldValueCmpModel {
        new_cmp: Some(ValueCmpModel::EqInt(max_phials)),
        old_cmp: Some(ValueCmpModel::Cmp {
            ne: Some(max_phials),
            gt: None,
            ge: None,
            lt: None,
            le: None,
            in_vals: None,
            nin_vals: None,
        }),
    }
}

/// The comparison "became empty": the current value is zero, the previous
/// value was not.
pub open spec fn phials_empty_pair() -> NewOldValueCmpModel {
    NewOldValueCmpModel {
        new_cmp: Some(ValueCmpModel::EqInt(0)),
        old_cmp: Some(ValueCmpModel::Cmp {
            ne: Some(0),
            gt: None,
            ge: None,
            lt: None,
            le: None,
            in_vals: None,
            nin_vals: None,
        }),
    }
}

/// The comparison "became enabled": the current total is positive, the
/// previous total was not.
pub open spec fn power_axe_enabled_pair() -> NewOldValueCmpModel {
    NewOldValueCmpModel {
        new_cmp: Some(ValueCmpModel::Cmp {
            ne: None,
            gt: Some(0),
            ge: None,
            lt: None,
            le: None,
            in_vals: None,
            nin_vals: None,
        }),
        old_cmp: Some(ValueCmpModel::Cmp {
            ne: None,
            gt: None,
            ge: None,
            lt: None,
            le: Some(0),
            in_vals: None,
            nin_vals: None,
        }),
    }
}

/// The comparison "became disabled": the current total is not positive, the
/// previous total was.
pub open spec fn power_axe_disabled_pair() -> NewOldValueCmpModel {
    NewOldValueCmpModel {
        new_cmp: Some(ValueCmpModel::Cmp {
            ne: None,
            gt: None,
            ge: None,
            lt: None,
            le: Some(0),
            in_vals: None,
            nin_vals: None,
        }),
        old_cmp: Some(ValueCmpModel::Cmp {
            ne: None,
            gt: Some(0),
            ge: None,
            lt: None,
            le: None,
            in_vals: None,
            nin_vals: None,
        }),
    }
}

/// What the phial field's configuration means once its symbolic token, if
/// any, is resolved against the capacity `max_phials`: a recognized token
/// becomes its transition comparison, an unrecognized one degrades the
/// field to "no constraint", and a field without a token passes through
/// unchanged.
pub open spec fn expanded_phials(value: Option<NewOldValueCmpModel>, max_phials: i32) -> Option<
    NewOldValueCmpModel,
> {
    match value {
        None => None,
        Some(v) => match v.new_cmp {
            Some(ValueCmpModel::Special(s)) => if s == "full"@ {
                Some(phials_full_pair(max_phials))
            } else if s == "empty"@ {
                Some(phials_empty_pair())
            } else {
                None
            },
            _ => value,
        },
    }
}

/// What the power-axe field's configuration means once its symbolic token,
/// if any, is resolved; tokens here need no contextual parameter.
pub open spec fn expanded_power_axe_timer(value: Option<NewOldValueCmpModel>) -> Option<
    NewOldValueCmpModel,
> {
    match value {
        None => None,
        Some(v) => match v.new_cmp {
            Some(ValueCmpModel::Special(s)) => if s == "enabled"@ {
                Some(power_axe_enabled_pair())
            } else if s == "disabled"@ {
                Some(power_axe_disabled_pair())
            } else {
                None
            },
            _ => value,
        },
    }
}

/// Resolves the phial field's symbolic token against the weapon's capacity.
///
/// "full" and "empty" become their transition comparisons; an unrecognized
/// token is a configuration error and degrades the field to "no
/// constraint"; a field without a token is returned unchanged.
pub fn parse_cfg_phials_special(value: &Option<NewOldValueCmp>, max_phials: i32) -> (r: Option<
    NewOldValueCmp,
>)
    ensures
        opt_pair_view(r) == expanded_phials(opt_pair_view(*value), max_phials),
{
    match value {
        None => None,
        Some(v) => match &v.new_cmp {
            Some(ValueCmp::Special(s)) => {
                let tok_full: String = "full".to_owned();
                let tok_empty: String = "empty".to_owned();
                if *s == tok_full {
                    Some(
                        NewOldValueCmp {
                            new_cmp: Some(ValueCmp::EqInt(max_phials)),
                            old_cmp: Some(
                                ValueCmp::Cmp {
                                    ne: Some(max_phials),
                                    gt: None,
                                    ge: None,
                                    lt: None,
                                    le: None,
                                    in_vals: None,
                                    nin_vals: None,
                                },
                            ),
                        },
                    )
                } else if *s == tok_empty {
                    Some(
                        NewOldValueCmp {
                            new_cmp: Some(ValueCmp::EqInt(0)),
                            old_cmp: Some(
                                ValueCmp::Cmp {
                                    ne: Some(0),
                                    gt: None,
                                    ge: None,
                                    lt: None,
                                    le: None,
                                    in_vals: None,
                                    nin_vals: None,
                                },
                            ),
                        },
                    )
                } else {
                    // Unrecognized token: the field imposes no constraint.
                    None
                }
            },
            _ => clone_cfg_pair(value),
        },
    }
}

/// Resolves the power-axe field's symbolic token.
///
/// "enabled" and "disabled" become their transition comparisons; an
/// unrecognized token degrades the field to "no constraint"; a field
/// without a token is returned unchanged.
pub fn parse_cfg_power_axe_timer_special(value: &Option<NewOldValueCmp>) -> (r: Option<
    NewOldValueCmp,
>)
    ensures
        opt_pair_view(r) == expanded_power_axe_timer(opt_pair_view(*value)),
{
    match value {
        None => None,
        Some(v) => match &v.new_cmp {
            Some(ValueCmp::Special(s)) => {
                let tok_enabled: String = "enabled".to_owned();
                let tok_disabled: String = "disabled".to_owned();
                if *s == tok_enabled {
                    Some(
                        NewOldValueCmp {
                            new_cmp: Some(
                                ValueCmp::Cmp {
                                    ne: None,
                                    gt: Some(0),
                                    ge: None,
                                    lt: None,
                                    le: None,
                                    in_vals: None,
                                    nin_vals: None,
                                },
                            ),
                            old_cmp: Some(
                                ValueCmp::Cmp {
                                    ne: None,
                                    gt: None,
                                    ge: None,
                                    lt: None,
                                    le: Some(0),
                                    in_vals: None,
                                    nin_vals: None,
                                },
                            ),
                        },
                    )
                } else if *s == tok_disabled {
                    Some(
                        NewOldValueCmp {
                            new_cmp: Some(
                                ValueCmp::Cmp {
                                    ne: None,
                                    gt: None,
                                    ge: None,
                                    lt: None,
                                    le: Some(0),
                                    in_vals: None,
                                    nin_vals: None,
                                },
                            ),
                            old_cmp: Some(
                                ValueCmp::Cmp {
                                    ne: None,
                                    gt: Some(0),
                                    ge: None,
                                    lt: None,
                                    le: None,
                                    in_vals: None,
                                    nin_vals: None,
                                },
                            ),
                        },
                    )
                } else {
                    // Unrecognized token: the field imposes no constraint.
                    None
                }
            },
            _ => clone_cfg_pair(value),
        },
    }
}

/// Evaluates one field's configured pair against the field's current and
/// previous values.  A pair that still holds an unresolved symbolic token
/// is a configuration error and imposes no constraint.
pub fn compare_cfg_ctx(cfg_value: &Option<NewOldValueCmp>, ctx_new: i32, ctx_old: i32) -> (r: bool)
    ensures
        r == new_old_eval(opt_pair_view(*cfg_value), ctx_new, ctx_old),
{
    match cfg_value {
        None => true,
        Some(c) => {
            if pair_has_special_exec(c) {
                true
            } else {
                evaluate(&c.new_cmp, ctx_new) && evaluate(&c.old_cmp, ctx_old)
            }
        },
    }
}

/// The saturation of a mathematical integer into the comparison domain.
pub open spec fn clamp_i32(v: int) -> i32 {
    if v > i32::MAX as int {
        i32::MAX
    } else if v < i32::MIN as int {
        i32::MIN
    } else {
        v as i32
    }
}

/// The derived total power-axe time of a snapshot: per-phial time times the
/// number of loaded phials, saturated into the comparison domain.
pub open spec fn total_power_axe_timer(s: ChargeBladeState) -> i32 {
    clamp_i32(s.phials as int * s.power_axe_timer as int)
}

/// Computes the derived total power-axe time of a snapshot.
fn compute_total_power_axe_timer(s: &ChargeBladeState) -> (r: i32)
    ensures
        r == total_power_axe_timer(*s),
{
    let p: i64 = s.phials as i64;
    let t: i64 = s.power_axe_timer as i64;
    proof {
        assert(p * t <= 0x4000_0000_0000_0000 && p * t >= -0x4000_0000_0000_0000)
            by (nonlinear_arith)
            requires
                -0x8000_0000 <= p <= 0x7fff_ffff,
                -0x8000_0000 <= t <= 0x7fff_ffff,
        ;
    }
    let prod: i64 = p * t;
    if prod > i32::MAX as i64 {
        i32::MAX
    } else if prod < i32::MIN as i64 {
        i32::MIN
    } else {
        prod as i32
    }
}

/// The compiled form of one charge-blade condition: the configured pair for
/// each tracked field.
struct ChargeBladeCfg {
    sword_charge_timer: Option<NewOldValueCmp>,
    shield_charge_timer: Option<NewOldValueCmp>,
    power_axe_timer: Option<NewOldValueCmp>,
    phials: Option<NewOldValueCmp>,
    sword_power: Option<NewOldValueCmp>,
}

/// The model of a compiled charge-blade condition.
pub struct ChargeBladeCfgModel {
    pub sword_charge_timer: Option<NewOldValueCmpModel>,
    pub shield_charge_timer: Option<NewOldValueCmpModel>,
    pub power_axe_timer: Option<NewOldValueCmpModel>,
    pub phials: Option<NewOldValueCmpModel>,
    pub sword_power: Option<NewOldValueCmpModel>,
}

/// Whether a compiled condition accepts the step from snapshot `last` to
/// snapshot `cur`: the conjunction of every field's comparison, with the
/// phial and power-axe tokens resolved and the derived power-axe total
/// recomputed from each snapshot.
pub open spec fn charge_blade_matches(
    cfg: ChargeBladeCfgModel,
    cur: ChargeBladeState,
    last: ChargeBladeState,
) -> bool {
    &&& new_old_eval(cfg.sword_charge_timer, cur.sword_charge_timer, last.sword_charge_timer)
    &&& new_old_eval(cfg.shield_charge_timer, cur.shield_charge_timer, last.shield_charge_timer)
    &&& new_old_eval(expanded_phials(cfg.phials, cur.max_phials), cur.phials, last.phials)
    &&& new_old_eval(cfg.sword_power, cur.sword_power, last.sword_power)
    &&& new_old_eval(
        expanded_power_axe_timer(cfg.power_axe_timer),
        total_power_axe_timer(cur),
        total_power_axe_timer(last),
    )
}

/// Whether a compiled condition fires on an event.  A condition compiled
/// from a rule of another kind never fires; neither does any condition on
/// an event of another subsystem, nor on an event without a previous
/// snapshot.
pub open spec fn condition_fires(cfg: Option<ChargeBladeCfgModel>, event: Event) -> bool {
    match event {
        Event::ChargeBlade { ctx } => match (cfg, ctx.last_ctx) {
            (Some(c), Some(last)) => charge_blade_matches(c, ctx.charge_blade, last),
            _ => false,
        },
        _ => false,
    }
}

/// What compiling a declarative rule yields: the charge-blade fields of a
/// charge-blade rule, and nothing for a rule of another kind.
pub open spec fn compiled_condition(cond: TriggerCondition) -> Option<ChargeBladeCfgModel> {
    match cond {
        TriggerCondition::ChargeBlade {
            sword_charge_timer,
            shield_charge_timer,
            power_axe_timer,
            phials,
            sword_power,
        } => Some(
            ChargeBladeCfgModel {
                sword_charge_timer: opt_pair_view(sword_charge_timer),
                shield_charge_timer: opt_pair_view(shield_charge_timer),
                power_axe_timer: opt_pair_view(power_axe_timer),
                phials: opt_pair_view(phials),
                sword_power: opt_pair_view(sword_power),
            },
        ),
        _ => None,
    }
}

/// A charge-blade condition, compiled once and checked against every
/// subsequent event.
pub struct ChargeBladeCondition {
    cfg: Option<ChargeBladeCfg>,
}

impl View for ChargeBladeCondition {
    type V = Option<ChargeBladeCfgModel>;

    closed spec fn view(&self) -> Option<ChargeBladeCfgModel> {
        match self.cfg {
            Some(c) => Some(
                ChargeBladeCfgModel {
                    sword_charge_timer: opt_pair_view(c.sword_charge_timer),
                    shield_charge_timer: opt_pair_view(c.shield_charge_timer),
                    power_axe_timer: opt_pair_view(c.power_axe_timer),
                    phials: opt_pair_view(c.phials),
                    sword_power: opt_pair_view(c.sword_power),
                },
            ),
            None => None,
        }
    }
}

impl ChargeBladeCondition {
    /// Compiles one declarative rule.  A rule of another kind is an internal
    /// configuration error; the compiled condition then never fires, so one
    /// misrouted rule cannot disturb the others.
    pub fn new_trigger(cond: &TriggerCondition) -> (r: Self)
        ensures
            r@ == compiled_condition(*cond),
    {
        let cfg = match cond {
            TriggerCondition::ChargeBlade {
                sword_charge_timer,
                shield_charge_timer,
                power_axe_timer,
                phials,
                sword_power,
            } => Some(
                ChargeBladeCfg {
                    sword_charge_timer: clone_cfg_pair(sword_charge_timer),
                    shield_charge_timer: clone_cfg_pair(shield_charge_timer),
                    power_axe_timer: clone_cfg_pair(power_axe_timer),
                    phials: clone_cfg_pair(phials),
                    sword_power: clone_cfg_pair(sword_power),
                },
            ),
            _ => None,
        };
        ChargeBladeCondition { cfg }
    }

    /// Checks the compiled condition against one event.  The symbolic
    /// tokens of the phial and power-axe fields are resolved against the
    /// event's context, the derived power-axe total is recomputed from both
    /// snapshots, and every field's comparison must accept its pair of
    /// values.
    pub fn check(&self, event: &Event) -> (r: bool)
        ensures
            r == condition_fires(self@, *event),
    {
        match event {
            Event::ChargeBlade { ctx } => match (&self.cfg, &ctx.last_ctx) {
                (Some(cfg), Some(last)) => {
                    let cur = &ctx.charge_blade;
                    let phials = parse_cfg_phials_special(&cfg.phials, cur.max_phials);
                    let power_axe_timer = parse_cfg_power_axe_timer_special(&cfg.power_axe_timer);
                    let new_total = compute_total_power_axe_timer(cur);
                    let old_total = compute_total_power_axe_timer(last);
                    compare_cfg_ctx(
                        &cfg.sword_charge_timer,
                        cur.sword_charge_timer,
                        last.sword_charge_timer,
                    ) && compare_cfg_ctx(
                        &cfg.shield_charge_timer,
                        cur.shield_charge_timer,
                        last.shield_charge_timer,
                    ) && compare_cfg_ctx(&phials, cur.phials, last.phials) && compare_cfg_ctx(
                        &cfg.sword_power,
                        cur.sword_power,
                        last.sword_power,
                    ) && compare_cfg_ctx(&power_axe_timer, new_total, old_total)
                },
                _ => false,
            },
            _ => false,
        }
    }
}

/// Expansion is deterministic: resolving the same field configuration with
/// the same contextual capacity always yields the identical comparison.
pub proof fn lemma_expansion_deterministic(
    a: Option<NewOldValueCmpModel>,
    b: Option<NewOldValueCmpModel>,
    cap_a: i32,
    cap_b: i32,
)
    requires
        a == b,
        cap_a == cap_b,
    ensures
        expanded_phials(a, cap_a) == expanded_phials(b, cap_b),
        expanded_power_axe_timer(a) == expanded_power_axe_timer(b),
{
}

/// The token "full" means exactly the transition onto the capacity: the
/// expanded comparison accepts a step iff the current value equals
/// `max_phials` and the previous one did not.  Whatever stood in the old
/// half beside the token is replaced by the expansion.
pub proof fn lemma_token_full(
    old_half: Option<ValueCmpModel>,
    max_phials: i32,
    new_v: i32,
    old_v: i32,
)
    ensures
        new_old_eval(
            expanded_phials(
                Some(
                    (NewOldValueCmpModel {
                        new_cmp: Some(ValueCmpModel::Special("full"@)),
                        old_cmp: old_half,
                    }),
                ),
                max_phials,
            ),
            new_v,
            old_v,
        ) == (new_v == max_phials && old_v != max_phials),
{
}

/// The token "empty" means exactly the transition onto zero.
pub proof fn lemma_token_empty(
    old_half: Option<ValueCmpModel>,
    max_phials: i32,
    new_v: i32,
    old_v: i32,
)
    ensures
        new_old_eval(
            expanded_phials(
                Some(
                    (NewOldValueCmpModel {
                        new_cmp: Some(ValueCmpModel::Special("empty"@)),
                        old_cmp: old_half,
                    }),
                ),
                max_phials,
            ),
            new_v,
            old_v,
        ) == (new_v == 0 && old_v != 0),
{
    reveal_strlit("full");
    reveal_strlit("empty");
    assert("empty"@.len() == 5 && "full"@.len() == 4);
    assert("empty"@ != "full"@);
}

/// The token "enabled" means exactly the step into a positive total.
pub proof fn lemma_token_enabled(old_half: Option<ValueCmpModel>, new_v: i32, old_v: i32)
    ensures
        new_old_eval(
            expanded_power_axe_timer(
                Some(
                    (NewOldValueCmpModel {
                        new_cmp: Some(ValueCmpModel::Special("enabled"@)),
                        old_cmp: old_half,
                    }),
                ),
            ),
            new_v,
            old_v,
        ) == (new_v > 0 && old_v <= 0),
{
}

/// The token "disabled" means exactly the step out of a positive total.
pub proof fn lemma_token_disabled(old_half: Option<ValueCmpModel>, new_v: i32, old_v: i32)
    ensures
        new_old_eval(
            expanded_power_axe_timer(
                Some(
                    (NewOldValueCmpModel {
                        new_cmp: Some(ValueCmpModel::Special("disabled"@)),
                        old_cmp: old_half,
                    }),
                ),
            ),
            new_v,
            old_v,
        ) == (new_v <= 0 && old_v > 0),
{
    reveal_strlit("enabled");
    reveal_strlit("disabled");
    assert("disabled"@.len() == 8 && "enabled"@.len() == 7);
    assert("disabled"@ != "enabled"@);
}

/// "enabled" and "disabled" are mutually exclusive: no single step can
/// satisfy both expanded comparisons.
pub proof fn lemma_enabled_disabled_exclusive(
    old_half: Option<ValueCmpModel>,
    new_v: i32,
    old_v: i32,
)
    ensures
        !(new_old_eval(
            expanded_power_axe_timer(
                Some(
                    (NewOldValueCmpModel {
                        new_cmp: Some(ValueCmpModel::Special("enabled"@)),
                        old_cmp: old_half,
                    }),
                ),
            ),
            new_v,
            old_v,
        ) && new_old_eval(
            expanded_power_axe_timer(
                Some(
                    (NewOldValueCmpModel {
                        new_cmp: Some(ValueCmpModel::Special("disabled"@)),
                        old_cmp: old_half,
                    }),
                ),
            ),
            new_v,
            old_v,
        )),
{
    lemma_token_enabled(old_half, new_v, old_v);
    lemma_token_disabled(old_half, new_v, old_v);
}

/// An unrecognized phial token does not abort compilation; the field it
/// stood in simply imposes no constraint.
pub proof fn lemma_unrecognized_phials_token(
    s: Seq<char>,
    old_half: Option<ValueCmpModel>,
    max_phials: i32,
    new_v: i32,
    old_v: i32,
)
    requires
        s != "full"@,
        s != "empty"@,
    ensures
        new_old_eval(
            expanded_phials(
                Some(
                    (NewOldValueCmpModel {
                        new_cmp: Some(ValueCmpModel::Special(s)),
                        old_cmp: old_half,
                    }),
                ),
                max_phials,
            ),
            new_v,
            old_v,
        ),
{
}

/// An unrecognized power-axe token likewise leaves its field unconstrained.
pub proof fn lemma_unrecognized_power_axe_token(
    s: Seq<char>,
    old_half: Option<ValueCmpModel>,
    new_v: i32,
    old_v: i32,
)
    requires
        s != "enabled"@,
        s != "disabled"@,
    ensures
        new_old_eval(
            expanded_power_axe_timer(
                Some(
                    (NewOldValueCmpModel {
                        new_cmp: Some(ValueCmpModel::Special(s)),
                        old_cmp: old_half,
                    }),
                ),
            ),
            new_v,
            old_v,
        ),
{
}

/// An event that carries no previous snapshot never fires any condition.
pub proof fn lemma_missing_last_never_fires(
    cfg: Option<ChargeBladeCfgModel>,
    cur: ChargeBladeState,
)
    ensures
        !condition_fires(
            cfg,
            (Event::ChargeBlade {
                ctx: (crate::triggers::ChargeBladeContext { charge_blade: cur, last_ctx: None }),
            }),
        ),
{
}

/// A condition is a strict conjunction over its fields: as soon as one
/// field's comparison rejects the step, the whole condition rejects it,
/// however the remaining fields fare.
pub proof fn lemma_conjunction_blocks(
    cfg: ChargeBladeCfgModel,
    cur: ChargeBladeState,
    last: ChargeBladeState,
)
    requires
        ({
            ||| !new_old_eval(
                cfg.sword_charge_timer,
                cur.sword_charge_timer,
                last.sword_charge_timer,
            )
            ||| !new_old_eval(
                cfg.shield_charge_timer,
                cur.shield_charge_timer,
                last.shield_charge_timer,
            )
            ||| !new_old_eval(expanded_phials(cfg.phials, cur.max_phials), cur.phials, last.phials)
            ||| !new_old_eval(cfg.sword_power, cur.sword_power, last.sword_power)
            ||| !new_old_eval(
                expanded_power_axe_timer(cfg.power_axe_timer),
                total_power_axe_timer(cur),
                total_power_axe_timer(last),
            )
        }),
    ensures
        !charge_blade_matches(cfg, cur, last),
{
}

} // verus!
