use trigger_engine::conditions::charge_blade::{
    compare_cfg_ctx, parse_cfg_phials_special, parse_cfg_power_axe_timer_special,
    ChargeBladeCondition,
};
use trigger_engine::configs::{evaluate, NewOldValueCmp, TriggerCondition, ValueCmp};
use trigger_engine::registry::TriggerRegistry;
use trigger_engine::triggers::{ChargeBladeContext, ChargeBladeState, Event};

fn state(phials: i32, max_phials: i32) -> ChargeBladeState {
    ChargeBladeState {
        sword_charge_timer: 0,
        shield_charge_timer: 0,
        power_axe_timer: 0,
        sword_power: 0,
        phials,
        max_phials,
    }
}

fn cmp_fields(
    ne: Option<i32>,
    gt: Option<i32>,
    ge: Option<i32>,
    lt: Option<i32>,
    le: Option<i32>,
    in_vals: Option<Vec<i32>>,
    nin_vals: Option<Vec<i32>>,
) -> ValueCmp {
    ValueCmp::Cmp {
        ne,
        gt,
        ge,
        lt,
        le,
        in_vals,
        nin_vals,
    }
}

fn pair(new_cmp: Option<ValueCmp>, old_cmp: Option<ValueCmp>) -> NewOldValueCmp {
    NewOldValueCmp { new_cmp, old_cmp }
}

fn phials_condition(phials: Option<NewOldValueCmp>) -> TriggerCondition {
    TriggerCondition::ChargeBlade {
        sword_charge_timer: None,
        shield_charge_timer: None,
        power_axe_timer: None,
        phials,
        sword_power: None,
    }
}

fn event(cur: ChargeBladeState, last: Option<ChargeBladeState>) -> Event {
    Event::ChargeBlade {
        ctx: ChargeBladeContext {
            charge_blade: cur,
            last_ctx: last,
        },
    }
}

#[test]
fn all_absent_cmp_accepts_everything() {
    let cmp = Some(cmp_fields(None, None, None, None, None, None, None));
    for observed in [i32::MIN, -7, 0, 3, i32::MAX] {
        assert!(evaluate(&cmp, observed));
    }
}

#[test]
fn vacuous_pair_is_always_true() {
    let cfg = Some(pair(None, None));
    assert!(compare_cfg_ctx(&cfg, 123, -456));
    assert!(compare_cfg_ctx(&cfg, i32::MIN, i32::MAX));
}

#[test]
fn absent_field_is_always_true() {
    assert!(compare_cfg_ctx(&None, 1, 2));
}

#[test]
fn eq_int_matches_exactly() {
    let cmp = Some(ValueCmp::EqInt(5));
    assert!(evaluate(&cmp, 5));
    assert!(!evaluate(&cmp, 4));
    assert!(!evaluate(&cmp, 6));
}

#[test]
fn range_constraints_each_hold() {
    let ne = Some(cmp_fields(Some(3), None, None, None, None, None, None));
    assert!(evaluate(&ne, 4));
    assert!(!evaluate(&ne, 3));

    let gt = Some(cmp_fields(None, Some(3), None, None, None, None, None));
    assert!(evaluate(&gt, 4));
    assert!(!evaluate(&gt, 3));

    let ge = Some(cmp_fields(None, None, Some(3), None, None, None, None));
    assert!(evaluate(&ge, 3));
    assert!(!evaluate(&ge, 2));

    let lt = Some(cmp_fields(None, None, None, Some(3), None, None, None));
    assert!(evaluate(&lt, 2));
    assert!(!evaluate(&lt, 3));

    let le = Some(cmp_fields(None, None, None, None, Some(3), None, None));
    assert!(evaluate(&le, 3));
    assert!(!evaluate(&le, 4));
}

#[test]
fn set_constraints_each_hold() {
    let in_set = Some(cmp_fields(
        None,
        None,
        None,
        None,
        None,
        Some(vec![1, 3, 5]),
        None,
    ));
    assert!(evaluate(&in_set, 3));
    assert!(!evaluate(&in_set, 2));

    let nin_set = Some(cmp_fields(
        None,
        None,
        None,
        None,
        None,
        None,
        Some(vec![1, 3, 5]),
    ));
    assert!(evaluate(&nin_set, 2));
    assert!(!evaluate(&nin_set, 3));
}

#[test]
fn conjunction_of_sub_constraints() {
    // 0 < observed <= 10 and observed != 5
    let cmp = Some(cmp_fields(Some(5), Some(0), None, None, Some(10), None, None));
    assert!(evaluate(&cmp, 1));
    assert!(evaluate(&cmp, 10));
    assert!(!evaluate(&cmp, 0));
    assert!(!evaluate(&cmp, 5));
    assert!(!evaluate(&cmp, 11));
}

#[test]
fn expansion_is_idempotent() {
    let cfg = Some(pair(
        Some(ValueCmp::Special("full".to_owned())),
        Some(ValueCmp::EqInt(9)),
    ));
    let first = parse_cfg_phials_special(&cfg, 5);
    let second = parse_cfg_phials_special(&cfg, 5);
    assert_eq!(first, second);

    let cfg2 = Some(pair(Some(ValueCmp::Special("enabled".to_owned())), None));
    let first2 = parse_cfg_power_axe_timer_special(&cfg2);
    let second2 = parse_cfg_power_axe_timer_special(&cfg2);
    assert_eq!(first2, second2);
}

#[test]
fn token_full_is_transition_onto_capacity() {
    let cfg = Some(pair(Some(ValueCmp::Special("full".to_owned())), None));
    let expanded = parse_cfg_phials_special(&cfg, 5);
    assert!(compare_cfg_ctx(&expanded, 5, 4));
    assert!(!compare_cfg_ctx(&expanded, 5, 5));
    assert!(!compare_cfg_ctx(&expanded, 4, 4));
}

#[test]
fn token_empty_is_transition_onto_zero() {
    let cfg = Some(pair(Some(ValueCmp::Special("empty".to_owned())), None));
    let expanded = parse_cfg_phials_special(&cfg, 5);
    assert!(compare_cfg_ctx(&expanded, 0, 1));
    assert!(!compare_cfg_ctx(&expanded, 0, 0));
    assert!(!compare_cfg_ctx(&expanded, 1, 1));
}

#[test]
fn token_enabled_is_step_into_positive() {
    let cfg = Some(pair(Some(ValueCmp::Special("enabled".to_owned())), None));
    let expanded = parse_cfg_power_axe_timer_special(&cfg);
    assert!(compare_cfg_ctx(&expanded, 1, 0));
    assert!(compare_cfg_ctx(&expanded, 7, -2));
    assert!(!compare_cfg_ctx(&expanded, 1, 1));
    assert!(!compare_cfg_ctx(&expanded, 0, 0));
}

#[test]
fn token_disabled_is_step_out_of_positive() {
    let cfg = Some(pair(Some(ValueCmp::Special("disabled".to_owned())), None));
    let expanded = parse_cfg_power_axe_timer_special(&cfg);
    assert!(compare_cfg_ctx(&expanded, 0, 1));
    assert!(!compare_cfg_ctx(&expanded, 1, 1));
    assert!(!compare_cfg_ctx(&expanded, 0, 0));
}

#[test]
fn enabled_and_disabled_are_mutually_exclusive() {
    let enabled = parse_cfg_power_axe_timer_special(&Some(pair(
        Some(ValueCmp::Special("enabled".to_owned())),
        None,
    )));
    let disabled = parse_cfg_power_axe_timer_special(&Some(pair(
        Some(ValueCmp::Special("disabled".to_owned())),
        None,
    )));
    for new_v in [-1, 0, 1, 5] {
        for old_v in [-1, 0, 1, 5] {
            let both = compare_cfg_ctx(&enabled, new_v, old_v)
                && compare_cfg_ctx(&disabled, new_v, old_v);
            assert!(!both);
        }
    }
}

#[test]
fn unrecognized_token_imposes_no_constraint() {
    let cfg = Some(pair(Some(ValueCmp::Special("turbo".to_owned())), None));
    let expanded = parse_cfg_phials_special(&cfg, 5);
    assert_eq!(expanded, None);
    assert!(compare_cfg_ctx(&expanded, 0, 0));

    let expanded2 = parse_cfg_power_axe_timer_special(&cfg);
    assert_eq!(expanded2, None);
    assert!(compare_cfg_ctx(&expanded2, 0, 0));
}

#[test]
fn unrecognized_token_still_lets_other_fields_fire() {
    // the phial field carries a bad token, the sword power field matches
    let cond = TriggerCondition::ChargeBlade {
        sword_charge_timer: None,
        shield_charge_timer: None,
        power_axe_timer: None,
        phials: Some(pair(Some(ValueCmp::Special("turbo".to_owned())), None)),
        sword_power: Some(pair(Some(ValueCmp::EqInt(3)), None)),
    };
    let trig = ChargeBladeCondition::new_trigger(&cond);
    let mut cur = state(2, 5);
    cur.sword_power = 3;
    let last = state(2, 5);
    assert!(trig.check(&event(cur, Some(last))));

    let mut cur2 = state(2, 5);
    cur2.sword_power = 4;
    assert!(!trig.check(&event(cur2, Some(last))));
}

#[test]
fn non_special_field_passes_through_unchanged() {
    let cfg = Some(pair(Some(ValueCmp::EqInt(4)), None));
    let expanded = parse_cfg_phials_special(&cfg, 5);
    assert_eq!(expanded, cfg);
    assert!(compare_cfg_ctx(&expanded, 4, 0));
    assert!(!compare_cfg_ctx(&expanded, 5, 0));
}

#[test]
fn unresolved_token_in_old_half_degrades_field() {
    // a token in the old half has no expander; the field imposes nothing
    let cfg = Some(pair(
        Some(ValueCmp::EqInt(4)),
        Some(ValueCmp::Special("full".to_owned())),
    ));
    assert!(compare_cfg_ctx(&cfg, 0, 0));
}

#[test]
fn missing_previous_snapshot_never_fires() {
    let trig = ChargeBladeCondition::new_trigger(&phials_condition(None));
    assert!(!trig.check(&event(state(5, 5), None)));

    let trig2 = ChargeBladeCondition::new_trigger(&phials_condition(Some(pair(
        Some(ValueCmp::Special("full".to_owned())),
        None,
    ))));
    assert!(!trig2.check(&event(state(5, 5), None)));
}

#[test]
fn wrong_event_kind_never_fires() {
    let trig = ChargeBladeCondition::new_trigger(&phials_condition(None));
    assert!(!trig.check(&Event::Other));
}

#[test]
fn wrong_condition_kind_never_fires() {
    let trig = ChargeBladeCondition::new_trigger(&TriggerCondition::Other);
    assert!(!trig.check(&event(state(5, 5), Some(state(4, 5)))));
    assert!(!trig.check(&Event::Other));
}

#[test]
fn end_to_end_full_phials_fires_on_transition_only() {
    let trig = ChargeBladeCondition::new_trigger(&phials_condition(Some(pair(
        Some(ValueCmp::Special("full".to_owned())),
        None,
    ))));
    // 4 -> 5 with capacity 5: fires
    assert!(trig.check(&event(state(5, 5), Some(state(4, 5)))));
    // 5 -> 5: no transition, does not fire
    assert!(!trig.check(&event(state(5, 5), Some(state(5, 5)))));
}

#[test]
fn end_to_end_multi_field_conjunction() {
    // field A (phials) satisfied, field B (sword power) not
    let cond = TriggerCondition::ChargeBlade {
        sword_charge_timer: None,
        shield_charge_timer: None,
        power_axe_timer: None,
        phials: Some(pair(Some(ValueCmp::EqInt(5)), None)),
        sword_power: Some(pair(Some(ValueCmp::EqInt(1)), None)),
    };
    let trig = ChargeBladeCondition::new_trigger(&cond);
    let cur = state(5, 5);
    assert!(!trig.check(&event(cur, Some(state(4, 5)))));

    // with field B satisfied too, it fires
    let mut cur2 = cur;
    cur2.sword_power = 1;
    assert!(trig.check(&event(cur2, Some(state(4, 5)))));
}

#[test]
fn derived_total_is_product_of_phials_and_timer() {
    let cond = TriggerCondition::ChargeBlade {
        sword_charge_timer: None,
        shield_charge_timer: None,
        power_axe_timer: Some(pair(Some(ValueCmp::EqInt(21)), None)),
        phials: None,
        sword_power: None,
    };
    let trig = ChargeBladeCondition::new_trigger(&cond);
    let mut cur = state(3, 5);
    cur.power_axe_timer = 7;
    let last = state(0, 5);
    // 3 phials x 7 per-phial units = 21
    assert!(trig.check(&event(cur, Some(last))));

    let mut cur2 = state(3, 5);
    cur2.power_axe_timer = 8;
    assert!(!trig.check(&event(cur2, Some(last))));
}

#[test]
fn derived_total_saturates() {
    let cond = TriggerCondition::ChargeBlade {
        sword_charge_timer: None,
        shield_charge_timer: None,
        power_axe_timer: Some(pair(Some(ValueCmp::EqInt(i32::MAX)), None)),
        phials: None,
        sword_power: None,
    };
    let trig = ChargeBladeCondition::new_trigger(&cond);
    let mut cur = state(2, 5);
    cur.power_axe_timer = i32::MAX;
    let last = state(0, 5);
    assert!(trig.check(&event(cur, Some(last))));
}

#[test]
fn power_axe_enabled_end_to_end() {
    let cond = TriggerCondition::ChargeBlade {
        sword_charge_timer: None,
        shield_charge_timer: None,
        power_axe_timer: Some(pair(Some(ValueCmp::Special("enabled".to_owned())), None)),
        phials: None,
        sword_power: None,
    };
    let trig = ChargeBladeCondition::new_trigger(&cond);
    let mut cur = state(1, 5);
    cur.power_axe_timer = 4;
    // previous total was 0, current total is 4: became enabled
    assert!(trig.check(&event(cur, Some(state(1, 5)))));
    // previous total already positive: not a transition
    let mut last2 = state(1, 5);
    last2.power_axe_timer = 2;
    assert!(!trig.check(&event(cur, Some(last2))));
}

#[test]
fn registry_dispatches_to_every_condition() {
    let mut reg = TriggerRegistry::new();
    let h_full = reg.register(&phials_condition(Some(pair(
        Some(ValueCmp::Special("full".to_owned())),
        None,
    ))));
    let h_other_kind = reg.register(&TriggerCondition::Other);
    let h_any = reg.register(&phials_condition(None));
    assert_eq!(reg.len(), 3);
    assert_eq!((h_full, h_other_kind, h_any), (0, 1, 2));

    // a full-transition event: the full condition and the unconstrained one
    // fire; the misrouted one never does
    let fired = reg.dispatch(&event(state(5, 5), Some(state(4, 5))));
    assert_eq!(fired, vec![h_full, h_any]);

    // no transition: only the unconstrained condition fires
    let fired2 = reg.dispatch(&event(state(5, 5), Some(state(5, 5))));
    assert_eq!(fired2, vec![h_any]);

    // no previous snapshot: nothing fires
    let fired3 = reg.dispatch(&event(state(5, 5), None));
    assert_eq!(fired3, Vec::<usize>::new());
}
