//! Properties of the contract that span its operations: what a call keeps,
//! and what a failed transfer's callback undoes.

use vstd::prelude::*;

use crate::collections::{seq_insert_value, seq_swap_remove_value};
use crate::constants::{FIVE_TGAS, GAS_FOR_FT_TRANSFER, GAS_FOR_RESOLVE_TRANSFER, ONE_MILLI_NEAR};
use crate::contract::KatherineView;
use crate::constants::NEAR;
use crate::errors::KatherineError;
use crate::kickstarter::{best_achieved_index, lemma_best_achieved, KickstarterView};
use crate::process::{ids_in_range, ready_successful, ready_to_unfreeze, ready_unsuccessful};
use crate::utils::{account_receiver, lemma_linear_release_monotonic, spec_linear_release, spec_proportional, spec_proportional_result};
use crate::types::{EpochMillis, KickstarterId};
use crate::withdraw::valid_account;

verus! {

/// Swap-removing a value just appended to a sequence that did not hold it
/// gives the sequence back.
proof fn lemma_insert_then_remove<A>(s: Seq<A>, x: A)
    requires
        !s.contains(x),
    ensures
        seq_swap_remove_value(seq_insert_value(s, x), x) == s,
{
    let t = s.push(x);
    assert(t[s.len() as int] == x);
    assert(t.contains(x));
    let i = t.index_of(x);
    assert(0 <= i < t.len() && t[i] == x);
    if i < s.len() {
        assert(s[i] == x);
        assert(s.contains(x));
    }
    assert(seq_swap_remove_value(t, x) =~= s);
}

/// A deposit never takes a kickstarter past its hard cap.
pub proof fn law_deposit_respects_hard_cap(
    v: KatherineView,
    supporter: Seq<char>,
    amount: u128,
    id: KickstarterId,
    now: EpochMillis,
)
    requires
        v.valid(),
        id < v.kickstarters.len(),
    ensures
        v.spec_supporter_deposit(supporter, amount, id, now) matches Ok(w) ==> w.kickstarters[id as int].total_deposited
            <= w.kickstarters[id as int].deposits_hard_cap,
{
}

/// A supporter who deposits in a kickstarter during its funding period can
/// take the same amount back at once; that withdrawal leaves every
/// kickstarter and the supporter's record as they were before the deposit.
pub proof fn law_deposit_then_withdraw(
    v: KatherineView,
    supporter: Seq<char>,
    amount: u128,
    id: KickstarterId,
    now: EpochMillis,
    prepaid_gas: u64,
)
    requires
        v.valid(),
        id < v.kickstarters.len(),
        v.kickstarters[id as int].successful is None,
        !v.kickstarters[id as int].deposits.contains_key(supporter),
        !v.supporter_or_new(supporter).kickstarters.contains(id),
        amount > 0,
        amount + ONE_MILLI_NEAR <= u128::MAX,
        prepaid_gas > GAS_FOR_FT_TRANSFER + GAS_FOR_RESOLVE_TRANSFER + FIVE_TGAS,
        valid_account(supporter),
    ensures
        v.spec_supporter_deposit(supporter, amount, id, now) matches Ok(w) ==> {
            &&& w.spec_withdraw(amount, id, supporter, now, prepaid_gas) matches Ok((x, sent, after))
            &&& sent == amount
            &&& !after
            &&& x.kickstarters == v.kickstarters
            &&& x.supporter_or_new(supporter) == v.supporter_or_new(supporter)
            &&& x.supporters.remove(supporter) == v.supporters.remove(supporter)
        },
{
    if v.spec_supporter_deposit(supporter, amount, id, now) is Ok {
        let w = v.spec_supporter_deposit(supporter, amount, id, now)->Ok_0;
        let k = v.kickstarters[id as int];
        let s = v.supporter_or_new(supporter);
        let wk = w.kickstarters[id as int];
        assert(wk.deposits[supporter] == amount);
        lemma_insert_then_remove(s.kickstarters, id);
        lemma_insert_then_remove(k.deposit_order, supporter);
        let r = w.spec_withdraw(amount, id, supporter, now, prepaid_gas);
        assert(r is Ok);
        let x = r->Ok_0.0;
        assert(wk.deposits.remove(supporter) =~= k.deposits);
        assert(x.kickstarters =~= v.kickstarters);
        assert(x.supporters.remove(supporter) =~= v.supporters.remove(supporter));
    }
}

/// When the transfer of a withdrawal made before the freeze fails, its
/// callback puts the supporter's deposit back as it was and the kickstarter
/// stays among the supporter's projects; for a kickstarter outside its
/// funding period the whole kickstarter record is back as it was, but for
/// the order of its supporters (a supporter whose whole deposit went out is
/// put back last).
pub proof fn law_withdraw_before_freeze_restored(
    v: KatherineView,
    requested: u128,
    id: KickstarterId,
    supporter: Seq<char>,
    now: EpochMillis,
)
    requires
        v.valid(),
        id < v.kickstarters.len(),
    ensures
        v.spec_withdraw_before_freeze(requested, id, supporter, now) matches Ok((w, sent)) ==> {
            &&& w.spec_restore_withdraw_before_freeze(sent, id, supporter) matches Ok(x)
            &&& x.kickstarters[id as int].deposits == v.kickstarters[id as int].deposits
            &&& (!v.kickstarters[id as int].spec_is_within_funding_period(now) ==> x.kickstarters
                == v.kickstarters.update(
                id as int,
                KickstarterView { deposit_order: x.kickstarters[id as int].deposit_order, ..v.kickstarters[id as int] },
            ))
            &&& (v.supporter_or_new(supporter).kickstarters.contains(id) ==> x.supporter_or_new(
                supporter,
            ).kickstarters.contains(id))
        },
{
    if v.spec_withdraw_before_freeze(requested, id, supporter, now) is Ok {
        let (w, sent) = v.spec_withdraw_before_freeze(requested, id, supporter, now)->Ok_0;
        let k = v.kickstarters[id as int];
        let deposit = k.deposits[supporter];
        let r = w.spec_restore_withdraw_before_freeze(sent, id, supporter);
        assert(r is Ok);
        let x = r->Ok_0;
        if deposit == sent {
            assert(w.kickstarters[id as int].deposits.insert(supporter, sent) =~= k.deposits);
            let t = seq_insert_value(w.supporter_or_new(supporter).kickstarters, id);
            assert(t.contains(id)) by {
                if !w.supporter_or_new(supporter).kickstarters.contains(id) {
                    assert(t[t.len() - 1] == id);
                }
            }
        } else {
            assert(w.kickstarters[id as int].deposits.insert(supporter, deposit) =~= k.deposits);
        }
        if !k.spec_is_within_funding_period(now) {
            assert(x.kickstarters =~= v.kickstarters.update(
                id as int,
                KickstarterView { deposit_order: x.kickstarters[id as int].deposit_order, ..k },
            ));
        }
    }
}

/// When the transfer of claimed project tokens fails, its callback, given
/// the amount sent, gives the claim back: every kickstarter is as it was
/// before the claim. This holds when the supporter had no claim record of 0.
pub proof fn law_claim_restored(v: KatherineView, requested: u128, id: KickstarterId, supporter: Seq<char>, now: EpochMillis)
    requires
        v.valid(),
        id < v.kickstarters.len(),
        v.kickstarters[id as int].withdraw.contains_key(supporter) ==> v.kickstarters[id as int].withdraw[supporter] > 0,
    ensures
        v.spec_claim_kickstarter_tokens(requested, id, supporter, now) matches Ok((w, sent)) ==> {
            &&& w.spec_restore_supporter_withdraw_from_kickstarter(sent, id, supporter) matches Ok(x)
            &&& x.kickstarters == v.kickstarters
        },
{
    if v.spec_claim_kickstarter_tokens(requested, id, supporter, now) is Ok {
        let k = v.kickstarters[id as int];
        let (w, sent) = v.spec_claim_kickstarter_tokens(requested, id, supporter, now)->Ok_0;
        let wk = w.kickstarters[id as int];
        assert(wk.withdraw_of(supporter) == k.withdraw_of(supporter) + sent);
        let r = w.spec_restore_supporter_withdraw_from_kickstarter(sent, id, supporter);
        assert(r is Ok);
        let x = r->Ok_0;
        if k.withdraw_of(supporter) == 0 {
            assert(wk.withdraw.remove(supporter) =~= k.withdraw);
        } else {
            assert(wk.withdraw.insert(supporter, k.withdraw_of(supporter)) =~= k.withdraw);
        }
        assert(x.kickstarters =~= v.kickstarters);
    }
}

/// When the transfer of a kickstarter's excess project tokens fails, its
/// callback puts the state back as it was.
pub proof fn law_excedent_restored(v: KatherineView, id: KickstarterId, caller: Seq<char>, now: EpochMillis)
    requires
        v.valid(),
        id < v.kickstarters.len(),
    ensures
        v.spec_kickstarter_withdraw_excedent(id, caller, now) matches Ok((w, excedent)) ==> w.spec_restore_kickstarter_excedent_withdraw(
            excedent,
            id,
        ) == Ok::<KatherineView, KatherineError>(v),
{
    if v.spec_kickstarter_withdraw_excedent(id, caller, now) is Ok {
        let (w, e) = v.spec_kickstarter_withdraw_excedent(id, caller, now)->Ok_0;
        let x = w.spec_restore_kickstarter_excedent_withdraw(e, id)->Ok_0;
        assert(x.kickstarters =~= v.kickstarters);
        assert(x =~= v);
    }
}

/// When the transfer of Katherine's fee fails, its callback puts the state
/// back as it was.
pub proof fn law_katherine_fee_restored(v: KatherineView, id: KickstarterId, caller: Seq<char>, now: EpochMillis)
    requires
        v.valid(),
        id < v.kickstarters.len(),
    ensures
        v.spec_withdraw_katherine_fee(id, caller, now) matches Ok((w, fee)) ==> w.spec_restore_katherine_fee(fee, id)
            == Ok::<KatherineView, KatherineError>(v),
{
    if v.spec_withdraw_katherine_fee(id, caller, now) is Ok {
        let (w, fee) = v.spec_withdraw_katherine_fee(id, caller, now)->Ok_0;
        let x = w.spec_restore_katherine_fee(fee, id)->Ok_0;
        assert(x.kickstarters =~= v.kickstarters);
        assert(x =~= v);
    }
}

/// When the transfer of the project's first interest withdrawal fails, its
/// callback puts the state back as it was.
pub proof fn law_interest_withdraw_restored(v: KatherineView, id: KickstarterId, price: u128, receiver: Seq<char>)
    requires
        v.valid(),
        id < v.kickstarters.len(),
        v.kickstarters[id as int].kickstarter_withdraw == 0,
    ensures
        v.spec_kickstarter_withdraw(id, price, receiver) matches Ok((w, amount)) ==> w.spec_restore_kickstarter_withdraw(
            amount,
            id,
        ) == Ok::<KatherineView, KatherineError>(v),
{
    if v.spec_kickstarter_withdraw(id, price, receiver) is Ok {
        let (w, amount) = v.spec_kickstarter_withdraw(id, price, receiver)->Ok_0;
        let x = w.spec_restore_kickstarter_withdraw(amount, id)->Ok_0;
        assert(x.kickstarters =~= v.kickstarters);
        assert(x =~= v);
    }
}

/// After the unfreeze a supporter gets back stNEAR worth, at the price at
/// unfreeze, what its deposit was worth at the price at freeze, short of less
/// than one stNEAR unit of rounding; when the price rose, that is no more
/// stNEAR than it deposited.
pub proof fn law_unfreeze_keeps_near_value(k: KickstarterView, supporter: Seq<char>)
    ensures
        k.spec_after_unfreeze_deposits(supporter) matches Ok(back) ==> {
            let deposit = k.deposits[supporter] as int;
            let price_at_freeze = k.stnear_price_at_freeze.unwrap() as int;
            let price_at_unfreeze = k.stnear_price_at_unfreeze.unwrap() as int;
            &&& back * price_at_unfreeze <= deposit * price_at_freeze
            &&& deposit * price_at_freeze < (back + 1) * price_at_unfreeze
            &&& (price_at_freeze <= price_at_unfreeze ==> back <= deposit)
        },
{
    if k.spec_after_unfreeze_deposits(supporter) is Ok {
        let back = k.spec_after_unfreeze_deposits(supporter)->Ok_0 as int;
        let d = k.deposits[supporter] as int;
        let pf = k.stnear_price_at_freeze.unwrap() as int;
        let pu = k.stnear_price_at_unfreeze.unwrap() as int;
        assert(pu > 0);
        assert(back == (d * pf) / pu);
        vstd::arithmetic::div_mod::lemma_fundamental_div_mod(d * pf, pu);
        vstd::arithmetic::div_mod::lemma_mod_pos_bound(d * pf, pu);
        assert(back * pu <= d * pf && d * pf < (back + 1) * pu) by (nonlinear_arith)
            requires
                d * pf == pu * back + (d * pf) % pu,
                0 <= (d * pf) % pu < pu,
        ;
        if pf <= pu {
            assert(back <= d) by (nonlinear_arith)
                requires
                    back * pu <= d * pf,
                    pf <= pu,
                    pu > 0,
                    d >= 0,
                    back >= 0,
            ;
        }
    }
}

/// The project's interest and what the supporters' total deposit is worth
/// back in stNEAR after the unfreeze add up to the total deposited.
pub proof fn law_interest_completes_deposit(k: KickstarterView, price_at_freeze: u128, price_at_unfreeze: u128)
    ensures
        k.spec_interest(price_at_freeze, price_at_unfreeze) matches Ok(interest) ==> {
            &&& spec_proportional_result(k.total_deposited, price_at_freeze, price_at_unfreeze) matches Ok(back)
            &&& back + interest == k.total_deposited
        },
{
}

/// A claim never takes a supporter's claimed tokens past what has been
/// released to it so far.
pub proof fn law_claims_within_release(v: KatherineView, requested: u128, id: KickstarterId, supporter: Seq<char>, now: EpochMillis)
    requires
        v.valid(),
        id < v.kickstarters.len(),
    ensures
        v.spec_update_supporter_claims(requested, id, supporter, now) matches Ok((w, _)) ==> {
            let k = v.kickstarters[id as int];
            let goal = k.winner_goal();
            &&& spec_proportional_result(k.deposits[supporter], goal.tokens_to_release_per_stnear, NEAR) matches Ok(total)
            &&& w.kickstarters[id as int].withdraw_of(supporter) <= spec_linear_release(
                total,
                goal.cliff_timestamp,
                goal.end_timestamp,
                now,
            )
        },
{
    if v.spec_update_supporter_claims(requested, id, supporter, now) is Ok {
        let k = v.kickstarters[id as int];
        let (w, amount) = v.spec_update_supporter_claims(requested, id, supporter, now)->Ok_0;
        assert(w.kickstarters[id as int].withdraw_of(supporter) == k.withdraw_of(supporter) + amount);
    }
}

/// The project tokens a supporter may claim never shrink as time passes.
pub proof fn law_available_rewards_grow(k: KickstarterView, supporter: Seq<char>, t1: EpochMillis, t2: EpochMillis)
    requires
        t1 <= t2,
    ensures
        k.spec_available_rewards(supporter, t1) matches Ok(a1) ==> (k.spec_available_rewards(supporter, t2) matches Ok(
            a2,
        ) && a1 <= a2),
{
    if k.spec_available_rewards(supporter, t1) is Ok {
        let goal = k.winner_goal();
        let total = spec_proportional_result(k.deposits[supporter], goal.tokens_to_release_per_stnear, NEAR)->Ok_0;
        lemma_linear_release_monotonic(total, goal.cliff_timestamp, goal.end_timestamp, t1, t2);
    }
}

/// Each kickstarter in the range that satisfies the predicate is listed.
proof fn lemma_ids_in_range_includes(
    ks: Seq<KickstarterView>,
    from: int,
    to: int,
    pred: spec_fn(KickstarterView) -> bool,
    i: int,
)
    requires
        from <= i < to,
        pred(ks[i]),
    ensures
        ids_in_range(ks, from, to, pred).contains(ks[i].id),
    decreases to - from,
{
    let rest = ids_in_range(ks, from, to - 1, pred);
    if i == to - 1 {
        let s = rest.push(ks[i].id);
        assert(s[rest.len() as int] == ks[i].id);
    } else {
        lemma_ids_in_range_includes(ks, from, to - 1, pred, i);
        let j = choose|j: int| 0 <= j < rest.len() && rest[j] == ks[i].id;
        if pred(ks[to - 1]) {
            assert(rest.push(ks[to - 1].id)[j] == ks[i].id);
        }
    }
}

/// An id listed by `ids_in_range` is the id of a kickstarter in the range
/// that satisfies the predicate.
proof fn lemma_ids_in_range_member(
    ks: Seq<KickstarterView>,
    from: int,
    to: int,
    pred: spec_fn(KickstarterView) -> bool,
    x: u32,
)
    requires
        ids_in_range(ks, from, to, pred).contains(x),
    ensures
        exists|i: int| from <= i < to && (#[trigger] ks[i]).id == x && pred(ks[i]),
    decreases to - from,
{
    if to > from {
        let rest = ids_in_range(ks, from, to - 1, pred);
        if rest.contains(x) {
            lemma_ids_in_range_member(ks, from, to - 1, pred, x);
        } else {
            let s = ids_in_range(ks, from, to, pred);
            let j = choose|j: int| 0 <= j < s.len() && s[j] == x;
            assert(pred(ks[to - 1]) && s == rest.push(ks[to - 1].id));
            if j < rest.len() {
                assert(rest[j] == x);
                assert(rest.contains(x));
            }
            assert(ks[to - 1].id == x);
        }
    }
}

/// Every kickstarter that the robot's listing at time `now` reports as
/// successful is, when processed at `now`, sent to activation with its met
/// goal of largest desired amount and nothing else changes; every one
/// reported unsuccessful is closed as unsuccessful and inactive.
pub proof fn law_listed_kickstarters_get_processed(v: KatherineView, from: int, to: int, now: EpochMillis, id: u32)
    requires
        v.valid(),
        0 <= from,
        to <= v.kickstarters.len(),
    ensures
        ids_in_range(v.kickstarters, from, to, ready_successful(now)).contains(id) ==> {
            let k = v.kickstarters[id as int];
            &&& v.spec_process_kickstarter(id, now) matches Ok((w, Some(goal_id)))
            &&& w == v
            &&& exists|b: int|
                0 <= b < k.goals.len() && (#[trigger] k.goals[b]).id == goal_id && k.goals[b].desired_amount
                    <= k.total_deposited && forall|j: int|
                    0 <= j < k.goals.len() && (#[trigger] k.goals[j]).desired_amount <= k.total_deposited
                        ==> k.goals[j].desired_amount <= k.goals[b].desired_amount
        },
        ids_in_range(v.kickstarters, from, to, ready_unsuccessful(now)).contains(id) ==> {
            &&& v.spec_process_kickstarter(id, now) matches Ok((w, None))
            &&& w.kickstarters[id as int].successful == Some(false)
            &&& !w.kickstarters[id as int].active
        },
{
    if ids_in_range(v.kickstarters, from, to, ready_successful(now)).contains(id) {
        lemma_ids_in_range_member(v.kickstarters, from, to, ready_successful(now), id);
        let i = choose|i: int| from <= i < to && (#[trigger] v.kickstarters[i]).id == id && ready_successful(now)(
            v.kickstarters[i],
        );
        assert(i == id);
        let k = v.kickstarters[i];
        lemma_best_achieved(k.goals, k.total_deposited, k.goals.len() as int);
        let b = best_achieved_index(k.goals, k.total_deposited, k.goals.len() as int);
        assert(b != -1);
        assert(k.goals[b].desired_amount <= k.total_deposited);
    }
    if ids_in_range(v.kickstarters, from, to, ready_unsuccessful(now)).contains(id) {
        lemma_ids_in_range_member(v.kickstarters, from, to, ready_unsuccessful(now), id);
        let i = choose|i: int| from <= i < to && (#[trigger] v.kickstarters[i]).id == id && ready_unsuccessful(now)(
            v.kickstarters[i],
        );
        assert(i == id);
        let k = v.kickstarters[i];
        lemma_best_achieved(k.goals, k.total_deposited, k.goals.len() as int);
    }
}

/// A created kickstarter is found by its slug under the next id, the number
/// of kickstarters grows by one, and a second kickstarter with the same slug
/// is refused.
pub proof fn law_created_kickstarter_found_by_slug(
    v: KatherineView,
    name: Seq<char>,
    slug: Seq<char>,
    owner_id: Seq<char>,
    open_timestamp: EpochMillis,
    close_timestamp: EpochMillis,
    token_contract_address: Seq<char>,
    deposits_hard_cap: u128,
    max_tokens_to_release_per_stnear: u128,
    caller: Seq<char>,
    now: EpochMillis,
)
    requires
        v.valid(),
        v.kickstarters.len() < u32::MAX,
    ensures
        v.spec_create_kickstarter(
            name,
            slug,
            owner_id,
            open_timestamp,
            close_timestamp,
            token_contract_address,
            deposits_hard_cap,
            max_tokens_to_release_per_stnear,
            caller,
            now,
        ) matches Ok(w) ==> {
            &&& w.valid()
            &&& w.kickstarters.len() == v.kickstarters.len() + 1
            &&& w.kickstarter_id_by_slug.contains_key(slug)
            &&& w.kickstarter_id_by_slug[slug] == v.kickstarters.len()
            &&& w.kickstarters[v.kickstarters.len() as int].slug == slug
            &&& w.spec_create_kickstarter(
                name,
                slug,
                owner_id,
                open_timestamp,
                close_timestamp,
                token_contract_address,
                deposits_hard_cap,
                max_tokens_to_release_per_stnear,
                caller,
                now,
            ) == Err::<KatherineView, KatherineError>(KatherineError::SlugAlreadyExists)
        },
{
}

/// A kickstarter is activated only when the project tokens it holds back
/// the supporters' rewards and Katherine's fee.
pub proof fn law_activation_backs_rewards(v: KatherineView, id: KickstarterId, goal_id: u8, st_near_price: Option<u128>)
    requires
        v.valid(),
        id < v.kickstarters.len(),
    ensures
        v.spec_activate_successful_kickstarter_after(id, goal_id, st_near_price) matches Ok(w) ==> {
            let k = w.kickstarters[id as int];
            &&& k.successful == Some(true)
            &&& k.available_reward_tokens >= k.total_tokens_to_release.unwrap() + k.katherine_fee.unwrap()
        },
{
}

/// Taking back a successful kickstarter's excess project tokens leaves it
/// exactly the supporters' rewards and Katherine's fee.
pub proof fn law_excedent_leaves_owed_tokens(v: KatherineView, id: KickstarterId, caller: Seq<char>, now: EpochMillis)
    requires
        v.valid(),
        id < v.kickstarters.len(),
        v.kickstarters[id as int].successful == Some(true),
    ensures
        v.spec_kickstarter_withdraw_excedent(id, caller, now) matches Ok((w, _)) ==> {
            let k = w.kickstarters[id as int];
            k.available_reward_tokens == k.total_tokens_to_release.unwrap() + k.katherine_fee.unwrap()
        },
{
}

/// The supporters of a kickstarter found unsuccessful can take their whole
/// deposit back at any time after its funding period.
pub proof fn law_unsuccessful_funds_available(
    v: KatherineView,
    supporter: Seq<char>,
    id: KickstarterId,
    now: EpochMillis,
    prepaid_gas: u64,
)
    requires
        v.valid(),
        id < v.kickstarters.len(),
        v.kickstarters[id as int].successful == Some(false),
        now >= v.kickstarters[id as int].close_timestamp,
        v.kickstarters[id as int].deposits.contains_key(supporter),
        v.kickstarters[id as int].deposits[supporter] > 0,
        v.kickstarters[id as int].deposits[supporter] + ONE_MILLI_NEAR <= u128::MAX,
        prepaid_gas > GAS_FOR_FT_TRANSFER + GAS_FOR_RESOLVE_TRANSFER + FIVE_TGAS,
        valid_account(supporter),
    ensures
        ({
            let deposit = v.kickstarters[id as int].deposits[supporter];
            &&& v.spec_withdraw(deposit, id, supporter, now, prepaid_gas) matches Ok((w, sent, after))
            &&& sent == deposit
            &&& !after
            &&& !w.kickstarters[id as int].deposits.contains_key(supporter)
        }),
{
}

/// The sum of the amounts of a finite map from accounts to amounts.
pub open spec fn map_sum(m: Map<Seq<char>, u128>) -> int
    decreases m.dom().len(),
{
    if m.dom().finite() && m.dom().len() > 0 {
        let k = m.dom().choose();
        proof {
            assert(m.dom().contains(k));
            assert(m.remove(k).dom() =~= m.dom().remove(k));
        }
        m[k] + map_sum(m.remove(k))
    } else {
        0
    }
}

/// The sum splits at any key of the map.
pub proof fn lemma_map_sum_split(m: Map<Seq<char>, u128>, k: Seq<char>)
    requires
        m.dom().finite(),
        m.dom().contains(k),
    ensures
        map_sum(m) == m[k] + map_sum(m.remove(k)),
    decreases m.dom().len(),
{
    let c = m.dom().choose();
    assert(m.dom().contains(c));
    assert(m.remove(c).dom() =~= m.dom().remove(c));
    if c != k {
        assert(m.remove(c).dom().contains(k));
        lemma_map_sum_split(m.remove(c), k);
        assert(m.remove(k).dom() =~= m.dom().remove(k));
        assert(m.remove(k).dom().contains(c));
        lemma_map_sum_split(m.remove(k), c);
        assert(m.remove(c).remove(k) =~= m.remove(k).remove(c));
    }
}

/// The sum after storing `v` under `k`.
pub proof fn lemma_map_sum_insert(m: Map<Seq<char>, u128>, k: Seq<char>, v: u128)
    requires
        m.dom().finite(),
    ensures
        map_sum(m.insert(k, v)) == map_sum(m) - (if m.dom().contains(k) { m[k] as int } else { 0 }) + v,
{
    lemma_map_sum_split(m.insert(k, v), k);
    assert(m.insert(k, v).remove(k) =~= m.remove(k));
    if m.dom().contains(k) {
        lemma_map_sum_split(m, k);
    } else {
        assert(m.remove(k) =~= m);
    }
}

/// The sum after removing `k`.
pub proof fn lemma_map_sum_remove(m: Map<Seq<char>, u128>, k: Seq<char>)
    requires
        m.dom().finite(),
    ensures
        map_sum(m.remove(k)) == map_sum(m) - (if m.dom().contains(k) { m[k] as int } else { 0 }),
{
    if m.dom().contains(k) {
        lemma_map_sum_split(m, k);
    } else {
        assert(m.remove(k) =~= m);
    }
}

/// A supporter's deposit during the funding period keeps a kickstarter's
/// total deposited equal to the sum of its supporters' deposits.
pub proof fn law_deposit_keeps_total(v: KatherineView, supporter: Seq<char>, amount: u128, id: KickstarterId, now: EpochMillis)
    requires
        v.valid(),
        id < v.kickstarters.len(),
        v.kickstarters[id as int].deposits.dom().finite(),
        map_sum(v.kickstarters[id as int].deposits) == v.kickstarters[id as int].total_deposited,
    ensures
        v.spec_supporter_deposit(supporter, amount, id, now) matches Ok(w) ==> {
            &&& w.kickstarters[id as int].deposits.dom().finite()
            &&& map_sum(w.kickstarters[id as int].deposits) == w.kickstarters[id as int].total_deposited
        },
{
    if v.spec_supporter_deposit(supporter, amount, id, now) is Ok {
        let k = v.kickstarters[id as int];
        lemma_map_sum_insert(k.deposits, supporter, (k.deposit_of(supporter) + amount) as u128);
    }
}

/// A withdrawal during the funding period keeps a kickstarter's total
/// deposited equal to the sum of its supporters' deposits.
pub proof fn law_withdraw_keeps_total(v: KatherineView, requested: u128, id: KickstarterId, supporter: Seq<char>, now: EpochMillis)
    requires
        v.valid(),
        id < v.kickstarters.len(),
        v.kickstarters[id as int].spec_is_within_funding_period(now),
        v.kickstarters[id as int].deposits.dom().finite(),
        map_sum(v.kickstarters[id as int].deposits) == v.kickstarters[id as int].total_deposited,
    ensures
        v.spec_withdraw_before_freeze(requested, id, supporter, now) matches Ok((w, _)) ==> {
            &&& w.kickstarters[id as int].deposits.dom().finite()
            &&& map_sum(w.kickstarters[id as int].deposits) == w.kickstarters[id as int].total_deposited
        },
{
    if v.spec_withdraw_before_freeze(requested, id, supporter, now) is Ok {
        let k = v.kickstarters[id as int];
        let (w, sent) = v.spec_withdraw_before_freeze(requested, id, supporter, now)->Ok_0;
        let deposit = k.deposits[supporter];
        if deposit == sent {
            lemma_map_sum_remove(k.deposits, supporter);
        } else {
            lemma_map_sum_insert(k.deposits, supporter, (deposit - sent) as u128);
        }
    }
}

/// The project tokens that the deposits of a finite map earn at `rate`
/// tokens per stNEAR, each supporter's share rounded down on its own.
pub open spec fn rewards_sum(m: Map<Seq<char>, u128>, rate: u128) -> int
    decreases m.dom().len(),
{
    if m.dom().finite() && m.dom().len() > 0 {
        let k = m.dom().choose();
        proof {
            assert(m.dom().contains(k));
            assert(m.remove(k).dom() =~= m.dom().remove(k));
        }
        spec_proportional(m[k], rate, NEAR) + rewards_sum(m.remove(k), rate)
    } else {
        0
    }
}

/// Rounding each share down never gives more than rounding their sum down.
proof fn lemma_floor_superadditive(a: int, b: int, d: int)
    requires
        a >= 0,
        b >= 0,
        d > 0,
    ensures
        a / d + b / d <= (a + b) / d,
{
    vstd::arithmetic::div_mod::lemma_fundamental_div_mod(a, d);
    vstd::arithmetic::div_mod::lemma_fundamental_div_mod(b, d);
    vstd::arithmetic::div_mod::lemma_mod_pos_bound(a, d);
    vstd::arithmetic::div_mod::lemma_mod_pos_bound(b, d);
    let q = a / d + b / d;
    assert(q * d <= a + b) by (nonlinear_arith)
        requires
            a == d * (a / d) + a % d,
            b == d * (b / d) + b % d,
            a % d >= 0,
            b % d >= 0,
            q == a / d + b / d,
    ;
    vstd::arithmetic::div_mod::lemma_div_is_ordered(q * d, a + b, d);
    vstd::arithmetic::div_mod::lemma_div_multiples_vanish(q, d);
    assert(q * d == d * q) by (nonlinear_arith);
}

/// The supporters' shares of the rewards add up to no more than the rewards
/// of the sum of their deposits.
proof fn lemma_rewards_sum_bound(m: Map<Seq<char>, u128>, rate: u128)
    requires
        m.dom().finite(),
    ensures
        map_sum(m) >= 0,
        rewards_sum(m, rate) <= (map_sum(m) * rate) / (NEAR as int),
    decreases m.dom().len(),
{
    if m.dom().len() > 0 {
        let k = m.dom().choose();
        assert(m.dom().contains(k));
        assert(m.remove(k).dom() =~= m.dom().remove(k));
        lemma_rewards_sum_bound(m.remove(k), rate);
        let rest = map_sum(m.remove(k));
        let a = m[k] as int * rate as int;
        let b = rest * rate as int;
        assert(a >= 0 && b >= 0) by (nonlinear_arith)
            requires
                m[k] >= 0,
                rest >= 0,
                rate >= 0,
                a == m[k] as int * rate as int,
                b == rest * rate as int,
        ;
        lemma_floor_superadditive(a, b, NEAR as int);
        assert(map_sum(m) * rate as int == a + b) by (nonlinear_arith)
            requires
                map_sum(m) == m[k] as int + rest,
                a == m[k] as int * rate as int,
                b == rest * rate as int,
        ;
    }
}

/// A kickstarter is activated only when the tokens it holds back every
/// supporter's rewards, each rounded down, and Katherine's fee, as long as
/// its total deposited covers its supporters' deposits.
pub proof fn law_activation_backs_every_supporter(v: KatherineView, id: KickstarterId, goal_id: u8, st_near_price: Option<u128>)
    requires
        v.valid(),
        id < v.kickstarters.len(),
        v.kickstarters[id as int].deposits.dom().finite(),
        map_sum(v.kickstarters[id as int].deposits) <= v.kickstarters[id as int].total_deposited,
    ensures
        v.spec_activate_successful_kickstarter_after(id, goal_id, st_near_price) matches Ok(w) ==> {
            let k = w.kickstarters[id as int];
            rewards_sum(k.deposits, k.winner_goal().tokens_to_release_per_stnear) + k.katherine_fee.unwrap()
                <= k.available_reward_tokens
        },
{
    if v.spec_activate_successful_kickstarter_after(id, goal_id, st_near_price) is Ok {
        let k = v.kickstarters[id as int];
        let rate = k.goals[goal_id as int].tokens_to_release_per_stnear;
        lemma_rewards_sum_bound(k.deposits, rate);
        assert(map_sum(k.deposits) * rate as int <= k.total_deposited as int * rate as int) by (nonlinear_arith)
            requires
                0 <= map_sum(k.deposits) <= k.total_deposited,
                rate >= 0,
        ;
        vstd::arithmetic::div_mod::lemma_div_is_ordered(
            map_sum(k.deposits) * rate as int,
            k.total_deposited as int * rate as int,
            NEAR as int,
        );
    }
}

/// Withdrawing everything is `withdraw` of all the stNEAR the caller (read
/// as a JSON account id) holds in the kickstarter, whether it is in its funding period, unsuccessful, or
/// successful with its funds unfrozen.
pub proof fn law_withdraw_all_is_withdraw(v: KatherineView, id: KickstarterId, caller: Seq<char>, now: EpochMillis, prepaid_gas: u64)
    requires
        v.valid(),
        id < v.kickstarters.len(),
        valid_account(caller),
        v.kickstarters[id as int].successful == Some(true) ==> {
            &&& v.kickstarters[id as int].winner_goal().unfreeze_timestamp < now
            &&& v.kickstarters[id as int].stnear_price_at_unfreeze is Some
        },
    ensures
        v.spec_supporter_total_deposit(account_receiver(caller), id, None) matches Ok(all) ==> v.spec_withdraw_all(
            id,
            caller,
            now,
            prepaid_gas,
        )
            == v.spec_withdraw(all, id, caller, now, prepaid_gas),
{
}

/// A kickstarter is evaluated only once its funding period is over, and from
/// then on the total deposited in it is fixed: no withdrawal, whole-balance
/// withdrawal, deposit or callback of a failed withdrawal moves it.
pub proof fn law_total_deposited_fixed_after_close(
    v: KatherineView,
    amount: u128,
    id: KickstarterId,
    caller: Seq<char>,
    now: EpochMillis,
    prepaid_gas: u64,
)
    requires
        v.valid(),
        id < v.kickstarters.len(),
    ensures
        v.spec_process_kickstarter(id, now) is Ok ==> now >= v.kickstarters[id as int].close_timestamp,
        now >= v.kickstarters[id as int].close_timestamp ==> {
            let total = v.kickstarters[id as int].total_deposited;
            &&& (v.spec_withdraw(amount, id, caller, now, prepaid_gas) matches Ok((w, _, _))
                ==> w.kickstarters[id as int].total_deposited == total)
            &&& (v.spec_withdraw_all(id, caller, now, prepaid_gas) matches Ok((w, _, _))
                ==> w.kickstarters[id as int].total_deposited == total)
            &&& v.spec_supporter_deposit(caller, amount, id, now) is Err
        },
        v.spec_restore_withdraw_before_freeze(amount, id, caller) matches Ok(w)
            ==> w.kickstarters[id as int].total_deposited == v.kickstarters[id as int].total_deposited,
{
}

/// Creating and updating kickstarters keep the slug index in step with the
/// kickstarters (it holds of the empty contract), so a kickstarter is found
/// by its current slug under its id and a slug that no kickstarter has is
/// refused.
pub proof fn law_slugs_kept(
    v: KatherineView,
    id: KickstarterId,
    name: Seq<char>,
    slug: Seq<char>,
    owner_id: Seq<char>,
    open_timestamp: EpochMillis,
    close_timestamp: EpochMillis,
    token_contract_address: Seq<char>,
    deposits_hard_cap: u128,
    max_tokens_to_release_per_stnear: u128,
    caller: Seq<char>,
    now: EpochMillis,
)
    requires
        v.valid(),
        v.kickstarters.len() < u32::MAX,
    ensures
        v.spec_create_kickstarter(
            name,
            slug,
            owner_id,
            open_timestamp,
            close_timestamp,
            token_contract_address,
            deposits_hard_cap,
            max_tokens_to_release_per_stnear,
            caller,
            now,
        ) matches Ok(w) ==> w.slugs_match(),
        v.spec_update_kickstarter(
            id,
            name,
            slug,
            owner_id,
            open_timestamp,
            close_timestamp,
            token_contract_address,
            deposits_hard_cap,
            max_tokens_to_release_per_stnear,
            caller,
            now,
        ) matches Ok(w) ==> w.slugs_match(),
{
}

/// In every state that the operations reach (each keeps the contract well
/// formed, and a well-formed contract has a valid state), each kickstarter
/// is found by its slug under its id, and a slug that no kickstarter has is
/// not indexed, so looking it up is refused.
pub proof fn law_slug_lookup(v: KatherineView, slug: Seq<char>)
    requires
        v.valid(),
    ensures
        forall|i: int|
            0 <= i < v.kickstarters.len() ==> {
                &&& v.kickstarter_id_by_slug.contains_key(#[trigger] v.kickstarters[i].slug)
                &&& v.kickstarter_id_by_slug[v.kickstarters[i].slug] == i
            },
        (forall|i: int| 0 <= i < v.kickstarters.len() ==> #[trigger] v.kickstarters[i].slug != slug)
            ==> !v.kickstarter_id_by_slug.contains_key(slug),
{
    if v.kickstarter_id_by_slug.contains_key(slug) {
        let i = v.kickstarter_id_by_slug[slug] as int;
        assert(v.kickstarters[i].slug == slug);
    }
}

/// An interest withdrawal sends the interest earned at the given price less
/// the interest already withdrawn: the project's withdrawn interest grows by
/// exactly the amount sent, and afterwards equals the stNEAR the total
/// deposit no longer needs to keep its value in NEAR at that price. So the
/// interest sent over all withdrawals never exceeds that amount.
pub proof fn law_interest_withdrawal_sends_the_rest(v: KatherineView, id: KickstarterId, price: u128, receiver: Seq<char>)
    requires
        v.valid(),
        id < v.kickstarters.len(),
    ensures
        v.spec_kickstarter_withdraw(id, price, receiver) matches Ok((w, sent)) ==> {
            let k = v.kickstarters[id as int];
            let wk = w.kickstarters[id as int];
            &&& sent > 0
            &&& wk.kickstarter_withdraw == k.kickstarter_withdraw + sent
            &&& k.stnear_price_at_freeze matches Some(price_at_freeze)
            &&& wk.kickstarter_withdraw == k.total_deposited - (k.total_deposited * price_at_freeze) / (price as int)
        },
{
}

/// The project tokens reported as a supporter's total rewards, together with
/// those the supporter already claimed, make up what the deposit earns at
/// the winning goal's rate; once everything is claimed nothing is left.
pub proof fn law_total_rewards_net_of_claims(v: KatherineView, supporter: Seq<char>, id: KickstarterId)
    requires
        v.valid(),
        id < v.kickstarters.len(),
    ensures
        v.spec_supporter_total_rewards(supporter, id) matches Ok(Some(rewards)) ==> {
            let k = v.kickstarters[id as int];
            &&& k.deposits.contains_key(supporter)
            &&& rewards + k.withdraw_of(supporter) == (k.deposits[supporter] * k.winner_goal().tokens_to_release_per_stnear)
                / (NEAR as int)
        },
{
}

/// After the project deposits reward tokens, supporters may deposit exactly
/// when the tokens held cover the rewards of the whole hard cap at the
/// maximum rate, `M = hard cap * max rate / NEAR`, plus Katherine's fee on
/// them, `M * fee / 10000`.
pub proof fn law_reward_tokens_back_rewards_and_fee(
    v: KatherineView,
    amount: u128,
    id: KickstarterId,
    caller: Seq<char>,
    now: EpochMillis,
)
    requires
        v.valid(),
        id < v.kickstarters.len(),
    ensures
        v.spec_kickstarter_deposit(amount, id, caller, now) matches Ok(w) ==> {
            let k = v.kickstarters[id as int];
            let wk = w.kickstarters[id as int];
            let m = (k.deposits_hard_cap * k.max_tokens_to_release_per_stnear) / (NEAR as int);
            let fee = (v.katherine_fee_percent * m) / 10000;
            &&& wk.available_reward_tokens == k.available_reward_tokens + amount
            &&& (wk.enough_reward_tokens <==> wk.available_reward_tokens >= m + fee)
        },
{
}

/// Every kickstarter listed as ready to unfreeze is successful, has no
/// price at unfreeze yet, and is past its winning goal's freezing period;
/// and every such kickstarter in the range is listed.
pub proof fn law_listed_kickstarters_can_unfreeze(v: KatherineView, from: int, to: int, now: EpochMillis, id: u32)
    requires
        v.valid(),
        0 <= from,
        to <= v.kickstarters.len(),
    ensures
        ids_in_range(v.kickstarters, from, to, ready_to_unfreeze(now)).contains(id) ==> {
            let k = v.kickstarters[id as int];
            &&& from <= id < to
            &&& k.successful == Some(true)
            &&& k.stnear_price_at_unfreeze is None
            &&& k.winner_goal().unfreeze_timestamp < now
        },
{
    if ids_in_range(v.kickstarters, from, to, ready_to_unfreeze(now)).contains(id) {
        lemma_ids_in_range_member(v.kickstarters, from, to, ready_to_unfreeze(now), id);
        let i = choose|i: int| from <= i < to && (#[trigger] v.kickstarters[i]).id == id && ready_to_unfreeze(now)(
            v.kickstarters[i],
        );
        assert(i == id);
    }
}

/// Claiming everything succeeds whenever tokens are available to the
/// supporter now, and sends exactly them: the rewards released linearly
/// between the winning goal's cliff and end, less those already claimed.
/// The supporter's claimed tokens then equal all released so far. (For a
/// valid caller id that reads as itself, within the machine's limits.)
pub proof fn law_claim_all_sends_available(v: KatherineView, id: KickstarterId, caller: Seq<char>, now: EpochMillis)
    requires
        v.valid(),
        id < v.kickstarters.len(),
    ensures
        ({
            let k = v.kickstarters[id as int];
            let goal = k.winner_goal();
            let total = (k.deposits[caller] * goal.tokens_to_release_per_stnear) / (NEAR as int);
            let released = spec_linear_release(total as u128, goal.cliff_timestamp, goal.end_timestamp, now);
            let available = released - k.withdraw_of(caller);
            &&& valid_account(caller)
            &&& account_receiver(caller) == caller
            &&& k.successful == Some(true)
            &&& v.is_supporting(caller, id)
            &&& k.deposits.contains_key(caller)
            &&& goal.cliff_timestamp < now
            &&& total <= u128::MAX
            &&& available > 0
            &&& available + ONE_MILLI_NEAR <= u128::MAX
            &&& k.spec_claim_leaves(caller, available as u128) is Ok
        }) ==> {
            let k = v.kickstarters[id as int];
            let goal = k.winner_goal();
            let total = (k.deposits[caller] * goal.tokens_to_release_per_stnear) / (NEAR as int);
            let released = spec_linear_release(total as u128, goal.cliff_timestamp, goal.end_timestamp, now);
            &&& v.spec_claim_all_kickstarter_tokens(id, caller, now) matches Ok((w, sent))
            &&& sent == released - k.withdraw_of(caller)
            &&& w.kickstarters[id as int].withdraw_of(caller) == released
        },
{
    let k = v.kickstarters[id as int];
    let goal = k.winner_goal();
    let total = (k.deposits[caller] * goal.tokens_to_release_per_stnear) / (NEAR as int);
    let released = spec_linear_release(total as u128, goal.cliff_timestamp, goal.end_timestamp, now);
    let available = released - k.withdraw_of(caller);
    if valid_account(caller) && account_receiver(caller) == caller && k.successful == Some(true) && v.is_supporting(
        caller,
        id,
    ) && k.deposits.contains_key(caller) && goal.cliff_timestamp < now && total <= u128::MAX && available > 0
        && available + ONE_MILLI_NEAR <= u128::MAX && k.spec_claim_leaves(caller, available as u128) is Ok {
        lemma_linear_release_monotonic(total as u128, goal.cliff_timestamp, goal.end_timestamp, now, now);
        assert(spec_proportional_result(k.deposits[caller], goal.tokens_to_release_per_stnear, NEAR) == Ok::<
            u128,
            KatherineError,
        >(total as u128));
        assert(k.spec_available_rewards(caller, now) == Ok::<u128, KatherineError>(available as u128));
        assert(v.spec_supporter_available_rewards(caller, id, now) == Ok::<Option<u128>, KatherineError>(
            Some(available as u128),
        ));
        let u = v.spec_update_supporter_claims(available as u128, id, caller, now);
        assert(u is Ok);
    }
}

/// Every kickstarter in the range that the robot should act on at time
/// `now` is listed: an active one past its funding period among those to
/// process (as successful when a goal is met, else as unsuccessful), and a
/// successful one past its freezing period with no price at unfreeze among
/// those to unfreeze.
pub proof fn law_ready_kickstarters_are_listed(v: KatherineView, from: int, to: int, now: EpochMillis, i: int)
    requires
        v.valid(),
        0 <= from <= i < to,
        to <= v.kickstarters.len(),
    ensures
        ({
            let k = v.kickstarters[i];
            k.active && k.close_timestamp <= now && exists|g: int|
                0 <= g < k.goals.len() && (#[trigger] k.goals[g]).desired_amount <= k.total_deposited
        }) ==> ids_in_range(v.kickstarters, from, to, ready_successful(now)).contains(i as u32),
        ({
            let k = v.kickstarters[i];
            k.active && k.close_timestamp <= now && forall|g: int|
                0 <= g < k.goals.len() ==> (#[trigger] k.goals[g]).desired_amount > k.total_deposited
        }) ==> ids_in_range(v.kickstarters, from, to, ready_unsuccessful(now)).contains(i as u32),
        ({
            let k = v.kickstarters[i];
            k.successful == Some(true) && k.stnear_price_at_unfreeze is None && k.winner_goal().unfreeze_timestamp
                < now
        }) ==> ids_in_range(v.kickstarters, from, to, ready_to_unfreeze(now)).contains(i as u32),
{
    let k = v.kickstarters[i];
    assert(k.id == i);
    if ready_successful(now)(k) {
        lemma_ids_in_range_includes(v.kickstarters, from, to, ready_successful(now), i);
    }
    if ready_unsuccessful(now)(k) {
        lemma_ids_in_range_includes(v.kickstarters, from, to, ready_unsuccessful(now), i);
    }
    if ready_to_unfreeze(now)(k) {
        lemma_ids_in_range_includes(v.kickstarters, from, to, ready_to_unfreeze(now), i);
    }
}

/// The project tokens a supporter may claim now are the rewards released
/// linearly so far less those already claimed, and none when more were
/// claimed than released.
pub proof fn law_available_rewards_net_of_claims(v: KatherineView, supporter: Seq<char>, id: KickstarterId, now: EpochMillis)
    requires
        v.valid(),
        id < v.kickstarters.len(),
    ensures
        v.spec_supporter_available_rewards(supporter, id, now) matches Ok(Some(available)) ==> {
            let k = v.kickstarters[id as int];
            let goal = k.winner_goal();
            let total = (k.deposits[supporter] * goal.tokens_to_release_per_stnear) / (NEAR as int);
            let released = spec_linear_release(total as u128, goal.cliff_timestamp, goal.end_timestamp, now);
            &&& k.deposits.contains_key(supporter)
            &&& total <= u128::MAX
            &&& if released >= k.withdraw_of(supporter) {
                available + k.withdraw_of(supporter) == released
            } else {
                available == 0
            }
        },
{
    if v.spec_supporter_available_rewards(supporter, id, now) is Ok {
        let k = v.kickstarters[id as int];
        let goal = k.winner_goal();
        if k.deposits.contains_key(supporter) && k.winner_goal_id is Some {
            let total = (k.deposits[supporter] * goal.tokens_to_release_per_stnear) / (NEAR as int);
            assert(spec_proportional(k.deposits[supporter], goal.tokens_to_release_per_stnear, NEAR) == total);
            if total <= u128::MAX {
                lemma_linear_release_monotonic(total as u128, goal.cliff_timestamp, goal.end_timestamp, now, now);
            }
        }
    }
}

/// The stNEAR a supporter holds in a kickstarter: the deposit until it
/// succeeds; once the funds are unfrozen, the deposit's value in NEAR at the
/// price at freeze, in stNEAR at the price at unfreeze, less what was
/// already withdrawn; while frozen, the same at the price given.
pub proof fn law_supporter_holdings(v: KatherineView, supporter: Seq<char>, id: KickstarterId, price: Option<u128>)
    requires
        v.valid(),
        id < v.kickstarters.len(),
    ensures
        v.spec_supporter_total_deposit(supporter, id, price) matches Ok(held) ==> {
            let k = v.kickstarters[id as int];
            &&& k.deposits.contains_key(supporter)
            &&& (k.successful != Some(true) ==> held == k.deposits[supporter])
            &&& (k.successful == Some(true) && k.stnear_price_at_unfreeze is Some ==> held + k.stnear_withdraw_of(
                supporter,
            ) == (k.deposits[supporter] * k.stnear_price_at_freeze.unwrap()) / (
            k.stnear_price_at_unfreeze.unwrap() as int))
            &&& (k.successful == Some(true) && k.stnear_price_at_unfreeze is None ==> price is Some && held == (
            k.deposits[supporter] * k.stnear_price_at_freeze.unwrap()) / (price.unwrap() as int))
        },
{
}

/// A transfer of stNEAR from the staking pool is a supporter's deposit: it
/// is accepted only from the minimum deposit up, within the funding period
/// of a kickstarter whose rewards are backed, and it adds the amount to both
/// the supporter's deposit and the kickstarter's total.
pub proof fn law_stnear_transfer_is_a_deposit(
    v: KatherineView,
    sender: Seq<char>,
    amount: u128,
    msg: Seq<char>,
    now: EpochMillis,
    id: KickstarterId,
)
    requires
        v.valid(),
        crate::utils::spec_parse_u32(msg) == Some(id),
    ensures
        v.spec_ft_on_transfer(sender, amount, msg, v.metapool_contract_address, now) matches Ok(w) ==> {
            let k = v.kickstarters[id as int];
            let wk = w.kickstarters[id as int];
            &&& id < v.kickstarters.len()
            &&& amount >= v.min_deposit_amount
            &&& k.open_timestamp <= now < k.close_timestamp
            &&& k.enough_reward_tokens
            &&& wk.total_deposited == k.total_deposited + amount
            &&& wk.deposits[sender] == k.deposit_of(sender) + amount
            &&& wk.total_deposited <= k.deposits_hard_cap
        },
{
}

/// Only the project's owner may take the interest of a successful
/// kickstarter, and, until the price at unfreeze is recorded, only before
/// the winning goal's freezing period ends.
pub proof fn law_interest_withdrawal_permission(v: KatherineView, id: KickstarterId, caller: Seq<char>, now: EpochMillis)
    requires
        v.valid(),
    ensures
        v.spec_interest_withdrawal_allowed(id, caller, now) is Ok ==> {
            let k = v.kickstarters[id as int];
            &&& id < v.kickstarters.len()
            &&& caller == k.owner_id
            &&& k.successful == Some(true)
            &&& (k.stnear_price_at_unfreeze is None ==> now <= k.winner_goal().unfreeze_timestamp)
        },
{
}

/// A claim adds exactly the amount sent to the supporter's claimed tokens,
/// and the amount sent never exceeds what is available now.
pub proof fn law_claim_records_what_it_sends(
    v: KatherineView,
    requested: u128,
    id: KickstarterId,
    supporter: Seq<char>,
    now: EpochMillis,
)
    requires
        v.valid(),
        id < v.kickstarters.len(),
    ensures
        v.spec_claim_kickstarter_tokens(requested, id, supporter, now) matches Ok((w, sent)) ==> {
            let k = v.kickstarters[id as int];
            &&& sent > 0
            &&& w.kickstarters[id as int].withdraw_of(supporter) == k.withdraw_of(supporter) + sent
            &&& k.spec_available_rewards(supporter, now) matches Ok(available)
            &&& requested <= sent <= available
        },
{
}

} // verus!
