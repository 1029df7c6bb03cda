//! Rolling spending counters and the per-signer velocity window.
//!
//! Day and week spend totals are keyed purely by time bucket (day number,
//! week number) in association lists with unique keys and non-negative
//! values. Velocity history keeps, per signer, the timestamps of recent
//! actions, pruned to a sliding window on every check.

use vstd::prelude::*;

use crate::types::VelocityConfig;

verus! {

/// Keys of a bucket list occur at most once.
pub open spec fn bucket_keys_unique(s: Seq<(u64, i128)>) -> bool {
    forall|i: int, j: int| 0 <= i < j < s.len() ==> s[i].0 != s[j].0
}

/// Every accumulated amount is non-negative.
pub open spec fn bucket_nonneg(s: Seq<(u64, i128)>) -> bool {
    forall|i: int| 0 <= i < s.len() ==> s[i].1 >= 0
}

/// Some entry carries this key.
pub open spec fn bucket_has(s: Seq<(u64, i128)>, k: u64) -> bool {
    exists|i: int| 0 <= i < s.len() && s[i].0 == k
}

/// The index of the entry carrying this key (meaningful only under
/// `bucket_has` and `bucket_keys_unique`).
pub open spec fn bucket_index(s: Seq<(u64, i128)>, k: u64) -> int {
    choose|i: int| 0 <= i < s.len() && s[i].0 == k
}

/// The amount accumulated under this key; 0 for an untouched bucket.
pub open spec fn bucket_get(s: Seq<(u64, i128)>, k: u64) -> i128 {
    if bucket_has(s, k) {
        s[bucket_index(s, k)].1
    } else {
        0
    }
}

/// With non-negative entries, every bucket reads non-negative.
pub proof fn lemma_bucket_get_nonneg(s: Seq<(u64, i128)>, k: u64)
    requires
        bucket_nonneg(s),
    ensures
        bucket_get(s, k) >= 0,
{
    if bucket_has(s, k) {
        let i = bucket_index(s, k);
        assert(0 <= i < s.len() && s[i].0 == k);
    }
}

/// An entry with this key at this index determines the bucket value.
proof fn lemma_bucket_get_at(s: Seq<(u64, i128)>, k: u64, i: int)
    requires
        bucket_keys_unique(s),
        0 <= i < s.len(),
        s[i].0 == k,
    ensures
        bucket_has(s, k),
        bucket_index(s, k) == i,
        bucket_get(s, k) == s[i].1,
{
    assert(bucket_has(s, k));
    let j = bucket_index(s, k);
    assert(0 <= j < s.len() && s[j].0 == k);
    if i != j {
        assert(s[i].0 == s[j].0);
        assert(false);
    }
}

/// Two bucket lists with pointwise equal keys and equal values away from `k`
/// agree on every key other than `k`.
proof fn lemma_bucket_frame(s1: Seq<(u64, i128)>, s2: Seq<(u64, i128)>, k: u64)
    requires
        bucket_keys_unique(s1),
        s1.len() == s2.len(),
        forall|i: int| 0 <= i < s1.len() ==> s1[i].0 == s2[i].0,
        forall|i: int| 0 <= i < s1.len() && s1[i].0 != k ==> s1[i].1 == s2[i].1,
    ensures
        forall|k2: u64| k2 != k ==> bucket_get(s2, k2) == bucket_get(s1, k2),
{
    assert(bucket_keys_unique(s2));
    assert forall|k2: u64| k2 != k implies bucket_get(s2, k2) == bucket_get(s1, k2) by {
        if bucket_has(s1, k2) {
            let i = bucket_index(s1, k2);
            assert(s2[i].0 == k2);
            lemma_bucket_get_at(s2, k2, i);
        } else {
            if bucket_has(s2, k2) {
                let i = bucket_index(s2, k2);
                assert(s1[i].0 == k2);
            }
        }
    }
}

/// Reads the amount accumulated under `k`; see `bucket_get`.
pub fn bucket_lookup(v: &Vec<(u64, i128)>, k: u64) -> (r: i128)
    requires
        bucket_keys_unique(v@),
    ensures
        r == bucket_get(v@, k),
{
    let mut i: usize = 0;
    while i < v.len()
        invariant
            0 <= i <= v@.len(),
            bucket_keys_unique(v@),
            forall|j: int| 0 <= j < i ==> v@[j].0 != k,
        decreases v@.len() - i,
    {
        if v[i].0 == k {
            proof {
                lemma_bucket_get_at(v@, k, i as int);
            }
            return v[i].1;
        }
        i = i + 1;
    }
    proof {
        if bucket_has(v@, k) {
            let j = bucket_index(v@, k);
            assert(v@[j].0 != k);
        }
    }
    0
}

/// Adds `amount` to the bucket under `k`, creating the bucket at 0 first.
pub fn bucket_add(v: &mut Vec<(u64, i128)>, k: u64, amount: i128)
    requires
        bucket_keys_unique(old(v)@),
        bucket_nonneg(old(v)@),
        amount >= 0,
        bucket_get(old(v)@, k) + amount <= i128::MAX,
    ensures
        bucket_keys_unique(final(v)@),
        bucket_nonneg(final(v)@),
        bucket_get(final(v)@, k) == bucket_get(old(v)@, k) + amount,
        forall|k2: u64| k2 != k ==> bucket_get(final(v)@, k2) == bucket_get(old(v)@, k2),
{
    let ghost s0 = v@;
    let mut i: usize = 0;
    while i < v.len()
        invariant
            0 <= i <= v@.len(),
            v@ == s0,
            s0 == old(v)@,
            bucket_keys_unique(s0),
            bucket_nonneg(s0),
            amount >= 0,
            bucket_get(s0, k) + amount <= i128::MAX,
            forall|j: int| 0 <= j < i ==> s0[j].0 != k,
        decreases v@.len() - i,
    {
        if v[i].0 == k {
            proof {
                lemma_bucket_get_at(s0, k, i as int);
            }
            let cur = v[i].1;
            v[i] = (k, cur + amount);
            proof {
                lemma_bucket_get_at(v@, k, i as int);
                lemma_bucket_frame(s0, v@, k);
            }
            return ;
        }
        i = i + 1;
    }
    proof {
        if bucket_has(s0, k) {
            let j = bucket_index(s0, k);
            assert(s0[j].0 != k);
        }
    }
    v.push((k, amount));
    proof {
        assert(bucket_keys_unique(v@));
        lemma_bucket_get_at(v@, k, s0.len() as int);
        assert forall|k2: u64| k2 != k implies bucket_get(v@, k2) == bucket_get(s0, k2) by {
            if bucket_has(s0, k2) {
                let j = bucket_index(s0, k2);
                assert(v@[j].0 == k2);
                lemma_bucket_get_at(v@, k2, j);
            } else {
                if bucket_has(v@, k2) {
                    let j = bucket_index(v@, k2);
                    assert(0 <= j < v@.len() && v@[j].0 == k2);
                    assert(j < s0.len());
                    assert(s0[j].0 == k2);
                }
            }
        }
    }
}

/// Hands `amount` back to the bucket under `k`, flooring at zero: a refund
/// never drives a counter negative.
pub fn bucket_refund(v: &mut Vec<(u64, i128)>, k: u64, amount: i128)
    requires
        bucket_keys_unique(old(v)@),
        bucket_nonneg(old(v)@),
        amount >= 0,
    ensures
        bucket_keys_unique(final(v)@),
        bucket_nonneg(final(v)@),
        bucket_get(final(v)@, k) == if bucket_get(old(v)@, k) - amount >= 0 {
            (bucket_get(old(v)@, k) - amount) as i128
        } else {
            0i128
        },
        forall|k2: u64| k2 != k ==> bucket_get(final(v)@, k2) == bucket_get(old(v)@, k2),
{
    let ghost s0 = v@;
    let mut i: usize = 0;
    while i < v.len()
        invariant
            0 <= i <= v@.len(),
            v@ == s0,
            s0 == old(v)@,
            bucket_keys_unique(s0),
            bucket_nonneg(s0),
            amount >= 0,
            forall|j: int| 0 <= j < i ==> s0[j].0 != k,
        decreases v@.len() - i,
    {
        if v[i].0 == k {
            proof {
                lemma_bucket_get_at(s0, k, i as int);
            }
            let cur = v[i].1;
            let reduced: i128 = if cur >= amount {
                cur - amount
            } else {
                0
            };
            v[i] = (k, reduced);
            proof {
                lemma_bucket_get_at(v@, k, i as int);
                lemma_bucket_frame(s0, v@, k);
            }
            return ;
        }
        i = i + 1;
    }
    proof {
        if bucket_has(s0, k) {
            let j = bucket_index(s0, k);
            assert(s0[j].0 != k);
        }
    }
}

/// The lower edge of the sliding window ending at `now`; the window is
/// inclusive on both ends, so a timestamp exactly at the edge still counts
/// and only timestamps below it have aged out.
pub open spec fn window_start(now: u64, window: u64) -> u64 {
    if now >= window {
        (now - window) as u64
    } else {
        0
    }
}

/// The timestamps of a history that are still inside the window (at or
/// after its lower edge), in order.
pub open spec fn pruned_history(h: Seq<u64>, cutoff: u64) -> Seq<u64>
    decreases h.len(),
{
    if h.len() == 0 {
        Seq::empty()
    } else {
        let rest = pruned_history(h.drop_last(), cutoff);
        if h.last() >= cutoff {
            rest.push(h.last())
        } else {
            rest
        }
    }
}

/// Keys of the velocity table occur at most once.
pub open spec fn vel_keys_unique(s: Seq<(u64, Vec<u64>)>) -> bool {
    forall|i: int, j: int| 0 <= i < j < s.len() ==> s[i].0 != s[j].0
}

/// Some row belongs to this signer.
pub open spec fn vel_has(s: Seq<(u64, Vec<u64>)>, who: u64) -> bool {
    exists|i: int| 0 <= i < s.len() && s[i].0 == who
}

/// The index of this signer's row (meaningful only under `vel_has` and
/// `vel_keys_unique`).
pub open spec fn vel_index(s: Seq<(u64, Vec<u64>)>, who: u64) -> int {
    choose|i: int| 0 <= i < s.len() && s[i].0 == who
}

/// This signer's recorded action timestamps; empty if never recorded.
pub open spec fn vel_history(s: Seq<(u64, Vec<u64>)>, who: u64) -> Seq<u64> {
    if vel_has(s, who) {
        s[vel_index(s, who)].1@
    } else {
        Seq::empty()
    }
}

/// A row with this key at this index determines the history.
proof fn lemma_vel_history_at(s: Seq<(u64, Vec<u64>)>, who: u64, i: int)
    requires
        vel_keys_unique(s),
        0 <= i < s.len(),
        s[i].0 == who,
    ensures
        vel_has(s, who),
        vel_index(s, who) == i,
        vel_history(s, who) == s[i].1@,
{
    assert(vel_has(s, who));
    let j = vel_index(s, who);
    assert(0 <= j < s.len() && s[j].0 == who);
    if i != j {
        assert(s[i].0 == s[j].0);
        assert(false);
    }
}

/// Finds the index of this signer's row, if one exists.
fn vel_find(table: &Vec<(u64, Vec<u64>)>, who: u64) -> (r: Option<usize>)
    ensures
        match r {
            Some(i) => i < table@.len() && table@[i as int].0 == who,
            None => forall|j: int| 0 <= j < table@.len() ==> table@[j].0 != who,
        },
{
    let mut i: usize = 0;
    while i < table.len()
        invariant
            0 <= i <= table@.len(),
            forall|j: int| 0 <= j < i ==> table@[j].0 != who,
        decreases table@.len() - i,
    {
        if table[i].0 == who {
            return Some(i);
        }
        i = i + 1;
    }
    None
}

/// Read-only form of the velocity gate: reports whether the signer still
/// has room in the window, writing nothing.
pub fn velocity_admits(
    table: &Vec<(u64, Vec<u64>)>,
    who: u64,
    cfg: &VelocityConfig,
    now: u64,
) -> (ok: bool)
    requires
        vel_keys_unique(table@),
    ensures
        ok == (pruned_history(vel_history(table@, who), window_start(now, cfg.window)).len()
            < cfg.limit),
{
    let cutoff: u64 = if now >= cfg.window {
        now - cfg.window
    } else {
        0
    };
    let row = vel_find(table, who);
    let ghost h0 = vel_history(table@, who);
    match row {
        None => {
            proof {
                if vel_has(table@, who) {
                    let j = vel_index(table@, who);
                    assert(table@[j].0 != who);
                }
                assert(h0.take(0) =~= h0);
            }
            0 < cfg.limit
        },
        Some(i) => {
            proof {
                lemma_vel_history_at(table@, who, i as int);
            }
            let n = table[i].1.len();
            let mut count: usize = 0;
            let mut j: usize = 0;
            while j < n
                invariant
                    0 <= j <= n,
                    i < table@.len(),
                    n == table@[i as int].1@.len(),
                    h0 == table@[i as int].1@,
                    count <= j,
                    count == pruned_history(h0.take(j as int), cutoff).len(),
                decreases n - j,
            {
                let t = table[i].1[j];
                proof {
                    assert(h0.take(j + 1).drop_last() =~= h0.take(j as int));
                    assert(h0.take(j + 1).last() == h0[j as int]);
                }
                if t >= cutoff {
                    count = count + 1;
                }
                j = j + 1;
            }
            proof {
                assert(h0.take(n as int) =~= h0);
            }
            (count as u64) < cfg.limit as u64
        },
    }
}

/// The sliding-window velocity gate.
///
/// Counts the signer's actions still inside the inclusive window
/// `[now - window, now]`. If the
/// count has already reached the limit, refuses and changes nothing.
/// Otherwise prunes the aged-out timestamps, appends `now`, and admits the
/// action. Other signers' histories are never touched.
pub fn check_and_update_velocity(
    table: &mut Vec<(u64, Vec<u64>)>,
    who: u64,
    cfg: &VelocityConfig,
    now: u64,
) -> (ok: bool)
    requires
        vel_keys_unique(old(table)@),
    ensures
        vel_keys_unique(final(table)@),
        ok == (pruned_history(vel_history(old(table)@, who), window_start(now, cfg.window)).len()
            < cfg.limit),
        !ok ==> final(table)@ == old(table)@,
        ok ==> vel_history(final(table)@, who) == pruned_history(
            vel_history(old(table)@, who),
            window_start(now, cfg.window),
        ).push(now),
        ok ==> forall|w2: u64|
            w2 != who ==> vel_history(final(table)@, w2) == vel_history(old(table)@, w2),
{
    let cutoff: u64 = if now >= cfg.window {
        now - cfg.window
    } else {
        0
    };
    let ghost s0 = table@;

    // Find this signer's row.
    let row = vel_find(table, who);
    let found: bool = row.is_some();
    let i: usize = match row {
        Some(ix) => ix,
        None => 0,
    };

    let ghost h0 = vel_history(s0, who);
    proof {
        if found {
            lemma_vel_history_at(s0, who, i as int);
        } else if vel_has(s0, who) {
            let j = vel_index(s0, who);
            assert(s0[j].0 != who);
        }
    }

    // Prune the history to the window.
    let mut kept: Vec<u64> = Vec::new();
    if found {
        let n = table[i].1.len();
        let mut j: usize = 0;
        while j < n
            invariant
                0 <= j <= n,
                table@ == s0,
                found,
                i < s0.len(),
                n == s0[i as int].1@.len(),
                h0 == s0[i as int].1@,
                kept@ == pruned_history(h0.take(j as int), cutoff),
            decreases n - j,
        {
            let t = table[i].1[j];
            proof {
                assert(h0.take(j + 1).drop_last() =~= h0.take(j as int));
                assert(h0.take(j + 1).last() == h0[j as int]);
            }
            if t >= cutoff {
                kept.push(t);
            }
            j = j + 1;
        }
        proof {
            assert(h0.take(n as int) =~= h0);
        }
    } else {
        proof {
            assert(h0.take(0) =~= h0);
        }
    }

    let ghost pruned = pruned_history(h0, cutoff);
    assert(kept@ == pruned);

    if kept.len() >= cfg.limit as usize {
        return false;
    }

    kept.push(now);
    if found {
        table[i] = (who, kept);
        proof {
            lemma_vel_history_at(table@, who, i as int);
            assert forall|w2: u64| w2 != who implies vel_history(table@, w2) == vel_history(
                s0,
                w2,
            ) by {
                if vel_has(s0, w2) {
                    let j = vel_index(s0, w2);
                    assert(table@[j].0 == w2);
                    lemma_vel_history_at(table@, w2, j);
                    assert(table@[j].1@ == s0[j].1@);
                } else {
                    if vel_has(table@, w2) {
                        let j = vel_index(table@, w2);
                        assert(s0[j].0 == w2);
                    }
                }
            }
        }
    } else {
        table.push((who, kept));
        proof {
            assert(vel_keys_unique(table@));
            lemma_vel_history_at(table@, who, s0.len() as int);
            assert forall|w2: u64| w2 != who implies vel_history(table@, w2) == vel_history(
                s0,
                w2,
            ) by {
                if vel_has(s0, w2) {
                    let j = vel_index(s0, w2);
                    assert(table@[j].0 == w2);
                    lemma_vel_history_at(table@, w2, j);
                } else {
                    if vel_has(table@, w2) {
                        let j = vel_index(table@, w2);
                        assert(0 <= j < table@.len() && table@[j].0 == w2);
                        assert(j < s0.len());
                        assert(s0[j].0 == w2);
                    }
                }
            }
        }
    }
    true
}

} // verus!
