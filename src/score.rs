use vstd::prelude::*;

use crate::config::{CPUChallengeConfiguration, NetworkChallengeConfiguration};

verus! {

/// Sum of a sequence of timings.
pub open spec fn seq_sum(s: Seq<u128>) -> int
    decreases s.len(),
{
    if s.len() == 0 {
        0
    } else {
        seq_sum(s.drop_last()) + s.last()
    }
}

/// Arithmetic mean of a non-empty sequence, rounded down.
pub open spec fn seq_mean(s: Seq<u128>) -> int {
    seq_sum(s) / (s.len() as int)
}

/// Every timing of `s` is at most `max`.
pub open spec fn all_within(s: Seq<u128>, max: int) -> bool {
    forall|i: int| 0 <= i < s.len() ==> s[i] <= max
}

/// Penalty on one axis, from 0 (at or under `ideal`) to 50 (at `max`).
pub open spec fn partial_score(mean: int, ideal: int, max: int) -> int {
    if mean <= ideal {
        0
    } else {
        ((mean - ideal) * 50) / (max - ideal)
    }
}

/// The score of a session: 0 when a timing exceeds its bound, else 100 less
/// both penalties.
pub open spec fn score_of(
    cpu_ideal: int,
    cpu_max: int,
    cpu: Seq<u128>,
    net_ideal: int,
    net_max: int,
    net: Seq<u128>,
) -> int {
    if !all_within(cpu, cpu_max) || !all_within(net, net_max) {
        0
    } else {
        100 - (partial_score(seq_mean(cpu), cpu_ideal, cpu_max) + partial_score(
            seq_mean(net),
            net_ideal,
            net_max,
        ))
    }
}

proof fn lemma_sum_bounded(s: Seq<u128>, max: int)
    requires
        all_within(s, max),
    ensures
        0 <= seq_sum(s) <= s.len() * max,
    decreases s.len(),
{
    if s.len() > 0 {
        lemma_sum_bounded(s.drop_last(), max);
        assert(s.len() * max == (s.len() - 1) * max + max) by (nonlinear_arith);
    }
}

proof fn lemma_mean_bounded(s: Seq<u128>, max: int)
    requires
        s.len() > 0,
        all_within(s, max),
    ensures
        0 <= seq_mean(s) <= max,
{
    lemma_sum_bounded(s, max);
    let n = s.len() as int;
    let t = seq_sum(s);
    assert(t / n <= max) by (nonlinear_arith)
        requires
            0 <= t <= n * max,
            n > 0,
    ;
    assert(t / n >= 0) by (nonlinear_arith)
        requires
            0 <= t,
            n > 0,
    ;
}

proof fn lemma_partial_bounded(mean: int, ideal: int, max: int)
    requires
        0 <= mean <= max,
    ensures
        0 <= partial_score(mean, ideal, max) <= 50,
{
    if mean > ideal {
        let d = mean - ideal;
        let w = max - ideal;
        assert(0 <= (d * 50) / w <= 50) by (nonlinear_arith)
            requires
                0 < d <= w,
        ;
    }
}

proof fn lemma_sum_constant(s: Seq<u128>, v: int)
    requires
        forall|i: int| 0 <= i < s.len() ==> s[i] == v,
    ensures
        seq_sum(s) == s.len() * v,
    decreases s.len(),
{
    if s.len() > 0 {
        lemma_sum_constant(s.drop_last(), v);
        assert(s.len() * v == (s.len() - 1) * v + v) by (nonlinear_arith);
    }
}

proof fn lemma_mean_constant(s: Seq<u128>, v: int)
    requires
        s.len() > 0,
        forall|i: int| 0 <= i < s.len() ==> s[i] == v,
    ensures
        seq_mean(s) == v,
{
    lemma_sum_constant(s, v);
    let n = s.len() as int;
    assert((n * v) / n == v) by (nonlinear_arith)
        requires
            n > 0,
    ;
}

/// When every timing of both axes equals its ideal, and no ideal is above
/// its maximum, the score is 100.
pub proof fn lemma_ideal_timings_score_full(
    cpu_ideal: int,
    cpu_max: int,
    cpu: Seq<u128>,
    net_ideal: int,
    net_max: int,
    net: Seq<u128>,
)
    requires
        cpu.len() > 0,
        net.len() > 0,
        cpu_ideal <= cpu_max,
        net_ideal <= net_max,
        forall|i: int| 0 <= i < cpu.len() ==> cpu[i] == cpu_ideal,
        forall|i: int| 0 <= i < net.len() ==> net[i] == net_ideal,
    ensures
        score_of(cpu_ideal, cpu_max, cpu, net_ideal, net_max, net) == 100,
{
    lemma_mean_constant(cpu, cpu_ideal);
    lemma_mean_constant(net, net_ideal);
}

/// When every timing of both axes equals its maximum, each axis loses all
/// 50 points and the score is 0.
pub proof fn lemma_max_timings_score_zero(
    cpu_ideal: int,
    cpu_max: int,
    cpu: Seq<u128>,
    net_ideal: int,
    net_max: int,
    net: Seq<u128>,
)
    requires
        cpu.len() > 0,
        net.len() > 0,
        cpu_ideal < cpu_max,
        net_ideal < net_max,
        forall|i: int| 0 <= i < cpu.len() ==> cpu[i] == cpu_max,
        forall|i: int| 0 <= i < net.len() ==> net[i] == net_max,
    ensures
        score_of(cpu_ideal, cpu_max, cpu, net_ideal, net_max, net) == 0,
{
    lemma_mean_constant(cpu, cpu_max);
    lemma_mean_constant(net, net_max);
    let wc = cpu_max - cpu_ideal;
    let wn = net_max - net_ideal;
    assert((wc * 50) / wc == 50) by (nonlinear_arith)
        requires
            wc > 0,
    ;
    assert((wn * 50) / wn == 50) by (nonlinear_arith)
        requires
            wn > 0,
    ;
}

/// Arithmetic mean of the timings, rounded down.
pub fn find_mean(data: &Vec<u128>) -> (r: u128)
    requires
        data@.len() > 0,
        seq_sum(data@) <= u128::MAX,
    ensures
        r == seq_mean(data@),
{
    let mut sum: u128 = 0;
    let mut i: usize = 0;
    while i < data.len()
        invariant
            0 <= i <= data@.len(),
            sum == seq_sum(data@.take(i as int)),
            seq_sum(data@) <= u128::MAX,
        decreases data@.len() - i,
    {
        proof {
            lemma_prefix_sum_monotone(data@, i as int + 1);
            assert(data@.take(i as int + 1).drop_last() =~= data@.take(i as int));
        }
        sum = sum + data[i];
        i = i + 1;
    }
    assert(data@.take(data@.len() as int) =~= data@);
    sum / (data.len() as u128)
}

proof fn lemma_prefix_sum_monotone(s: Seq<u128>, k: int)
    requires
        0 <= k <= s.len(),
    ensures
        0 <= seq_sum(s.take(k)) <= seq_sum(s),
    decreases s.len(),
{
    if s.len() > 0 {
        if k == s.len() {
            assert(s.take(k) =~= s);
            lemma_sum_nonneg(s);
        } else {
            assert(s.drop_last().take(k) =~= s.take(k));
            lemma_prefix_sum_monotone(s.drop_last(), k);
        }
    }
}

proof fn lemma_sum_nonneg(s: Seq<u128>)
    ensures
        seq_sum(s) >= 0,
    decreases s.len(),
{
    if s.len() > 0 {
        lemma_sum_nonneg(s.drop_last());
    }
}

fn within(data: &Vec<u128>, max: u128) -> (r: bool)
    ensures
        r == all_within(data@, max as int),
{
    let mut i: usize = 0;
    while i < data.len()
        invariant
            0 <= i <= data@.len(),
            all_within(data@.take(i as int), max as int),
        decreases data@.len() - i,
    {
        if data[i] > max {
            return false;
        }
        assert(forall|j: int| 0 <= j < i + 1 ==> data@.take(i as int + 1)[j] == data@[j]);
        i = i + 1;
    }
    assert(data@.take(data@.len() as int) =~= data@);
    true
}

/// Reduces the two timing vectors to a score from 0 to 100.
///
/// A timing above its configured maximum rejects the client with 0. Otherwise
/// each axis loses `(mean - ideal) * 50 / (max - ideal)` points when its mean
/// is over the ideal, and nothing when it is not.
pub fn calculate_score(
    cpu_challenge_config: &CPUChallengeConfiguration,
    cpu_results: &Vec<u128>,
    network_challenge_config: &NetworkChallengeConfiguration,
    network_results: &Vec<u128>,
) -> (r: u128)
    requires
        cpu_results@.len() > 0,
        network_results@.len() > 0,
        seq_sum(cpu_results@) <= u128::MAX,
        seq_sum(network_results@) <= u128::MAX,
        cpu_challenge_config.max_milliseconds * 50 <= u128::MAX,
        network_challenge_config.max_milliseconds * 50 <= u128::MAX,
    ensures
        r == score_of(
            cpu_challenge_config.ideal_milliseconds as int,
            cpu_challenge_config.max_milliseconds as int,
            cpu_results@,
            network_challenge_config.ideal_milliseconds as int,
            network_challenge_config.max_milliseconds as int,
            network_results@,
        ),
        r <= 100,
{
    // a single timing over the bound rejects the client
    if !within(cpu_results, cpu_challenge_config.max_milliseconds) {
        return 0;
    }
    if !within(network_results, network_challenge_config.max_milliseconds) {
        return 0;
    }
    let cpu_mean = find_mean(cpu_results);
    let network_mean = find_mean(network_results);
    proof {
        lemma_mean_bounded(cpu_results@, cpu_challenge_config.max_milliseconds as int);
        lemma_mean_bounded(network_results@, network_challenge_config.max_milliseconds as int);
    }
    let cpu_score = axis_penalty(
        cpu_mean,
        cpu_challenge_config.ideal_milliseconds,
        cpu_challenge_config.max_milliseconds,
    );
    let network_score = axis_penalty(
        network_mean,
        network_challenge_config.ideal_milliseconds,
        network_challenge_config.max_milliseconds,
    );
    100 - (cpu_score + network_score)
}

fn axis_penalty(mean: u128, ideal: u128, max: u128) -> (r: u128)
    requires
        mean <= max,
        max * 50 <= u128::MAX,
    ensures
        r == partial_score(mean as int, ideal as int, max as int),
        r <= 50,
{
    proof {
        lemma_partial_bounded(mean as int, ideal as int, max as int);
    }
    if mean <= ideal {
        0
    } else {
        assert((mean - ideal) * 50 <= max * 50) by (nonlinear_arith)
            requires
                mean <= max,
                ideal < mean,
        ;
        ((mean - ideal) * 50) / (max - ideal)
    }
}

} // verus!
