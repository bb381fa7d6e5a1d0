use challenger::config::{CPUChallengeConfiguration, NetworkChallengeConfiguration};
use challenger::score::{calculate_score, find_mean};
use challenger::session::ClientChallenger;

fn configs() -> (CPUChallengeConfiguration, NetworkChallengeConfiguration) {
    (
        CPUChallengeConfiguration {
            squarings: 0,
            ideal_milliseconds: 100,
            max_milliseconds: 1100,
        },
        NetworkChallengeConfiguration {
            data_size_kb: 0,
            ideal_milliseconds: 200,
            max_milliseconds: 2200,
        },
    )
}

#[test]
fn test_score_calculation() {
    let cpu_challenge_config = CPUChallengeConfiguration {
        squarings: 0,
        ideal_milliseconds: 100,
        max_milliseconds: 1100,
    };

    let network_challenge_config = NetworkChallengeConfiguration {
        data_size_kb: 0,
        ideal_milliseconds: 200,
        max_milliseconds: 2200,
    };

    let cpu_results: Vec<u128> = vec![200, 300, 200, 500];
    let network_results: Vec<u128> = vec![300, 400, 300, 600];

    let score = calculate_score(
        &cpu_challenge_config,
        &cpu_results,
        &network_challenge_config,
        &network_results,
    );
    assert_eq!(score, 100 - (10 + 5));
}

#[test]
fn test_score_calculation_edge_cases() {
    let cpu_challenge_config = CPUChallengeConfiguration {
        squarings: 0,
        ideal_milliseconds: 100,
        max_milliseconds: 1100,
    };

    let network_challenge_config = NetworkChallengeConfiguration {
        data_size_kb: 0,
        ideal_milliseconds: 200,
        max_milliseconds: 2200,
    };

    // 1200 is over max_milliseconds, so the client is rejected.
    let cpu_results: Vec<u128> = vec![1200, 300, 200, 500];
    let network_results: Vec<u128> = vec![300, 400, 300, 600];

    let score = calculate_score(
        &cpu_challenge_config,
        &cpu_results,
        &network_challenge_config,
        &network_results,
    );
    assert_eq!(score, 0);

    // The CPU mean is under ideal_milliseconds: no CPU penalty.
    let cpu_results: Vec<u128> = vec![1, 2, 3, 4];
    let network_results: Vec<u128> = vec![300, 400, 300, 600];

    let score = calculate_score(
        &cpu_challenge_config,
        &cpu_results,
        &network_challenge_config,
        &network_results,
    );
    assert_eq!(score, 100 - (0 + 5));
}

#[test]
fn score_at_max_on_both_axes_is_zero() {
    let (cpu, net) = configs();
    let score = calculate_score(&cpu, &vec![1100; 4], &net, &vec![2200; 4]);
    assert_eq!(score, 0);
}

#[test]
fn score_at_ideal_is_full() {
    let (cpu, net) = configs();
    let score = calculate_score(&cpu, &vec![100; 4], &net, &vec![200; 4]);
    assert_eq!(score, 100);
}

#[test]
fn score_network_rejection() {
    let (cpu, net) = configs();
    let score = calculate_score(&cpu, &vec![100; 4], &net, &vec![200, 2201]);
    assert_eq!(score, 0);
}

#[test]
fn score_max_on_one_axis_is_fifty() {
    let (cpu, net) = configs();
    let score = calculate_score(&cpu, &vec![1100; 3], &net, &vec![200; 2]);
    assert_eq!(score, 50);
}

#[test]
fn score_truncates_penalty() {
    let (cpu, net) = configs();
    // cpu mean 129: (29 * 50) / 1000 = 1
    let score = calculate_score(&cpu, &vec![129], &net, &vec![200]);
    assert_eq!(score, 99);
}

#[test]
fn mean_rounds_down() {
    assert_eq!(find_mean(&vec![1, 2, 3, 4]), 2);
    assert_eq!(find_mean(&vec![200, 300, 200, 500]), 300);
    assert_eq!(find_mean(&vec![7]), 7);
}

#[test]
fn standard_challenger_scores() {
    let c = ClientChallenger::standard();
    assert_eq!(c.number_of_cpu_challenge, 5);
    assert_eq!(c.number_of_network_challenge, 10);
    assert_eq!(c.cpu_challenge_config.squarings, 200000);
    // cpu mean 62250: (57750 * 50) / 115500 = 25; network at ideal
    let score = c.determine_score(&vec![62250; 5], &vec![200; 10]);
    assert_eq!(score, 75);
}

#[test]
fn score_with_ideal_equal_to_max() {
    let cpu = CPUChallengeConfiguration {
        squarings: 0,
        ideal_milliseconds: 100,
        max_milliseconds: 100,
    };
    let (_, net) = configs();
    assert_eq!(calculate_score(&cpu, &vec![100; 2], &net, &vec![200; 2]), 100);
    assert_eq!(calculate_score(&cpu, &vec![101; 2], &net, &vec![200; 2]), 0);
}
