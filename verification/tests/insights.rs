use why::{build_insights, TimeShares};

fn shares(file: u64, network: u64, process: u64, wait: u64) -> Option<TimeShares> {
    Some(TimeShares { file, network, process, wait })
}

#[test]
fn no_traced_time() {
    assert_eq!(build_insights(100, 5, 5, 1, None), vec!["Not enough traced time data yet."]);
}

#[test]
fn mostly_waiting_like_sleep() {
    assert_eq!(
        build_insights(3, 0, 1, 1, shares(1, 0, 0, 99)),
        vec![
            "This command spent most of its traced time waiting.",
            "This looks a lot like sleep or one big blocking wait.",
        ]
    );
}

#[test]
fn every_rule_at_its_threshold() {
    assert_eq!(
        build_insights(100, 1, 5, 1, shares(40, 20, 20, 80)),
        vec![
            "This command spent most of its traced time waiting.",
            "This command looked file-heavy.",
            "Noticeable network activity was detected.",
            "A meaningful chunk of time went into process-related work.",
            "This command spawned or waited on many processes.",
            "A lot of the waiting may be network-related.",
            "This command touched a lot of files or file metadata.",
            "This looks a lot like sleep or one big blocking wait.",
        ]
    );
}

#[test]
fn just_below_every_threshold() {
    assert!(build_insights(99, 0, 4, 2, shares(39, 19, 19, 39)).is_empty());
}

#[test]
fn network_waiting_needs_a_network_call() {
    assert_eq!(
        build_insights(0, 1, 0, 0, shares(0, 0, 0, 40)),
        vec!["A lot of the waiting may be network-related."]
    );
    assert!(build_insights(0, 0, 0, 0, shares(0, 0, 0, 40)).is_empty());
}
