use druid_io::connection::{
    get_and_increment, next_index, served, BrokersPool, SelectionStategy, StaticPool,
};
use std::sync::atomic::AtomicUsize;
use std::sync::atomic::Ordering;
use std::sync::Arc;

fn nodes() -> Vec<String> {
    vec![
        "localhost:8081".to_string(),
        "localhost:80".to_string(),
        "example.com:8080".to_string(),
    ]
}

#[test]
fn it_works() {
    assert_eq!(2 + 2, 4);
}

#[test]
fn test_round_robin_selection() {
    let nodes = vec![
        "localhost:8081".to_string(),
        "localhost:80".to_string(),
        "example.com:8080".to_string(),
    ];

    let strategy = SelectionStategy::default_for(&nodes);
    assert_eq!(strategy.select(&nodes), "localhost:8081");
    assert_eq!(strategy.select(&nodes), "localhost:80");
    assert_eq!(strategy.select(&nodes), "example.com:8080");
    assert_eq!(strategy.select(&nodes), "localhost:8081");
    assert_eq!(strategy.select(&nodes), "localhost:80");
    assert_eq!(strategy.select(&nodes), "example.com:8080");
}

#[test]
fn test_constaint() {
    let nodes = vec![
        "localhost:8081".to_string(),
        "localhost:80".to_string(),
        "example.com:8080".to_string(),
    ];

    let strategy = SelectionStategy::constant();
    assert_eq!(strategy.select(&nodes), "localhost:8081");
    assert_eq!(strategy.select(&nodes), "localhost:8081");
    assert_eq!(strategy.select(&nodes), "localhost:8081");
}

#[test]
fn served_index_is_the_counter_until_it_runs_past_the_list() {
    assert_eq!(served(0, 3), 0);
    assert_eq!(served(2, 3), 2);
    assert_eq!(served(3, 3), 0);
    assert_eq!(served(7, 3), 0);
    assert_eq!(served(0, 0), 0);
}

#[test]
fn next_index_counts_up_and_starts_again_at_one() {
    assert_eq!(next_index(0, 3), 1);
    assert_eq!(next_index(2, 3), 3);
    assert_eq!(next_index(3, 3), 1);
    assert_eq!(next_index(9, 3), 1);
    assert_eq!(next_index(0, 1), 1);
    assert_eq!(next_index(1, 1), 1);
}

#[test]
fn get_and_increment_moves_the_counter() {
    let counter = AtomicUsize::new(0);
    assert_eq!(get_and_increment(&counter, 2), 0);
    assert_eq!(counter.load(Ordering::SeqCst), 1);
    assert_eq!(get_and_increment(&counter, 2), 1);
    assert_eq!(counter.load(Ordering::SeqCst), 2);
    assert_eq!(get_and_increment(&counter, 2), 0);
    assert_eq!(counter.load(Ordering::SeqCst), 1);
}

#[test]
fn round_robin_serves_each_of_n_once_and_then_the_first_again() {
    let nodes = nodes();
    let strategy = SelectionStategy::round_robin();
    let mut seen: Vec<String> = Vec::new();
    for _ in 0..nodes.len() {
        seen.push(strategy.select(&nodes).clone());
    }
    assert_eq!(seen, nodes);
    assert_eq!(strategy.select(&nodes), &nodes[0]);
}

#[test]
fn round_robin_follows_the_remainder_of_the_call_number() {
    for n in 1..6usize {
        let list: Vec<usize> = (0..n).collect();
        let strategy = SelectionStategy::round_robin();
        for call in 0..(4 * n + 3) {
            assert_eq!(*strategy.select(&list), call % n);
        }
    }
}

#[test]
fn one_endpoint_is_always_returned() {
    let nodes = vec!["localhost:8082".to_string()];
    let strategy = SelectionStategy::default_for(&nodes);
    assert!(matches!(strategy, SelectionStategy::Constant));
    for _ in 0..10 {
        assert_eq!(strategy.select(&nodes), "localhost:8082");
    }
    let round = SelectionStategy::round_robin();
    for _ in 0..10 {
        assert_eq!(round.select(&nodes), "localhost:8082");
    }
}

#[test]
fn default_strategy_is_round_robin_for_more_than_one() {
    assert!(matches!(
        SelectionStategy::default_for(&nodes()),
        SelectionStategy::RoundRobin(_)
    ));
    let none: Vec<String> = Vec::new();
    assert!(matches!(
        SelectionStategy::default_for(&none),
        SelectionStategy::RoundRobin(_)
    ));
}

#[test]
fn shared_counter_is_shared() {
    let counter = Arc::new(AtomicUsize::new(0));
    let a = SelectionStategy::RoundRobin(counter.clone());
    let b = SelectionStategy::RoundRobin(counter);
    let nodes = nodes();
    assert_eq!(a.select(&nodes), "localhost:8081");
    assert_eq!(b.select(&nodes), "localhost:80");
    assert_eq!(a.select(&nodes), "example.com:8080");
    assert_eq!(b.select(&nodes), "localhost:8081");
}

#[test]
fn static_pool_goes_through_its_brokers() {
    let pool = StaticPool::new(nodes(), SelectionStategy::round_robin());
    assert_eq!(pool.broker(), "localhost:8081");
    assert_eq!(pool.broker(), "localhost:80");
    assert_eq!(pool.broker(), "example.com:8080");
    assert_eq!(pool.broker(), "localhost:8081");
    let fixed = StaticPool::new(nodes(), SelectionStategy::constant());
    assert_eq!(fixed.broker(), "localhost:8081");
    assert_eq!(fixed.broker(), "localhost:8081");
}
