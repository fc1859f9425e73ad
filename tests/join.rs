use swarm_dispatch::join::{Join, Next};

#[test]
fn example() {
    let words: Vec<&str> = vec!["hello", "i'm", "testing"];
    let separators: Vec<&str> = std::iter::repeat(" ").take(words.len()).collect();
    let mut join = Join::new(words, separators);
    let words: String = join.collect_all().concat();
    assert_eq!(words, "hello i'm testing");
}

#[test]
fn join_stops_when_separators_run_out() {
    let mut join = Join::new(vec![1, 2, 3], vec![0]);
    assert_eq!(join.collect_all(), vec![1, 0, 2]);
}

#[test]
fn join_step_by_step() {
    let mut join = Join::new(vec!["a", "b"], vec!["-", "-", "-"]);
    assert_eq!(join.next(), Some("a"));
    assert_eq!(join.next(), Some("-"));
    assert_eq!(join.next(), Some("b"));
    assert_eq!(join.next(), None);
    assert_eq!(join.next(), None);
}

#[test]
fn next_flips() {
    let mut n = Next::A;
    n.flip();
    assert_eq!(n, Next::B);
    n.flip();
    assert_eq!(n, Next::A);
}
