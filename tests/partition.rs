use batch_get::partition::{compute_shares, worker_share};

#[test]
fn ten_over_three_gives_extra_to_lowest() {
    assert_eq!(compute_shares(10, 3), vec![4, 3, 3]);
}

#[test]
fn one_request_one_worker() {
    assert_eq!(compute_shares(1, 1), vec![1]);
}

#[test]
fn fewer_requests_than_workers() {
    assert_eq!(compute_shares(2, 5), vec![1, 1, 0, 0, 0]);
}

#[test]
fn even_split_has_no_extra() {
    assert_eq!(compute_shares(12, 4), vec![3, 3, 3, 3]);
}

#[test]
fn default_batch_split() {
    let s = compute_shares(100, 4);
    assert_eq!(s, vec![25, 25, 25, 25]);
}

#[test]
fn shares_sum_and_balance_on_many_inputs() {
    for total in 1..60usize {
        for workers in 1..12usize {
            let s = compute_shares(total, workers);
            assert_eq!(s.len(), workers);
            assert_eq!(s.iter().sum::<usize>(), total);
            let max = *s.iter().max().unwrap();
            let min = *s.iter().min().unwrap();
            assert!(max - min <= 1);
            let extra = s.iter().filter(|&&x| x == total / workers + 1).count();
            assert_eq!(extra, total % workers);
            for i in 0..workers {
                assert_eq!(s[i], worker_share(total, workers, i));
                if i < total % workers {
                    assert_eq!(s[i], total / workers + 1);
                } else {
                    assert_eq!(s[i], total / workers);
                }
            }
        }
    }
}

#[test]
fn largest_total_does_not_overflow() {
    assert_eq!(worker_share(usize::MAX, 1, 0), usize::MAX);
    assert_eq!(worker_share(usize::MAX, 2, 0), usize::MAX / 2 + 1);
    assert_eq!(worker_share(usize::MAX, 2, 1), usize::MAX / 2);
}
