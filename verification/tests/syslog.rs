use simeis::syslog::{Fifo, SyslogQueues, SYSLOG_FIFO_MAX_SIZE};

#[test]
fn test_syslog_fifo() {
    let mut fifo = Fifo::<usize>::new();

    fifo.push(0);
    assert_eq!(fifo.remove_all(), vec![0]);

    let ntest = SYSLOG_FIFO_MAX_SIZE + 5;
    for n in 0..ntest {
        fifo.push(n);
        assert_eq!(fifo.len(), (n + 1).min(SYSLOG_FIFO_MAX_SIZE), "iter {}", n);
    }

    for n in 0..ntest {
        let got = fifo.pop();
        assert_eq!(
            fifo.len(),
            SYSLOG_FIFO_MAX_SIZE.saturating_sub(n + 1),
            "iter {}",
            n
        );

        if n < SYSLOG_FIFO_MAX_SIZE {
            assert_eq!(got, Some((ntest + n) - SYSLOG_FIFO_MAX_SIZE), "iter {}", n);
        } else {
            assert_eq!(got, None, "iter {}", n);
        }
    }

    for n in 0..(2 * ntest) {
        fifo.push(n);
        assert_eq!(fifo.len(), (n + 1).min(SYSLOG_FIFO_MAX_SIZE), "iter {}", n);
    }

    fifo.push(usize::MAX);
    let all = fifo.remove_all();
    assert_eq!(all.len(), SYSLOG_FIFO_MAX_SIZE);
    assert_eq!(
        all.first(),
        Some(&(((2 * ntest) + 1) - SYSLOG_FIFO_MAX_SIZE))
    );
    assert_eq!(all.last(), Some(&usize::MAX));
}

#[test]
fn fifo_keeps_the_latest_values_in_push_order() {
    let mut fifo = Fifo::<u32>::new();
    for n in 0..25u32 {
        fifo.push(n);
    }
    assert_eq!(fifo.len(), SYSLOG_FIFO_MAX_SIZE);
    assert_eq!(fifo.remove_all(), (15..25u32).collect::<Vec<u32>>());
    assert_eq!(fifo.len(), 0);
    assert_eq!(fifo.pop(), None);
}

#[test]
fn fifo_pop_on_empty_queue_gives_nothing() {
    let mut fifo = Fifo::<u8>::new();
    assert_eq!(fifo.pop(), None);
    fifo.push(7);
    fifo.push(8);
    assert_eq!(fifo.pop(), Some(7));
    assert_eq!(fifo.pop(), Some(8));
    assert_eq!(fifo.pop(), None);
}

#[test]
fn syslog_queues_keep_players_apart() {
    let mut queues = SyslogQueues::<u32>::new();
    queues.add(1, 10);
    queues.add(2, 20);
    queues.add(1, 11);
    assert_eq!(queues.remove_all(1), vec![10, 11]);
    assert_eq!(queues.remove_all(1), Vec::<u32>::new());
    assert_eq!(queues.remove_all(2), vec![20]);
    assert_eq!(queues.remove_all(3), Vec::<u32>::new());
}

#[test]
fn syslog_queue_of_a_player_is_bounded() {
    let mut queues = SyslogQueues::<usize>::new();
    for n in 0..(SYSLOG_FIFO_MAX_SIZE + 3) {
        queues.add(5, n);
    }
    let got = queues.remove_all(5);
    assert_eq!(got.len(), SYSLOG_FIFO_MAX_SIZE);
    assert_eq!(got.first(), Some(&3));
    assert_eq!(got.last(), Some(&(SYSLOG_FIFO_MAX_SIZE + 2)));
}

#[test]
fn new_fifo_holds_nothing() {
    let mut fifo = Fifo::<u8>::new();
    assert_eq!(fifo.len(), 0);
    assert_eq!(fifo.pop(), None);
    assert_eq!(fifo.remove_all(), Vec::<u8>::new());
}
