use stock_spreadsheet_generator::pacing::Pacer;

#[test]
fn nothing_holds_up_the_first_request() {
    let p = Pacer::new(300);
    assert_eq!(p.last_return, None);
    assert_eq!(p.wait(0), 0);
    assert_eq!(p.wait(123456), 0);
}

#[test]
fn the_wait_is_what_is_missing_of_the_delay() {
    let mut p = Pacer::new(300);
    p.mark_return(1000);
    assert_eq!(p.last_return, Some(1000));
    assert_eq!(p.delay, 300);
    assert_eq!(p.wait(1000), 300);
    assert_eq!(p.wait(1001), 299);
    assert_eq!(p.wait(1100), 200);
    assert_eq!(p.wait(1299), 1);
    assert_eq!(p.wait(1300), 0);
    assert_eq!(p.wait(5000), 0);
}

#[test]
fn a_delay_of_zero_never_waits() {
    let mut p = Pacer::new(0);
    p.mark_return(1000);
    assert_eq!(p.wait(1000), 0);
    assert_eq!(p.wait(0), 0);
}

#[test]
fn a_clock_that_reads_less_waits_the_whole_delay() {
    let mut p = Pacer::new(300);
    p.mark_return(1000);
    assert_eq!(p.wait(900), 300);
}

#[test]
fn the_wait_does_not_overflow_at_the_end_of_the_clock() {
    let mut p = Pacer::new(u64::MAX);
    p.mark_return(u64::MAX);
    assert_eq!(p.wait(u64::MAX), u64::MAX);
    p.mark_return(0);
    assert_eq!(p.wait(u64::MAX), 0);
    assert_eq!(p.wait(1), u64::MAX - 1);
}

#[test]
fn the_second_request_starts_no_earlier_than_the_delay_after_the_first_returned() {
    for delay in [0u64, 1, 50, 300, 10_000] {
        for returned in [0u64, 7, 1000] {
            for later in [0u64, 1, 49, 50, 299, 300, 301, 20_000] {
                let mut p = Pacer::new(delay);
                p.mark_return(returned);
                let now = returned + later;
                let start = now + p.wait(now);
                assert!(start >= returned + delay);
                assert!(start == now || start == returned + delay);
            }
        }
    }
}
