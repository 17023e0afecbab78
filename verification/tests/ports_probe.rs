use surface_scan::ports::{get_ports, ProbeEngine};

#[test]
fn common_list_starts_and_sizes() {
    let mut seq = get_ports(false);
    assert_eq!(seq.next(), Some(443));
    assert_eq!(seq.next(), Some(6001));
    assert_eq!(seq.next(), Some(5601));
    let mut count = 3;
    while seq.next().is_some() {
        count += 1;
    }
    assert_eq!(count, 130);
}

#[test]
fn full_range_is_lazy_and_complete() {
    let mut seq = get_ports(true);
    assert_eq!(seq.next(), Some(1));
    assert_eq!(seq.next(), Some(2));
    let mut last = 2u16;
    let mut count: u32 = 2;
    while let Some(p) = seq.next() {
        last = p;
        count += 1;
    }
    assert_eq!(last, 65535);
    assert_eq!(count, 65535);
}

#[test]
fn probe_bound_and_arrival_order() {
    let (mut eng, batch) = ProbeEngine::start(false, 3);
    assert_eq!(batch, vec![443, 6001, 5601]);
    assert_eq!(eng.in_flight, 3);

    let next = eng.on_result(6001, true);
    assert_eq!(next, vec![9300]);
    assert_eq!(eng.in_flight, 3);

    let next = eng.on_result(443, false);
    assert_eq!(next, vec![80]);

    let next = eng.on_result(80, true);
    assert_eq!(next, vec![23]);

    // results arrive in completion order, not numeric order
    assert_eq!(eng.open_ports, vec![6001, 80]);
}

#[test]
fn closed_port_is_absent_and_stays_absent() {
    let (mut eng, batch) = ProbeEngine::start(false, 2);
    assert_eq!(batch, vec![443, 6001]);
    // the same closed port reported twice: a definitive verdict both times
    eng.on_result(443, false);
    eng.on_result(443, false);
    assert!(!eng.open_ports.contains(&443));
    eng.on_result(22, true);
    assert!(!eng.open_ports.contains(&443));
    assert!(eng.open_ports.contains(&22));
}

#[test]
fn probe_runs_to_completion() {
    let (mut eng, mut pending) = ProbeEngine::start(false, 64);
    let mut done_count = 0u32;
    while !pending.is_empty() {
        let port = pending.remove(0);
        // every even-indexed outcome succeeds, the rest time out
        let open = done_count % 2 == 0;
        let mut more = eng.on_result(port, open);
        pending.append(&mut more);
        done_count += 1;
    }
    assert!(eng.is_done());
    assert_eq!(done_count, 130);
    let open = eng.into_result();
    assert_eq!(open.len(), 65);
}
