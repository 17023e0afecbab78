use surface_scan::dedup::{remove_duplicates_with_tolerance, ResponseData, Similar};

fn rd(endpoint: &str, len: usize) -> ResponseData {
    ResponseData {
        status_code: "200 OK".to_string(),
        endpoint: endpoint.to_string(),
        body_length: len,
    }
}

#[test]
fn similarity_is_length_distance() {
    assert!(rd("/a", 100).is_similar_to(&rd("/b", 105), 5));
    assert!(rd("/a", 105).is_similar_to(&rd("/b", 100), 5));
    assert!(!rd("/a", 100).is_similar_to(&rd("/b", 106), 5));
    assert!(rd("/a", 7).is_similar_to(&rd("/b", 7), 0));
}

#[test]
fn dedup_first_match_wins() {
    let input = vec![rd("/a", 100), rd("/b", 105), rd("/c", 110)];
    let out = remove_duplicates_with_tolerance(input, 5);
    let endpoints: Vec<&str> = out.iter().map(|r| r.endpoint.as_str()).collect();
    // /b is within 5 of the accepted /a and is dropped; /c is 10 away from
    // /a, the only accepted fingerprint, and survives.
    assert_eq!(endpoints, vec!["/a", "/c"]);
}

#[test]
fn dedup_zero_tolerance_keeps_distinct_lengths() {
    let input = vec![rd("/a", 10), rd("/b", 10), rd("/c", 11)];
    let out = remove_duplicates_with_tolerance(input, 0);
    let lens: Vec<usize> = out.iter().map(|r| r.body_length).collect();
    assert_eq!(lens, vec![10, 11]);
}

#[test]
fn dedup_arrival_order_picks_representative() {
    let a = vec![rd("/x", 100), rd("/y", 104)];
    let b = vec![rd("/y", 104), rd("/x", 100)];
    let out_a = remove_duplicates_with_tolerance(a, 5);
    let out_b = remove_duplicates_with_tolerance(b, 5);
    assert_eq!(out_a[0].endpoint, "/x");
    assert_eq!(out_b[0].endpoint, "/y");
    assert_eq!(out_a.len(), 1);
    assert_eq!(out_b.len(), 1);
}

#[test]
fn dedup_empty_input() {
    let out = remove_duplicates_with_tolerance(Vec::<ResponseData>::new(), 3);
    assert!(out.is_empty());
}

#[test]
fn tolerance_monotonicity_on_sorted_arrivals() {
    // Lengths arriving in non-decreasing order: a looser tolerance never
    // keeps more fingerprints.
    let lens: Vec<usize> = vec![0, 3, 5, 8, 13, 14, 20];
    let mk = || -> Vec<ResponseData> {
        lens.iter().map(|l| rd("/e", *l)).collect()
    };
    let mut previous = usize::MAX;
    for t in [0u32, 1, 2, 3, 5, 8] {
        let n = remove_duplicates_with_tolerance(mk(), t).len();
        assert!(n <= previous);
        previous = n;
    }
}

#[test]
fn tolerance_monotonicity_example() {
    let input = || vec![rd("/a", 0), rd("/b", 5), rd("/c", 10)];
    let tight = remove_duplicates_with_tolerance(input(), 4);
    let loose = remove_duplicates_with_tolerance(input(), 5);
    assert_eq!(tight.len(), 3);
    assert_eq!(loose.len(), 2);
    assert!(tight.len() >= loose.len());
}

#[test]
fn tolerance_monotonicity_many_orders() {
    // a deterministic sweep over many arrival orders and tolerance pairs:
    // the tighter tolerance never keeps fewer fingerprints
    let mut state: u64 = 0x2545F4914F6CDD1D;
    let mut next = move || {
        state ^= state << 13;
        state ^= state >> 7;
        state ^= state << 17;
        state
    };
    for _ in 0..400 {
        let n = (next() % 7 + 1) as usize;
        let lens: Vec<usize> = (0..n).map(|_| (next() % 24) as usize).collect();
        let t1 = (next() % 10) as u32;
        let t2 = t1 + 1 + (next() % 5) as u32;
        let mk = |ls: &Vec<usize>| -> Vec<ResponseData> {
            ls.iter().map(|l| rd("/e", *l)).collect()
        };
        let kept_tight = remove_duplicates_with_tolerance(mk(&lens), t1).len();
        let kept_loose = remove_duplicates_with_tolerance(mk(&lens), t2).len();
        assert!(kept_tight >= kept_loose);
    }
}
