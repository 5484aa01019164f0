use issuer_rust::decimal::decimal_to_fr;
use issuer_rust::field::{u64_to_fr, FieldElement};
use issuer_rust::hash::bytes_to_fr;
use issuer_rust::mimc::{
    compute_base_commitment, compute_session_commitment, mimc2, mimc3, mimc_round,
};
use issuer_rust::sharing::random_fr;

fn fe(text: &str) -> FieldElement {
    decimal_to_fr(text).unwrap()
}

#[test]
fn test_commitment_determinism() {
    let x = u64_to_fr(22);
    let r = u64_to_fr(12345);
    let c1 = compute_base_commitment(&x, &r);
    let c2 = compute_base_commitment(&x, &r);
    assert_eq!(c1, c2);
}

#[test]
fn test_session_commitment_changes_per_nonce() {
    let c = compute_base_commitment(&u64_to_fr(22), &u64_to_fr(99));
    let domain = bytes_to_fr(b"BANK_A");
    let n1 = u64_to_fr(1111);
    let n2 = u64_to_fr(2222);
    let sc1 = compute_session_commitment(&c, &n1, &domain);
    let sc2 = compute_session_commitment(&c, &n2, &domain);
    assert_ne!(sc1, sc2, "Different nonces must give different session commits");
}

#[test]
fn round_known_answers() {
    assert_eq!(mimc_round(u64_to_fr(2), u64_to_fr(3)), u64_to_fr(78127));
    assert_eq!(mimc_round(u64_to_fr(22), u64_to_fr(0)), u64_to_fr(2494357910));
    assert_eq!(mimc_round(u64_to_fr(0), u64_to_fr(0)), u64_to_fr(0));
    assert_eq!(mimc_round(u64_to_fr(0), u64_to_fr(1)), u64_to_fr(1));
    assert_eq!(mimc_round(u64_to_fr(1), u64_to_fr(0)), u64_to_fr(2));
}

#[test]
fn two_input_hash_known_answers() {
    assert_eq!(
        mimc2(&u64_to_fr(22), &u64_to_fr(12345)),
        fe("600795170381985870263759385964005267580143646112576160877170217285")
    );
    assert_eq!(
        compute_base_commitment(&u64_to_fr(22), &u64_to_fr(99)),
        fe("600774523645613238808874214725777405522483965423617485844024286879")
    );
}

#[test]
fn three_input_hash_known_answers() {
    assert_eq!(
        mimc3(&u64_to_fr(1), &u64_to_fr(2), &u64_to_fr(3)),
        fe("317590268641990618154179572015")
    );
    let c = compute_base_commitment(&u64_to_fr(22), &u64_to_fr(99));
    let domain = bytes_to_fr(b"BANK_A");
    assert_eq!(
        compute_session_commitment(&c, &u64_to_fr(1111), &domain),
        fe("16868255069723016359671487186404680510598782284645863930908786651787339093573")
    );
    assert_eq!(
        compute_session_commitment(&c, &u64_to_fr(2222), &domain),
        fe("4673270804976548698236618363100106779891328508048617666213545054259140134292")
    );
    assert_eq!(
        compute_session_commitment(&c, &u64_to_fr(1111), &bytes_to_fr(b"BANK_B")),
        fe("16308782393379005784935641925360951428381344082990377285536073787715355435303")
    );
}

#[test]
fn hashes_are_built_from_rounds() {
    let a = u64_to_fr(17);
    let b = u64_to_fr(4711);
    let c = u64_to_fr(99);
    let zero = u64_to_fr(0);
    let h2 = mimc_round(mimc_round(a, zero), b);
    assert_eq!(mimc2(&a, &b), h2);
    assert_eq!(mimc3(&a, &b, &c), mimc_round(h2, c));
    assert_eq!(compute_base_commitment(&a, &b), mimc2(&a, &b));
    assert_eq!(compute_session_commitment(&a, &b, &c), mimc3(&a, &b, &c));
}

#[test]
fn commitments_depend_on_every_input() {
    let x = u64_to_fr(22);
    let r = u64_to_fr(12345);
    assert_ne!(compute_base_commitment(&x, &r), compute_base_commitment(&u64_to_fr(23), &r));
    assert_ne!(compute_base_commitment(&x, &r), compute_base_commitment(&x, &u64_to_fr(12346)));
    assert_ne!(compute_base_commitment(&x, &r), x);
}

#[test]
fn session_commitments_do_not_collide_over_random_nonces() {
    let c = compute_base_commitment(&u64_to_fr(22), &u64_to_fr(99));
    let domain = bytes_to_fr(b"BANK_A");
    let mut collisions = 0;
    for _ in 0..10_000 {
        let n1 = random_fr();
        let n2 = random_fr();
        let sc1 = compute_session_commitment(&c, &n1, &domain);
        let sc2 = compute_session_commitment(&c, &n2, &domain);
        if sc1 == sc2 {
            collisions += 1;
        }
    }
    assert_eq!(collisions, 0);
}
