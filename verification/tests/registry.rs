use patreonix::address::find_content_address;
use patreonix::address::find_creator_address;
use patreonix::address::find_state_address;
use patreonix::address::u64_to_le_bytes;
use patreonix::address::verify_content_address;
use patreonix::content::ContentType;
use patreonix::content::CONTENT_SPACE;
use patreonix::creator::deactivate_creator;
use patreonix::creator::fetch_creator;
use patreonix::creator::increment_supporters;
use patreonix::creator::reactivate_creator;
use patreonix::creator::register_creator;
use patreonix::creator::update_creator;
use patreonix::creator::Creator;
use patreonix::creator::CREATOR_SPACE;
use patreonix::errors::ErrorCode;
use patreonix::state::initialize;
use patreonix::state::STATE_SPACE;

fn key(b: u8) -> Vec<u8> {
    vec![b; 32]
}

fn program_id() -> Vec<u8> {
    key(11)
}

fn sample_creator(authority: &[u8]) -> Creator {
    let (_, _, creator) = register_creator(
        &authority.to_vec(),
        b"Alice".to_vec(),
        Some(b"alice@example.com".to_vec()),
        Some(b"writes things".to_vec()),
        None,
        1_700_000_000,
        &program_id(),
    )
    .unwrap();
    creator
}

#[test]
fn register_then_fetch_returns_submitted_profile() {
    let authority = key(1);
    let (addr, _bump, creator) = register_creator(
        &authority,
        b"Alice".to_vec(),
        Some(b"alice@example.com".to_vec()),
        None,
        Some(b"ipfs://avatar".to_vec()),
        42,
        &program_id(),
    )
    .unwrap();
    assert_eq!(addr.len(), 32);
    let info = fetch_creator(&creator, &authority).unwrap();
    assert_eq!(info.name, b"Alice".to_vec());
    assert_eq!(info.email, Some(b"alice@example.com".to_vec()));
    assert_eq!(info.bio, None);
    assert_eq!(info.avatar, Some(b"ipfs://avatar".to_vec()));
    assert_eq!(info.registered_at, 42);
    assert!(info.is_active);
    assert_eq!(info.total_supporters, 0);
    assert_eq!(info.total_content, 0);
}

#[test]
fn register_rejects_each_oversized_field() {
    let authority = key(1);
    let pid = program_id();
    let long = |n: usize| vec![b'x'; n];
    let r = register_creator(&authority, long(65), None, None, None, 0, &pid);
    assert_eq!(r.unwrap_err(), ErrorCode::ContentTooLong);
    let r = register_creator(&authority, long(64), Some(long(65)), None, None, 0, &pid);
    assert_eq!(r.unwrap_err(), ErrorCode::ContentTooLong);
    let r = register_creator(&authority, long(64), None, Some(long(257)), None, 0, &pid);
    assert_eq!(r.unwrap_err(), ErrorCode::ContentTooLong);
    let r = register_creator(&authority, long(64), None, None, Some(long(257)), 0, &pid);
    assert_eq!(r.unwrap_err(), ErrorCode::ContentTooLong);
    assert!(register_creator(&authority, long(64), Some(long(64)), Some(long(256)), Some(long(256)), 0, &pid).is_ok());
}

#[test]
fn fetch_creator_requires_authority() {
    let creator = sample_creator(&key(1));
    assert_eq!(fetch_creator(&creator, &key(2)).unwrap_err(), ErrorCode::UnauthorizedAccess);
}

#[test]
fn update_by_stranger_changes_nothing() {
    let mut creator = sample_creator(&key(1));
    let before = creator.clone();
    let r = update_creator(&mut creator, &key(2), Some(b"Mallory".to_vec()), None, None, None);
    assert_eq!(r.unwrap_err(), ErrorCode::UnauthorizedAccess);
    assert_eq!(creator, before);
}

#[test]
fn update_overwrites_only_supplied_fields() {
    let authority = key(1);
    let mut creator = sample_creator(&authority);
    update_creator(&mut creator, &authority, None, None, Some(b"new bio".to_vec()), None)
        .unwrap();
    assert_eq!(creator.name, b"Alice".to_vec());
    assert_eq!(creator.email, Some(b"alice@example.com".to_vec()));
    assert_eq!(creator.bio, Some(b"new bio".to_vec()));
    assert_eq!(creator.avatar, None);
}

#[test]
fn update_rejects_oversized_field_atomically() {
    let authority = key(1);
    let mut creator = sample_creator(&authority);
    let before = creator.clone();
    let r = update_creator(
        &mut creator,
        &authority,
        Some(b"Alicia".to_vec()),
        Some(vec![b'x'; 65]),
        None,
        None,
    );
    assert_eq!(r.unwrap_err(), ErrorCode::ContentTooLong);
    assert_eq!(creator, before);
}

#[test]
fn deactivate_and_reactivate_flip_the_flag() {
    let authority = key(1);
    let mut creator = sample_creator(&authority);
    assert_eq!(
        deactivate_creator(&mut creator, &key(9)).unwrap_err(),
        ErrorCode::UnauthorizedAccess
    );
    deactivate_creator(&mut creator, &authority).unwrap();
    assert!(!creator.is_active);
    reactivate_creator(&mut creator, &authority).unwrap();
    assert!(creator.is_active);
}

#[test]
fn increment_supporters_counts_up() {
    let authority = key(1);
    let mut creator = sample_creator(&authority);
    increment_supporters(&mut creator, &authority).unwrap();
    increment_supporters(&mut creator, &authority).unwrap();
    assert_eq!(creator.total_supporters, 2);
    assert_eq!(
        increment_supporters(&mut creator, &key(2)).unwrap_err(),
        ErrorCode::UnauthorizedAccess
    );
    assert_eq!(creator.total_supporters, 2);
}

#[test]
fn increment_supporters_fails_at_ceiling() {
    let authority = key(1);
    let mut creator = sample_creator(&authority);
    creator.total_supporters = u64::MAX;
    let r = increment_supporters(&mut creator, &authority);
    assert_eq!(r.unwrap_err(), ErrorCode::MathOverflow);
    assert_eq!(creator.total_supporters, u64::MAX);
}

#[test]
fn space_budgets_are_exact() {
    assert_eq!(CREATOR_SPACE, 724);
    assert_eq!(CONTENT_SPACE, 4454);
    assert_eq!(STATE_SPACE, 57);
}

#[test]
fn le_bytes_encode_the_index() {
    assert_eq!(u64_to_le_bytes(0), vec![0u8; 8]);
    assert_eq!(
        u64_to_le_bytes(0x0102030405060708),
        vec![8, 7, 6, 5, 4, 3, 2, 1]
    );
    assert_eq!(u64_to_le_bytes(u64::MAX), vec![0xff; 8]);
}

#[test]
fn derived_addresses_are_stable_and_distinct() {
    let pid = program_id();
    let (a1, b1) = find_creator_address(&key(1), &pid).unwrap();
    let (a2, b2) = find_creator_address(&key(1), &pid).unwrap();
    assert_eq!(a1, a2);
    assert_eq!(b1, b2);
    let (other, _) = find_creator_address(&key(2), &pid).unwrap();
    assert_ne!(a1, other);
    assert_eq!(a1.len(), 32);
    assert_ne!(a1, key(1));
}

#[test]
fn content_address_round_trip_verifies() {
    let pid = program_id();
    let creator_address = find_creator_address(&key(1), &pid).unwrap().0;
    let (addr, bump) = find_content_address(&creator_address, 3, &pid).unwrap();
    assert!(verify_content_address(&creator_address, 3, bump, &pid, &addr));
    assert!(!verify_content_address(&creator_address, 4, bump, &pid, &addr));
    assert!(!verify_content_address(&creator_address, 3, bump.wrapping_sub(1), &pid, &addr));
    let mut tampered = addr.clone();
    tampered[0] ^= 1;
    assert!(!verify_content_address(&creator_address, 3, bump, &pid, &tampered));
}

#[test]
fn initialize_is_deterministic_and_zeroed() {
    let pid = program_id();
    let (addr1, state1) = initialize(&key(3), &pid).unwrap();
    let (addr2, state2) = initialize(&key(4), &pid).unwrap();
    assert_eq!(addr1, addr2);
    assert_eq!(state1.bump, state2.bump);
    assert_eq!(state1.authority, key(3));
    assert_eq!(state1.total_creators, 0);
    assert_eq!(state1.total_content, 0);
    assert_eq!(find_state_address(&pid).unwrap().0, addr1);
}

#[test]
fn default_content_type_is_text() {
    assert_eq!(ContentType::default(), ContentType::Text);
}
