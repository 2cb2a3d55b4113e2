use patreonix::errors::ErrorCode;
use patreonix::subscription::create_content;
use patreonix::subscription::initialize_creator;
use patreonix::subscription::subscribe;

fn key(b: u8) -> Vec<u8> {
    vec![b; 32]
}

#[test]
fn initialize_creator_zeroes_the_counters() {
    let creator = initialize_creator(&key(5));
    assert_eq!(creator.owner, key(5));
    assert_eq!(creator.content_count, 0);
    assert_eq!(creator.total_earnings, 0);
}

#[test]
fn create_content_is_owner_gated() {
    let mut creator = initialize_creator(&key(5));
    let r = create_content(&mut creator, &key(6), &key(7), b"QmHash".to_vec(), 100);
    assert_eq!(r.unwrap_err(), ErrorCode::UnauthorizedAccess);
    assert_eq!(creator.content_count, 0);
    let content = create_content(&mut creator, &key(6), &key(5), b"QmHash".to_vec(), 100)
        .unwrap();
    assert_eq!(creator.content_count, 1);
    assert_eq!(content.creator, key(6));
    assert_eq!(content.ipfs_hash, b"QmHash".to_vec());
    assert_eq!(content.created_at, 100);
    assert_eq!(content.earnings, 0);
}

#[test]
fn subscribe_credits_both_ledgers() {
    let mut creator = initialize_creator(&key(5));
    let mut content = create_content(&mut creator, &key(6), &key(5), b"QmHash".to_vec(), 100)
        .unwrap();
    subscribe(&mut creator, &mut content, 250);
    subscribe(&mut creator, &mut content, 50);
    assert_eq!(creator.total_earnings, 300);
    assert_eq!(content.earnings, 300);
    assert_eq!(creator.content_count, 1);
}
