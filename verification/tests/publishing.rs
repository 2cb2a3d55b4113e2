use patreonix::address::find_creator_address;
use patreonix::content::create_content;
use patreonix::content::fetch_content_by_index;
use patreonix::content::insert_comment;
use patreonix::content::ContentType;
use patreonix::creator::deactivate_creator;
use patreonix::creator::register_creator;
use patreonix::creator::Creator;
use patreonix::errors::ErrorCode;

fn key(b: u8) -> Vec<u8> {
    vec![b; 32]
}

fn program_id() -> Vec<u8> {
    key(11)
}

fn alice() -> (Vec<u8>, Vec<u8>, Creator) {
    let authority = key(1);
    let pid = program_id();
    let (addr, _, creator) =
        register_creator(&authority, b"Alice".to_vec(), None, None, None, 100, &pid).unwrap();
    (authority, addr, creator)
}

fn publish(
    creator: &mut Creator,
    creator_address: &Vec<u8>,
    authority: &Vec<u8>,
    title: &[u8],
    body: &[u8],
    index: u64,
) -> Result<(Vec<u8>, patreonix::content::Content), ErrorCode> {
    create_content(
        creator,
        creator_address,
        authority,
        title.to_vec(),
        b"a description".to_vec(),
        body.to_vec(),
        ContentType::Text,
        index,
        200,
        &program_id(),
    )
}

#[test]
fn wrong_index_fails_and_counter_stays() {
    let (authority, addr, mut creator) = alice();
    let before = creator.clone();
    let r = publish(&mut creator, &addr, &authority, b"Hi", b"world", 5);
    assert_eq!(r.unwrap_err(), ErrorCode::InvalidContentIndex);
    assert_eq!(creator, before);
}

#[test]
fn create_content_validates_payload() {
    let (authority, addr, mut creator) = alice();
    let r = publish(&mut creator, &addr, &authority, b"", b"world", 0);
    assert_eq!(r.unwrap_err(), ErrorCode::EmptyTitle);
    let r = publish(&mut creator, &addr, &authority, b"Hi", b"", 0);
    assert_eq!(r.unwrap_err(), ErrorCode::EmptyContent);
    let r = publish(&mut creator, &addr, &authority, &vec![b't'; 65], b"world", 0);
    assert_eq!(r.unwrap_err(), ErrorCode::ContentTooLong);
    let r = publish(&mut creator, &addr, &authority, b"Hi", &vec![b'c'; 1025], 0);
    assert_eq!(r.unwrap_err(), ErrorCode::ContentTooLong);
    let r = create_content(
        &mut creator,
        &addr,
        &authority,
        b"Hi".to_vec(),
        vec![b'd'; 257],
        b"world".to_vec(),
        ContentType::Text,
        0,
        200,
        &program_id(),
    );
    assert_eq!(r.unwrap_err(), ErrorCode::ContentTooLong);
    assert_eq!(creator.total_content, 0);
}

#[test]
fn create_content_requires_authority_and_active_creator() {
    let (authority, addr, mut creator) = alice();
    let r = publish(&mut creator, &addr, &key(2), b"Hi", b"world", 0);
    assert_eq!(r.unwrap_err(), ErrorCode::UnauthorizedAccess);
    deactivate_creator(&mut creator, &authority).unwrap();
    let r = publish(&mut creator, &addr, &authority, b"Hi", b"world", 0);
    assert_eq!(r.unwrap_err(), ErrorCode::CreatorNotActive);
    assert_eq!(creator.total_content, 0);
}

#[test]
fn create_content_overflow_guard() {
    let (authority, addr, mut creator) = alice();
    creator.total_content = u64::MAX;
    let r = publish(&mut creator, &addr, &authority, b"Hi", b"world", u64::MAX);
    assert_eq!(r.unwrap_err(), ErrorCode::MathOverflow);
    assert_eq!(creator.total_content, u64::MAX);
}

#[test]
fn end_to_end_alice_publishes_twice() {
    let (authority, addr, mut creator) = alice();
    let (c0_addr, c0) = publish(&mut creator, &addr, &authority, b"Hi", b"world", 0).unwrap();
    assert_eq!(creator.total_content, 1);
    assert_eq!(c0.content_index, 0);
    assert_eq!(c0.creator, addr);
    assert!(c0.is_active);
    assert_eq!(c0.comments.len(), 0);
    assert_eq!(c0.updated_at, None);
    let r = publish(&mut creator, &addr, &authority, b"Hi again", b"world", 0);
    assert_eq!(r.unwrap_err(), ErrorCode::InvalidContentIndex);
    assert_eq!(creator.total_content, 1);
    let (c1_addr, c1) = publish(&mut creator, &addr, &authority, b"Hi again", b"world", 1)
        .unwrap();
    assert_eq!(creator.total_content, 2);
    assert_eq!(c1.content_index, 1);
    assert_ne!(c0_addr, c1_addr);
}

#[test]
fn eleventh_comment_is_discarded() {
    let (authority, addr, mut creator) = alice();
    let (_, mut content) = publish(&mut creator, &addr, &authority, b"Hi", b"world", 0).unwrap();
    for i in 0..10u8 {
        insert_comment(&mut content, &key(20 + i), vec![b'c', i], 300 + i as i64).unwrap();
    }
    assert_eq!(content.comments.len(), 10);
    let before = content.clone();
    let r = insert_comment(&mut content, &key(40), b"one more".to_vec(), 400);
    assert_eq!(r.unwrap_err(), ErrorCode::TooManyComments);
    assert_eq!(content, before);
    assert_eq!(content.comments.len(), 10);
    assert_eq!(content.comments[0].creator, key(20));
    assert_eq!(content.comments[9].content, vec![b'c', 9]);
    assert!(!content.comments[0].is_edited);
}

#[test]
fn comment_text_is_validated() {
    let (authority, addr, mut creator) = alice();
    let (_, mut content) = publish(&mut creator, &addr, &authority, b"Hi", b"world", 0).unwrap();
    let r = insert_comment(&mut content, &key(20), Vec::new(), 300);
    assert_eq!(r.unwrap_err(), ErrorCode::EmptyComment);
    let r = insert_comment(&mut content, &key(20), vec![b'c'; 257], 300);
    assert_eq!(r.unwrap_err(), ErrorCode::CommentTooLong);
    assert_eq!(content.comments.len(), 0);
}

#[test]
fn fetch_content_is_idempotent() {
    let (authority, addr, mut creator) = alice();
    let (c_addr, mut content) = publish(&mut creator, &addr, &authority, b"Hi", b"world", 0)
        .unwrap();
    insert_comment(&mut content, &key(21), b"nice".to_vec(), 300).unwrap();
    let pid = program_id();
    let first = fetch_content_by_index(&content, &c_addr, &addr, 0, &pid).unwrap();
    let second = fetch_content_by_index(&content, &c_addr, &addr, 0, &pid).unwrap();
    assert_eq!(first, second);
    assert_eq!(first.id, c_addr);
    assert_eq!(first.creator, addr);
    assert_eq!(first.title, b"Hi".to_vec());
    assert_eq!(first.content, b"world".to_vec());
    assert_eq!(first.comments.len(), 1);
    assert_eq!(first.comments[0].content, b"nice".to_vec());
}

#[test]
fn fetch_content_rejects_a_mismatched_claim() {
    let (authority, addr, mut creator) = alice();
    let (c_addr, content) = publish(&mut creator, &addr, &authority, b"Hi", b"world", 0).unwrap();
    let pid = program_id();
    let r = fetch_content_by_index(&content, &c_addr, &addr, 1, &pid);
    assert_eq!(r.unwrap_err(), ErrorCode::BumpNotFound);
    let other_creator = find_creator_address(&key(2), &pid).unwrap().0;
    let r = fetch_content_by_index(&content, &c_addr, &other_creator, 0, &pid);
    assert_eq!(r.unwrap_err(), ErrorCode::BumpNotFound);
    let mut tampered = c_addr.clone();
    tampered[31] ^= 0xff;
    let r = fetch_content_by_index(&content, &tampered, &addr, 0, &pid);
    assert_eq!(r.unwrap_err(), ErrorCode::BumpNotFound);
}
