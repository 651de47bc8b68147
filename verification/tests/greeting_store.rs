use homelabme::domain::entities::Greeting;
use homelabme::domain::repositories::GreetingRepository;
use homelabme::domain::timestamp::Timestamp;
use homelabme::infrastructure::repositories::InMemoryGreetingRepository;

fn greeting(id: &str, message: &str) -> Greeting {
    Greeting::with_identity(
        id.to_string(),
        Timestamp::from_parts(1, 0).unwrap(),
        message.to_string(),
        "en".to_string(),
    )
}

#[test]
fn greeting_store_saves_finds_and_deletes() {
    let mut store = InMemoryGreetingRepository::new();
    assert!(store.find_all().unwrap().is_empty());
    assert_eq!(store.save(&greeting("a", "one")), Ok(()));
    assert_eq!(store.save(&greeting("b", "two")), Ok(()));
    assert_eq!(store.save(&greeting("a", "three")), Ok(()));
    let all = store.find_all().unwrap();
    assert_eq!(all.len(), 2);
    assert_eq!(all[0].id, "a");
    assert_eq!(all[0].message, "three");
    assert_eq!(all[1].id, "b");
    assert_eq!(store.find_by_id("b").unwrap().unwrap().message, "two");
    assert!(store.find_by_id("c").unwrap().is_none());
    assert_eq!(store.delete("a"), Ok(()));
    assert_eq!(store.delete("a"), Ok(()));
    assert_eq!(store.delete("never"), Ok(()));
    let all = store.find_all().unwrap();
    assert_eq!(all.len(), 1);
    assert_eq!(all[0].id, "b");
}
