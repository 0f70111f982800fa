use daldalso::api::reply_json;
use daldalso::{
    ClientError, InventoryResponse, Item, LibraOrStar, MeResponse, OauthResponse, Profile, Reply,
    TokenErrors,
};
use serde_json::Value;

fn document(text: &str) -> Value {
    serde_json::from_str(text).unwrap()
}

#[test]
fn levels_are_read_from_an_object() {
    let levels = LibraOrStar::from_json(&document(r#"{"level":3,"prev":20,"next":45}"#)).unwrap();
    assert_eq!(levels.level(), 3);
    assert_eq!(levels.prev(), 20);
    assert_eq!(levels.next(), 45);
}

#[test]
fn levels_need_all_three_counts() {
    for text in [
        r#"{"level":3,"prev":20}"#,
        r#"{"level":3,"next":45}"#,
        r#"{"prev":20,"next":45}"#,
        r#"{"level":"3","prev":20,"next":45}"#,
        r#"{"level":3,"prev":null,"next":45}"#,
        r#"{"level":3,"prev":20,"next":-45}"#,
        r#"{"level":3,"prev":20,"next":4.5}"#,
        r#"{"level":3,"prev":20,"next":1e2}"#,
        r#"{"level":3,"prev":20,"next":18446744073709551616}"#,
        "[3,20,45]",
        "3",
        "null",
    ] {
        assert!(LibraOrStar::from_json(&document(text)).is_none());
    }
}

#[test]
fn counts_reach_up_to_the_largest_integer() {
    let levels =
        LibraOrStar::from_json(&document(r#"{"level":0,"prev":18446744073709551615,"next":1}"#))
            .unwrap();
    assert_eq!(levels.level(), 0);
    assert_eq!(levels.prev(), 18446744073709551615);
    assert_eq!(levels.next(), 1);
}

#[test]
fn a_profile_is_read_from_an_object() {
    let profile = Profile::from_json(&document(r#"{"image":"https://x/y.png","text":"안녕"}"#))
        .unwrap();
    assert_eq!(profile.image(), "https://x/y.png");
    assert_eq!(profile.text(), "안녕");
    assert!(Profile::from_json(&document(r#"{"image":"i"}"#)).is_none());
    assert!(Profile::from_json(&document(r#"{"image":"i","text":null}"#)).is_none());
    assert!(Profile::from_json(&document(r#"["i","t"]"#)).is_none());
}

#[test]
fn an_item_is_read_from_an_object() {
    let item = Item::from_json(&document(r#"{"id":"i1","name":"Lamp","desc":"A \"lamp\""}"#))
        .unwrap();
    assert_eq!(item.id(), "i1");
    assert_eq!(item.name(), "Lamp");
    assert_eq!(item.desc(), "A \"lamp\"");
    assert!(Item::from_json(&document(r#"{"id":"i1","name":"Lamp"}"#)).is_none());
    assert!(Item::from_json(&document(r#"{"id":1,"name":"Lamp","desc":""}"#)).is_none());
}

#[test]
fn a_user_is_read_from_a_document() {
    let user = MeResponse::from_json(&document(
        r#"{"key":"abc","name":"Alice","account":"alice1","libra":{"level":1,"prev":0,"next":100},"foveon":5,"profile":{"image":"u","text":"hi"}}"#,
    ))
    .unwrap();
    assert_eq!(user.key(), "abc");
    assert_eq!(user.name(), Some("Alice".to_string()));
    assert_eq!(user.account(), Some("alice1".to_string()));
    assert_eq!(user.libra().level(), 1);
    assert_eq!(user.foveon(), 5);
    assert_eq!(user.profile().text(), "hi");
    assert!(MeResponse::from_json(&document("{}")).is_none());
    assert!(MeResponse::from_json(&document("null")).is_none());
}

#[test]
fn an_entry_is_read_from_a_document() {
    let entry = InventoryResponse::from_json(&document(
        r#"{"static":{"id":"i","name":"n","desc":"d"},"seq":7,"star":{"level":1,"prev":2,"next":3},"quantity":4,"mileage":5,"minutes":["m"]}"#,
    ))
    .unwrap();
    assert_eq!(entry.item().id(), "i");
    assert_eq!(entry.item().name(), "n");
    assert_eq!(entry.item().desc(), "d");
    assert_eq!(entry.seq(), 7);
    assert_eq!(entry.star().level(), 1);
    assert_eq!(entry.star().prev(), 2);
    assert_eq!(entry.star().next(), 3);
    assert_eq!(entry.quantity(), 4);
    assert_eq!(entry.mileage(), 5);
    assert_eq!(entry.minutes(), vec!["m".to_string()]);
}

#[test]
fn a_list_of_entries_is_read_in_order() {
    let entries = InventoryResponse::list_from_json(&document(
        r#"[
            {"item":{"id":"a","name":"","desc":""},"seq":1,"star":{"level":0,"prev":0,"next":0},"quantity":0,"mileage":0,"minutes":[]},
            {"item":{"id":"b","name":"","desc":""},"seq":2,"star":{"level":0,"prev":0,"next":0},"quantity":0,"mileage":0,"minutes":[]},
            {"item":{"id":"c","name":"","desc":""},"seq":3,"star":{"level":0,"prev":0,"next":0},"quantity":0,"mileage":0,"minutes":[]}
        ]"#,
    ))
    .unwrap();
    let ids: Vec<String> = entries.iter().map(|entry| entry.item().id()).collect();
    assert_eq!(ids, vec!["a".to_string(), "b".to_string(), "c".to_string()]);
    let seqs: Vec<usize> = entries.iter().map(|entry| entry.seq()).collect();
    assert_eq!(seqs, vec![1, 2, 3]);
    assert!(InventoryResponse::list_from_json(&document("{}")).is_none());
    assert!(InventoryResponse::list_from_json(&document("[{}]")).is_none());
}

#[test]
fn a_token_response_is_read_from_a_document() {
    let token = OauthResponse::from_json(&document(
        r#"{"access_token":"at","expires_in":60,"error":"RefreshToken"}"#,
    ))
    .unwrap();
    assert_eq!(token.access_token(), Some("at".to_string()));
    assert_eq!(token.refresh_token(), None);
    assert_eq!(token.token_type(), None);
    assert_eq!(token.expires_in(), Some(60));
    assert_eq!(token.error(), Some(TokenErrors::RefreshToken));
    assert!(OauthResponse::from_json(&document("[]")).is_none());
    assert!(OauthResponse::from_json(&document(r#"{"error":{"code":null}}"#)).is_none());
}

#[test]
fn a_reply_gives_its_document() {
    let value = reply_json(&Reply::Body(" {\"a\" : [1, 2] } ".to_string())).unwrap();
    assert_eq!(value, document(r#"{"a":[1,2]}"#));
    assert_eq!(reply_json(&Reply::Body("{a:1}".to_string())).err(), Some(ClientError::Parse));
    assert_eq!(reply_json(&Reply::Failed).err(), Some(ClientError::Transport));
}
