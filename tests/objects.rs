use rvk::envelope::decode_response;
use rvk::error::Error;
use rvk::objects::post::{Comments, Likes, Reposts, Views};
use rvk::objects::{get_integer, get_text};

#[test]
fn typed_decode_of_id_and_text() {
    let p = decode_response(br#"{"response":{"id":7,"text":"hi"}}"#).unwrap();
    assert_eq!(get_integer(&p, "id").unwrap(), 7);
    assert_eq!(get_text(&p, "text").unwrap(), "hi");
}

#[test]
fn typed_decode_missing_id_fails() {
    let p = decode_response(br#"{"response":{"text":"hi"}}"#).unwrap();
    assert!(matches!(get_integer(&p, "id"), Err(Error::Serde(_))));
    assert_eq!(get_text(&p, "text").unwrap(), "hi");
}

#[test]
fn typed_decode_wrong_types_fail() {
    let p = decode_response(br#"{"response":{"id":"7","text":1,"big":18446744073709551615}}"#)
        .unwrap();
    assert!(matches!(get_integer(&p, "id"), Err(Error::Serde(_))));
    assert!(matches!(get_text(&p, "text"), Err(Error::Serde(_))));
    assert!(matches!(get_integer(&p, "big"), Err(Error::Serde(_))));
}

#[test]
fn counters_decode() {
    let p = decode_response(
        br#"{"response":{"comments":{"count":3,"can_post":1,"groups_can_post":0},
            "likes":{"count":10,"user_likes":0,"can_like":1,"can_publish":1},
            "reposts":{"count":2,"user_reposted":0},"views":{"count":-1}}}"#,
    )
    .unwrap();
    let c = Comments::from_json(p.get("comments").unwrap()).unwrap();
    assert_eq!(c, Comments { count: 3, can_post: 1, groups_can_post: 0 });
    let l = Likes::from_json(p.get("likes").unwrap()).unwrap();
    assert_eq!(l, Likes { count: 10, user_likes: 0, can_like: 1, can_publish: 1 });
    let r = Reposts::from_json(p.get("reposts").unwrap()).unwrap();
    assert_eq!(r, Reposts { count: 2, user_reposted: 0 });
    let v = Views::from_json(p.get("views").unwrap()).unwrap();
    assert_eq!(v, Views { count: -1 });
}

#[test]
fn counters_missing_member_fails() {
    let p = decode_response(br#"{"response":{"count":3,"can_post":1}}"#).unwrap();
    assert!(matches!(Comments::from_json(&p), Err(Error::Serde(_))));
    assert!(matches!(Reposts::from_json(&p), Err(Error::Serde(_))));
    assert!(matches!(Views::from_json(&p), Ok(Views { count: 3 })));
}
