use vn::id::{check_id, id_check_outcome};
use vn::FieldSet;
use vn::model::user::User;
use vn::{
    CharacterBirthday, CharacterSex, CharacterSexValue, Error, Language, ProducerId, QueryField,
    ReleaseVoiced, SortQueryBy, SortVisualNovelBy, Tag, TagId, UserField, UserId, UserUrlQuery,
    Users, VisualNovelDevStatus, VisualNovelField, VisualNovelId, VisualNovelLength,
};

#[test]
fn visual_novel_id_parse_round_trip() {
    let id = VisualNovelId::parse("v123").unwrap();
    assert_eq!(id.as_str(), "v123");
    assert_eq!(id.clone().into_inner(), "v123");
    assert_eq!(id, VisualNovelId::from(123));
    for bad in ["x123", "v", "vabc", "v12a", " v1", ""] {
        match VisualNovelId::parse(bad) {
            Err(Error::InvalidId(text)) => assert_eq!(text, bad),
            _ => panic!("{bad} should be rejected"),
        }
    }
}

#[test]
fn ids_from_numbers_carry_their_prefix() {
    assert_eq!(UserId::from(500).as_str(), "u500");
    assert_eq!(ProducerId::from(332).as_str(), "p332");
    assert_eq!(TagId::from(0).as_str(), "g0");
    assert_eq!(VisualNovelId::from_number(u64::MAX).as_str(), "v18446744073709551615");
    assert!(ProducerId::new("p1").validate().is_ok());
    assert!(ProducerId::new("v1").validate().is_err());
}

#[test]
fn id_check_needs_a_match() {
    assert!(id_check_outcome("v1", Some(true)).is_ok());
    assert!(matches!(id_check_outcome("v1", Some(false)), Err(Error::InvalidId(_))));
    assert!(matches!(id_check_outcome("v1", None), Err(Error::InvalidId(_))));
    assert!(check_id("s", "s4466").is_ok());
    assert!(check_id("s", "s44x").is_err());
}

#[test]
fn record_converts_into_its_id() {
    let tag = Tag {
        aliases: None,
        applicable: Some(true),
        category: None,
        description: None,
        id: TagId::from(994),
        name: Some("Tag".to_owned()),
        searchable: None,
        vn_count: Some(3),
    };
    assert_eq!(TagId::from(tag), TagId::from("g994"));
}

#[test]
fn numeric_codes_decode() {
    assert_eq!(ReleaseVoiced::from_code(1), Some(ReleaseVoiced::NotVoiced));
    assert_eq!(ReleaseVoiced::from_code(2), Some(ReleaseVoiced::OnlyEroScenes));
    assert_eq!(ReleaseVoiced::from_code(3), Some(ReleaseVoiced::PartiallyVoiced));
    assert_eq!(ReleaseVoiced::from_code(4), Some(ReleaseVoiced::FullyVoiced));
    assert_eq!(ReleaseVoiced::from_code(0), None);
    assert_eq!(ReleaseVoiced::from_code(5), None);
    assert_eq!(VisualNovelDevStatus::from_code(0), Some(VisualNovelDevStatus::Finished));
    assert_eq!(VisualNovelDevStatus::from_code(1), Some(VisualNovelDevStatus::InDevelopment));
    assert_eq!(VisualNovelDevStatus::from_code(2), Some(VisualNovelDevStatus::Cancelled));
    assert_eq!(VisualNovelDevStatus::from_code(3), None);
    assert_eq!(VisualNovelLength::from_code(1), Some(VisualNovelLength::VeryShort));
    assert_eq!(VisualNovelLength::from_code(3), Some(VisualNovelLength::Average));
    assert_eq!(VisualNovelLength::from_code(5), Some(VisualNovelLength::VeryLong));
    assert_eq!(VisualNovelLength::from_code(0), None);
    assert_eq!(VisualNovelLength::from_code(6), None);
}

#[test]
fn language_codes_fold() {
    assert_eq!(Language::from_code("zh"), Language::Chinese);
    assert_eq!(Language::from_code("zh-Hans"), Language::Chinese);
    assert_eq!(Language::from_code("zh-Hant"), Language::Chinese);
    assert_eq!(Language::from_code("en"), Language::English);
    assert_eq!(Language::from_code("ja"), Language::Japanese);
    assert_eq!(Language::from_code("ko"), Language::Korean);
    assert_eq!(Language::from_code("pt-br"), Language::Portuguese);
    assert_eq!(Language::from_code("pt-pt"), Language::Portuguese);
    assert_eq!(Language::from_code("ru"), Language::Russian);
    assert_eq!(Language::from_code("es"), Language::Spanish);
    assert_eq!(Language::from_code("de"), Language::Unknown("de".to_owned()));
    assert_eq!(Language::from_code("zh-x"), Language::Unknown("zh-x".to_owned()));
}

#[test]
fn compact_pairs_decode() {
    let birthday = CharacterBirthday::from_wire([14, 3]);
    assert_eq!(birthday.day, 14);
    assert_eq!(birthday.month, 3);
    let other = CharacterBirthday::from_wire([3, 7]);
    assert_eq!(other.day, 3);
    assert_eq!(other.month, 7);
    let sex = CharacterSex::from_wire([Some(CharacterSexValue::Female), None]);
    assert_eq!(sex.apparent, Some(CharacterSexValue::Female));
    assert_eq!(sex.real, None);
}

#[test]
fn field_and_sort_tokens() {
    assert_eq!(VisualNovelField::ImageThumbnailDims.token(), "image.thumbnail_dims");
    assert_eq!(VisualNovelField::VaNote.token(), "va.note");
    assert_eq!(SortVisualNovelBy::VoteCount.token(), "votecount");
    assert_eq!(UserField::LengthVotesSum.token(), "lengthvotes_sum");
    assert_eq!(<VisualNovelField as QueryField>::variants().len(), 63);
}

fn user(id: &str, lengthvotes: Option<u32>, sum: Option<u32>) -> User {
    User {
        id: UserId::from(id),
        lengthvotes,
        lengthvotes_sum: sum,
        username: format!("name of {id}"),
    }
}

#[test]
fn user_lookup_keeps_found_users() {
    let entries = vec![
        ("500".to_owned(), Some(user("u500", Some(10), Some(600)))),
        ("u1000".to_owned(), Some(user("u1000", Some(2), None))),
        ("nobody".to_owned(), None),
    ];
    let users = Users::from_entries(entries);
    assert_eq!(users.len(), 2);
    assert!(!users.is_empty());
    let first = users.get("500").unwrap();
    assert_eq!(first.id.as_str(), "u500");
    assert!(first.lengthvotes.is_some());
    assert!(first.lengthvotes_sum.is_some());
    let second = users.get("u1000").unwrap();
    assert_eq!(second.id.as_str(), "u1000");
    assert!(second.lengthvotes.is_some());
    assert!(second.lengthvotes_sum.is_none());
    assert!(!users.contains_key("nobody"));
}

#[test]
fn user_lookup_later_answer_wins() {
    let entries = vec![
        ("a".to_owned(), Some(user("u1", None, None))),
        ("b".to_owned(), Some(user("u2", None, None))),
        ("a".to_owned(), Some(user("u3", None, None))),
        ("b".to_owned(), None),
    ];
    let users = Users::from_entries(entries);
    assert_eq!(users.len(), 1);
    assert_eq!(users.get("a").unwrap().id.as_str(), "u3");
    assert!(users.get("b").is_none());
    let pairs = users.into_inner();
    assert!(Users::new().into_first_user().is_none());
    let single = Users::from_entries(vec![("u9".to_owned(), Some(user("u9", None, None)))]);
    assert_eq!(single.into_first_user().unwrap().id.as_str(), "u9");
    assert_eq!(pairs.len(), 1);
    assert_eq!(pairs[0].0, "a");
    assert!(Users::default().is_empty());
}

#[test]
fn user_query_holds_each_text_once() {
    let mut query = UserUrlQuery::from(500);
    query.insert("u500");
    query.insert("someone");
    assert_eq!(query.len(), 2);
    query.remove("someone");
    assert_eq!(query.len(), 1);
    let params = query.into_query().into_pairs();
    assert_eq!(params, vec![("q", "u500".to_owned())]);
    let mut cleared = UserUrlQuery::from("x");
    cleared.clear();
    assert!(cleared.is_empty());
    assert_eq!(UserUrlQuery::from(UserId::from(3)).into_vec(), vec!["u3".to_owned()]);
}

#[test]
fn user_query_from_range() {
    let query = UserUrlQuery::from_range(500, 510);
    assert_eq!(query.len(), 10);
    let mut texts = query.into_vec();
    texts.sort();
    assert_eq!(texts.first().unwrap(), "u500");
    assert_eq!(texts.last().unwrap(), "u509");
    assert!(UserUrlQuery::from_range(7, 7).is_empty());
    assert!(UserUrlQuery::from_range(9, 3).is_empty());
}

#[test]
fn ids_from_every_integer_width() {
    assert_eq!(VisualNovelId::from(-5i32).as_str(), "v-5");
    assert_eq!(VisualNovelId::from(i64::MIN).as_str(), "v-9223372036854775808");
    assert_eq!(VisualNovelId::from(7u8).as_str(), "v7");
    assert_eq!(VisualNovelId::from(70u16).as_str(), "v70");
    assert_eq!(VisualNovelId::from(700u32).as_str(), "v700");
    assert_eq!(VisualNovelId::from(-1i8).as_str(), "v-1");
    assert_eq!(VisualNovelId::from(-300i16).as_str(), "v-300");
    assert!(VisualNovelId::from(-5i32).validate().is_err());
}

#[test]
fn user_query_conversions() {
    let sorted = |query: UserUrlQuery| {
        let mut texts = query.into_vec();
        texts.sort();
        texts
    };
    assert_eq!(sorted(UserUrlQuery::from(&["a", "b", "a"][..])), vec!["a", "b"]);
    assert_eq!(sorted(UserUrlQuery::from(vec!["x".to_owned(), "x".to_owned()])), vec!["x"]);
    assert_eq!(sorted(UserUrlQuery::from(&"name".to_owned())), vec!["name"]);
    assert_eq!(sorted(UserUrlQuery::from(std::borrow::Cow::Borrowed("c"))), vec!["c"]);
    assert_eq!(sorted(UserUrlQuery::from(vec![2u64, 1u64])), vec!["u1", "u2"]);
    assert_eq!(sorted(UserUrlQuery::from(&[3u64][..])), vec!["u3"]);
    assert_eq!(sorted(UserUrlQuery::from(vec![UserId::from(4)])), vec!["u4"]);
    assert_eq!(sorted(UserUrlQuery::from(&UserId::from(5))), vec!["u5"]);
    assert_eq!(sorted(UserUrlQuery::from(9u8)), vec!["u9"]);
    assert_eq!(sorted(UserUrlQuery::from(-2)), vec!["u-2"]);
    assert_eq!(UserUrlQuery::from(500u64..510u64).len(), 10);
    let inclusive = sorted(UserUrlQuery::from(700u64..=710u64));
    assert_eq!(inclusive.len(), 11);
    assert_eq!(inclusive.first().unwrap(), "u700");
    assert_eq!(inclusive.last().unwrap(), "u710");
    assert_eq!(UserUrlQuery::from(u64::MAX..=u64::MAX).len(), 1);
    assert!(UserUrlQuery::from(5u64..=4u64).is_empty());
    let mut spent = 1u64..=3u64;
    for _ in spent.by_ref() {}
    assert!(UserUrlQuery::from(spent).is_empty());
}

#[test]
fn user_query_from_arrays_and_sets() {
    let sorted = |query: UserUrlQuery| {
        let mut texts = query.into_vec();
        texts.sort();
        texts
    };
    assert_eq!(sorted(UserUrlQuery::from(["p", "q"])), vec!["p", "q"]);
    assert_eq!(sorted(UserUrlQuery::from([8u64, 8u64])), vec!["u8"]);
    assert_eq!(sorted(UserUrlQuery::from([UserId::from(1), UserId::from(2)])), vec!["u1", "u2"]);
    let set: std::collections::HashSet<String> = ["s".to_owned(), "t".to_owned()].into_iter().collect();
    assert_eq!(sorted(UserUrlQuery::from(set)), vec!["s", "t"]);
}

#[test]
fn field_set_conversions() {
    let one: FieldSet<VisualNovelField> = FieldSet::from(VisualNovelField::Title);
    assert_eq!(one.join(), "title");
    let many = FieldSet::from([VisualNovelField::Id, VisualNovelField::Title, VisualNovelField::Id]);
    assert_eq!(many.join(), "id,title");
    let listed = FieldSet::from(vec![UserField::LengthVotesSum]);
    assert_eq!(listed.join(), "lengthvotes_sum");
}
