use serde_json::Value;
use vn::QueryField;
use vn::{
    FieldSet, JsonQueryBuilder, JsonQueryFilter, ReleaseField, ReleaseId, SortReleaseBy,
    UserField, UserId, VisualNovelField,
};

type ReleaseQuery = JsonQueryBuilder<ReleaseField, SortReleaseBy, ()>;

fn body_of(query: ReleaseQuery) -> Value {
    let (body, ()) = query.into_body();
    serde_json::from_str(&body).unwrap()
}

#[test]
fn results_are_clamped_to_one_hundred() {
    let body = body_of(ReleaseQuery::new(()).results(250));
    assert_eq!(body["results"], 100);
    let (text, ()) = ReleaseQuery::new(()).results(250).into_body();
    assert!(text.contains("\"results\":100"));
    let body = body_of(ReleaseQuery::new(()).results(50));
    assert_eq!(body["results"], 50);
    let body = body_of(ReleaseQuery::new(()).results(100));
    assert_eq!(body["results"], 100);
}

#[test]
fn page_zero_becomes_page_one() {
    assert_eq!(body_of(ReleaseQuery::new(()).page(0))["page"], 1);
    assert_eq!(body_of(ReleaseQuery::new(()).page(7))["page"], 7);
    assert_eq!(body_of(ReleaseQuery::new(()).page(u16::MAX))["page"], 65535);
}

#[test]
fn later_filter_replaces_earlier() {
    let a = JsonQueryFilter::parse(r#"["id", "=", "r1"]"#).unwrap();
    let b = JsonQueryFilter::parse(r#"["title", "=", "x"]"#).unwrap();
    let body = body_of(ReleaseQuery::new(()).filters(a).filters(b));
    let expected: Value = serde_json::from_str(r#"["title", "=", "x"]"#).unwrap();
    assert_eq!(body["filters"], expected);
}

#[test]
fn default_filter_is_null_and_unset_members_are_left_out() {
    let body = body_of(ReleaseQuery::new(()));
    assert_eq!(body["filters"], Value::Null);
    assert_eq!(body["count"], false);
    assert_eq!(body["reverse"], false);
    let object = body.as_object().unwrap();
    assert!(!object.contains_key("fields"));
    assert!(!object.contains_key("sort"));
    assert!(!object.contains_key("user"));
    assert!(!object.contains_key("page"));
    assert!(!object.contains_key("results"));
}

#[test]
fn find_release_body_carries_id_filter_and_fields() {
    let id = ReleaseId::from(80);
    assert_eq!(id, ReleaseId::from("r80"));
    let fields = FieldSet::from_fields(vec![ReleaseField::Title, ReleaseField::AltTitle]);
    let query = ReleaseQuery::new(())
        .filters(JsonQueryFilter::id_equals(id.as_str()))
        .fields(fields);
    let body = body_of(query);
    let expected: Value = serde_json::from_str(r#"["id","=","r80"]"#).unwrap();
    assert_eq!(body["filters"], expected);
    assert_eq!(body["fields"], "title,alttitle");
}

#[test]
fn search_filter_escapes_its_text() {
    let filter = JsonQueryFilter::search("say \"hi\"\\");
    assert_eq!(filter.as_str(), r#"["search","=","say \"hi\"\\"]"#);
    let value: Value = serde_json::from_str(filter.as_str()).unwrap();
    assert_eq!(value[2], "say \"hi\"\\");
}

#[test]
fn flags_sort_and_user_reach_the_body() {
    let query = ReleaseQuery::new(())
        .sort(SortReleaseBy::SearchRank)
        .reverse()
        .reverse()
        .count()
        .compact_filters()
        .normalized_filters()
        .user(UserId::from(7));
    let body = body_of(query);
    assert_eq!(body["sort"], "searchrank");
    assert_eq!(body["reverse"], true);
    assert_eq!(body["count"], true);
    assert_eq!(body["compact_filters"], true);
    assert_eq!(body["normalized_filters"], true);
    assert_eq!(body["user"], "u7");
}

#[test]
fn body_text_is_exact() {
    let (text, ()) = ReleaseQuery::new(()).results(5).page(2).into_body();
    assert_eq!(
        text,
        r#"{"compact_filters":false,"count":false,"filters":null,"normalized_filters":false,"page":2,"results":5,"reverse":false}"#
    );
}

#[test]
fn fields_accumulate_as_a_union() {
    let a = FieldSet::from_fields(vec![ReleaseField::Title, ReleaseField::AltTitle]);
    let b = FieldSet::from_fields(vec![ReleaseField::AltTitle, ReleaseField::Id]);
    let query = ReleaseQuery::new(()).fields(a).fields(b);
    let body = body_of(query);
    let joined = body["fields"].as_str().unwrap().to_owned();
    let mut tokens: Vec<&str> = joined.split(',').collect();
    assert_eq!(tokens.len(), 3);
    tokens.sort();
    assert_eq!(tokens, vec!["alttitle", "id", "title"]);
}

#[test]
fn raw_fields_merge_with_typed_fields() {
    let query = ReleaseQuery::new(())
        .fields(FieldSet::from_fields(vec![ReleaseField::Title]))
        .raw_fields(vec!["vns.id".to_owned(), "title".to_owned(), "vns.id".to_owned()]);
    let body = body_of(query);
    assert_eq!(body["fields"], "title,vns.id");
}

#[test]
fn field_set_union_has_no_duplicates() {
    let mut a: FieldSet<VisualNovelField> = FieldSet::new();
    a.insert(&VisualNovelField::Title);
    a.insert_raw("titles.lang");
    let mut b: FieldSet<VisualNovelField> = FieldSet::new();
    b.insert(&VisualNovelField::Title);
    b.insert(&VisualNovelField::Rating);
    a.merge(b);
    assert_eq!(a.len(), 3);
    assert_eq!(a.join(), "title,titles.lang,rating");
}

#[test]
fn field_set_insert_is_idempotent_and_remove_reports_presence() {
    let mut set: FieldSet<VisualNovelField> = FieldSet::none();
    assert!(set.is_empty());
    set.insert(&VisualNovelField::Id);
    set.insert(&VisualNovelField::Id);
    assert_eq!(set.len(), 1);
    assert!(set.contains(&VisualNovelField::Id));
    assert!(set.remove(&VisualNovelField::Id));
    assert!(!set.remove(&VisualNovelField::Id));
    assert!(set.is_empty());
    set.extend_raw(vec!["a".to_owned(), "b".to_owned(), "a".to_owned()]);
    set.reserve(10);
    set.shrink_to_fit();
    assert_eq!(set.join(), "a,b");
}

#[test]
fn field_set_all_holds_every_field_once() {
    let all: FieldSet<UserField> = FieldSet::all();
    assert_eq!(all.len(), 2);
    let mut tokens: Vec<String> = all.join().split(',').map(str::to_owned).collect();
    tokens.sort();
    assert_eq!(tokens, vec!["lengthvotes", "lengthvotes_sum"]);
    let vn_fields: FieldSet<VisualNovelField> = FieldSet::all();
    assert_eq!(vn_fields.len(), <VisualNovelField as QueryField>::variants().len());
}

#[test]
fn field_set_url_query_is_one_fields_pair() {
    let set = FieldSet::from_fields(vec![UserField::LengthVotes]);
    let pairs = set.into_url_query().into_pairs();
    assert_eq!(pairs, vec![("fields", "lengthvotes".to_owned())]);
    let empty: FieldSet<UserField> = FieldSet::default();
    assert_eq!(empty.join(), "");
}

#[test]
fn filter_parse_rejects_malformed_json() {
    let err = JsonQueryFilter::parse("[\"id\", ").err().unwrap();
    assert!(matches!(err, vn::Error::Json(_)));
    assert!(JsonQueryFilter::try_from("{").is_err());
    let mut ok = JsonQueryFilter::try_from(String::from("[\"id\",\"=\",\"v1\"]")).unwrap();
    assert!(!ok.is_null());
    ok.clear();
    assert!(ok.is_null());
    assert_eq!(ok.into_inner(), "null");
    let from_value = JsonQueryFilter::new(Value::Bool(true));
    assert_eq!(from_value.as_str(), "true");
    assert!(JsonQueryFilter::default().is_null());
}

#[test]
fn filter_conversions_keep_the_text() {
    let text = String::from("[\"id\",\"=\",\"v1\"]");
    let from_ref = JsonQueryFilter::try_from(&text).unwrap();
    assert_eq!(from_ref.as_str(), text);
    let from_cow = JsonQueryFilter::try_from(std::borrow::Cow::Borrowed("[1, 2]")).unwrap();
    assert_eq!(from_cow.as_str(), "[1, 2]");
    assert!(matches!(JsonQueryFilter::try_from(&"[".to_owned()), Err(vn::Error::Json(_))));
    let from_value = JsonQueryFilter::from(serde_json::from_str::<Value>("[\"a\", 1]").unwrap());
    assert_eq!(from_value.as_str(), "[\"a\",1]");
    assert_eq!(JsonQueryFilter::id_equals("r80").as_str(), r#"["id","=","r80"]"#);
}
