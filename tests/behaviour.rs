use edge_schema::annotation::Annotation;
use edge_schema::edge;
use edge_schema::edge::StorageKey;
use edge_schema::schema::Annotation as NamedAnnotation;
use edge_schema::schema::CommentAnnotation;
use edge_schema::schema::Merger;

fn tagged(tag: &str) -> Annotation {
    Annotation { struct_tag: String::from(tag) }
}

#[test]
fn association_chains_are_never_inverse() {
    let d = edge::to(String::from("pets"), "Pet")
        .unique()
        .required()
        .immutable()
        .field(String::from("pet_id"))
        .through(String::from("ownerships"), "Ownership")
        .annotations(vec![tagged("a")])
        .storage_key(&[edge::column(String::from("pet_id"))])
        .descriptor();
    assert_eq!(d.inverse, false);
    assert!(d.ref_.is_none());
}

#[test]
fn inverse_chains_are_always_inverse() {
    let d = edge::from(String::from("owner"), "User")
        .ref_(String::from("pets"))
        .unique()
        .required()
        .immutable()
        .descriptor();
    assert_eq!(d.inverse, true);
    assert_eq!(d.ref_name, String::from("pets"));
    assert!(d.ref_.is_none());
    assert!(d.unique && d.required && d.immutable);

    let paired = edge::to(String::from("a"), "User").from(String::from("b")).descriptor();
    assert_eq!(paired.inverse, true);
    assert_eq!(paired.ref_.unwrap().inverse, false);
}

#[test]
fn type_is_the_last_path_segment() {
    let d = edge::to(String::from("friends"), "app::schema::User").descriptor();
    assert_eq!(d.type_, String::from("User"));
    assert_eq!(d.name, String::from("friends"));
    let d = edge::from(String::from("owner"), "crate::Pet").descriptor();
    assert_eq!(d.type_, String::from("Pet"));
}

#[test]
fn type_name_edge_cases() {
    assert_eq!(edge::typ("User"), String::from("User"));
    assert_eq!(edge::typ(""), String::from(""));
    assert_eq!(edge::typ("a:::b"), String::from("b"));
    assert_eq!(edge::typ("a::"), String::from(""));
    assert_eq!(edge::typ("a:b"), String::from("a:b"));
    assert_eq!(edge::typ("std::vec::Vec<app::User>"), String::from("User>"));
}

#[test]
fn paired_chain_links_both_names() {
    let d = edge::to(String::from("n1"), "Group")
        .field(String::from("group_id"))
        .from(String::from("n2"))
        .descriptor();
    assert_eq!(d.name, String::from("n2"));
    assert_eq!(d.type_, String::from("Group"));
    assert_eq!(d.field, String::from(""));
    let r = d.ref_.unwrap();
    assert_eq!(r.name, String::from("n1"));
    assert_eq!(r.field, String::from("group_id"));
    assert_eq!(r.type_, String::from("Group"));
}

#[test]
fn unique_on_the_association_side_only() {
    let d = edge::to(String::from("following"), "User")
        .unique()
        .from(String::from("followers"))
        .descriptor();
    assert_eq!(d.ref_.unwrap().unique, true);
    assert_eq!(d.unique, false);
}

#[test]
fn storage_key_single_column_and_symbol() {
    let d = edge::to(String::from("owner"), "User")
        .storage_key(&[edge::column(String::from("owner_id")), edge::symbol(String::from("pets_owner"))])
        .descriptor();
    let k = d.storage_key.unwrap();
    assert_eq!(k.table, String::from(""));
    assert_eq!(k.columns, vec![String::from("owner_id")]);
    assert_eq!(k.symbols, vec![String::from("pets_owner")]);
}

#[test]
fn storage_key_later_option_overwrites_its_field() {
    let d = edge::to(String::from("groups"), "Group")
        .storage_key(&[
            edge::table(String::from("first")),
            edge::columns(String::from("a"), String::from("b")),
            edge::table(String::from("second")),
        ])
        .descriptor();
    let k = d.storage_key.unwrap();
    assert_eq!(k.table, String::from("second"));
    assert_eq!(k.columns, vec![String::from("a"), String::from("b")]);
    assert!(k.symbols.is_empty());
}

#[test]
fn storage_key_twice_merges() {
    let d = edge::to(String::from("groups"), "Group")
        .storage_key(&[edge::table(String::from("user_groups")), edge::column(String::from("x"))])
        .storage_key(&[edge::columns(String::from("user_id"), String::from("group_id"))])
        .descriptor();
    let k = d.storage_key.unwrap();
    assert_eq!(k.table, String::from("user_groups"));
    assert_eq!(k.columns, vec![String::from("user_id"), String::from("group_id")]);
    assert!(k.symbols.is_empty());
}

#[test]
fn storage_key_with_no_options_is_empty() {
    let d = edge::to(String::from("groups"), "Group").storage_key(&[]).descriptor();
    let k = d.storage_key.unwrap();
    assert_eq!(k.table, String::from(""));
    assert!(k.columns.is_empty() && k.symbols.is_empty());
}

#[test]
fn storage_option_applies_to_a_key() {
    let mut k = StorageKey::default();
    edge::symbols(String::from("to_fk"), String::from("from_fk")).apply(&mut k);
    edge::table(String::from("t")).apply(&mut k);
    assert_eq!(k.symbols, vec![String::from("to_fk"), String::from("from_fk")]);
    assert_eq!(k.table, String::from("t"));
    assert!(k.columns.is_empty());
}

#[test]
fn struct_tag_last_value_wins() {
    let d = edge::to(String::from("friends"), "User")
        .struct_tag(String::from("first"))
        .struct_tag(String::from("second"))
        .descriptor();
    assert_eq!(d.tag, String::from("second"));
    let d = edge::from(String::from("friends"), "User")
        .struct_tag(String::from("first"))
        .struct_tag(String::from("second"))
        .descriptor();
    assert_eq!(d.tag, String::from("second"));
}

#[test]
fn annotations_append_in_call_order() {
    let d = edge::to(String::from("pets"), "Pet")
        .annotations(vec![tagged("a"), tagged("b")])
        .annotations(vec![tagged("c")])
        .descriptor();
    let tags: Vec<String> = d.annotations.iter().map(|a| a.struct_tag.clone()).collect();
    assert_eq!(tags, vec![String::from("a"), String::from("b"), String::from("c")]);

    let d = edge::from(String::from("owner"), "User")
        .annotations(vec![tagged("x")])
        .annotations(vec![])
        .annotations(vec![tagged("y")])
        .descriptor();
    assert_eq!(d.annotations.len(), 2);
    assert_eq!(d.annotations[0].struct_tag, String::from("x"));
    assert_eq!(d.annotations[1].struct_tag, String::from("y"));
}

#[test]
fn through_records_join_entity() {
    let d = edge::to(String::from("friends"), "User")
        .through(String::from("friendships"), "schema::Friendship")
        .descriptor();
    let t = d.through.unwrap();
    assert_eq!(t.name, String::from("friendships"));
    assert_eq!(t.type_, String::from("Friendship"));

    let d = edge::from(String::from("liked_users"), "User")
        .ref_(String::from("liked_tweets"))
        .through(String::from("likes"), "TweetLike")
        .descriptor();
    let t = d.through.unwrap();
    assert_eq!(t.name, String::from("likes"));
    assert_eq!(t.type_, String::from("TweetLike"));
    assert_eq!(d.ref_name, String::from("liked_tweets"));
}

#[test]
fn basic_edge_scenario_defaults() {
    let d = edge::to(String::from("friends"), "User")
        .required()
        .comment(String::from("c"))
        .descriptor();
    assert_eq!(d.name, String::from("friends"));
    assert_eq!(d.type_, String::from("User"));
    assert_eq!(d.comment, String::from("c"));
    assert!(d.required && !d.inverse && !d.unique && !d.immutable);
    assert!(d.tag.is_empty() && d.field.is_empty() && d.ref_name.is_empty());
    assert!(d.ref_.is_none() && d.through.is_none() && d.storage_key.is_none());
    assert!(d.annotations.is_empty());
}

#[test]
fn paired_scenario_ref_is_plain_association() {
    let d = edge::to(String::from("following"), "User")
        .from(String::from("followers"))
        .descriptor();
    assert_eq!(d.name, String::from("followers"));
    assert!(d.inverse);
    let r = d.ref_.unwrap();
    assert_eq!(r.name, String::from("following"));
    assert!(!r.unique && !r.inverse);
}

#[test]
fn edge_annotation_name_and_merge() {
    let a = tagged("json:\"old\"");
    assert_eq!(a.name(), String::from("Edges"));
    let m = a.merge(tagged("json:\"new\""));
    assert_eq!(m.struct_tag, String::from("json:\"new\""));
}

#[test]
fn comment_annotation() {
    let c = CommentAnnotation::new(String::from("Users of the system."));
    assert_eq!(c.text, String::from("Users of the system."));
    assert_eq!(NamedAnnotation::name(&c), String::from("Comment"));
}

#[test]
fn cloned_builder_is_independent() {
    let b = edge::to(String::from("e"), "User").unique();
    let c = b.clone().struct_tag(String::from("t"));
    let d1 = b.descriptor();
    let d2 = c.descriptor();
    assert!(d1.unique && d2.unique);
    assert_eq!(d1.tag, String::from(""));
    assert_eq!(d2.tag, String::from("t"));
}
