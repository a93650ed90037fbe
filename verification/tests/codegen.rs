use zenoh_raft::raft_core::notification::NotificationName;
use zenoh_raft::send_bounds::{add_send_bounds, TraitFn, TraitItem};
use zenoh_raft::templates::{expand, Template};
use zenoh_raft::variant_names::{NameEnum, NameVariant};

fn tokens(s: &str) -> Vec<String> {
    s.split_whitespace().map(|t| t.to_string()).collect()
}

fn row(values: &[&str]) -> Vec<Vec<String>> {
    values.iter().map(|v| tokens(v)).collect()
}

fn let_template() -> Template {
    Template { variables: tokens("K T V"), body: tokens("let K : T = V ;") }
}

#[test]
fn a_row_with_a_key_that_was_there_is_ignored() {
    let rows = vec![
        row(&["a", "u64", "1"]),
        row(&["b", "String", "\"foo\" . to_string ( )"]),
        row(&["a", "u32", "2"]),
        row(&["c", "Vec < u8 >", "vec ! [ 1 , 2 ]"]),
    ];
    assert_eq!(
        expand(true, &let_template(), &rows).join(" "),
        "let a : u64 = 1 ; let b : String = \"foo\" . to_string ( ) ; \
         let c : Vec < u8 > = vec ! [ 1 , 2 ] ;"
    );
}

#[test]
fn without_keys_every_row_is_rendered() {
    let rows = vec![row(&["c", "u8", "8"]), row(&["c", "u16", "16"])];
    assert_eq!(
        expand(false, &let_template(), &rows).join(" "),
        "let c : u8 = 8 ; let c : u16 = 16 ;"
    );
    assert_eq!(expand(true, &let_template(), &rows).join(" "), "let c : u8 = 8 ;");
    let distinct = vec![row(&["c", "u8", "8"]), row(&["d", "u8", "8"])];
    assert_eq!(
        expand(true, &let_template(), &distinct),
        expand(false, &let_template(), &distinct)
    );
    assert!(expand(true, &let_template(), &vec![]).is_empty());
}

#[test]
fn names_have_dense_indexes() {
    let sm = NameEnum {
        prefix: "SM::".to_string(),
        variants: vec![
            NameVariant::Unit("Build".to_string()),
            NameVariant::Unit("Apply".to_string()),
        ],
    };
    let name = NameEnum {
        prefix: "".to_string(),
        variants: vec![
            NameVariant::Unit("Vote".to_string()),
            NameVariant::Wrap(sm.all()),
            NameVariant::Unit("Respond".to_string()),
        ],
    };
    assert_eq!(name.count(), 4);
    assert_eq!(name.index(1, 1), 2);
    assert_eq!(name.index(2, 0), 3);
    assert_eq!(name.as_str(1, 1), "SM::Apply");
    assert_eq!(name.as_str(0, 0), "Vote");
    assert_eq!(name.all(), vec!["Vote", "SM::Build", "SM::Apply", "Respond"]);
}

#[test]
fn notifications_are_named_by_their_variants() {
    let texts: Vec<&str> = NotificationName::all().iter().map(|n| n.as_str()).collect();
    let names = NameEnum {
        prefix: "".to_string(),
        variants: texts.iter().map(|t| NameVariant::Unit(t.to_string())).collect(),
    };
    assert_eq!(names.all(), texts);
    assert_eq!(names.count(), NotificationName::COUNT);
    for n in NotificationName::all() {
        assert_eq!(n.as_str(), format!("{:?}", n));
        assert_eq!(names.index(n.index(), 0), n.index());
    }
}

#[test]
fn asynchronous_functions_return_futures_that_can_be_sent() {
    let text = |s: &str| Some(s.to_string());
    let f = |asyncness, output, default| TraitItem::Fn(TraitFn { asyncness, output, default });
    let items = vec![
        f(true, text("u8"), text("{ 1 }")),
        f(true, None, None),
        f(false, text("u8"), text("{ 2 }")),
        TraitItem::Other("type T;".to_string()),
    ];
    let done = add_send_bounds(items);
    let expected = vec![
        f(
            false,
            text("impl std::future::Future<Output = u8> + Send"),
            text("{ async move { 1 } }"),
        ),
        f(false, text("impl std::future::Future<Output = ()> + Send"), None),
        f(false, text("u8"), text("{ 2 }")),
        TraitItem::Other("type T;".to_string()),
    ];
    assert_eq!(done, expected);
    assert_eq!(add_send_bounds(done), expected);
}
