use std::path::PathBuf;

use erydian::actions::{FileOpenedAction, FileSavedAction, SchemaCreatedAction};
use erydian::model::{AttrKind, AttrValue};
use erydian::settings::FontSize;
use erydian::view::{topmost_hit, AttrFieldOptions, AttrFieldState};

fn text_of(v: &AttrValue) -> Option<Option<String>> {
    match v {
        AttrValue::Text(t) => Some(t.clone()),
        AttrValue::Bool(_) => None,
    }
}

fn select(options: &[&str], selected: Option<&str>) -> AttrFieldState {
    AttrFieldState::Select {
        options: options.iter().map(|s| s.to_string()).collect(),
        selected: selected.map(|s| s.to_string()),
    }
}

#[test]
fn field_options() {
    assert_eq!(AttrFieldOptions::new().id, None);
    assert_eq!(AttrFieldOptions::new().id("new-mysql-0".to_string()).id, Some("new-mysql-0".to_string()));
}

#[test]
fn field_component_id() {
    assert_eq!(AttrFieldOptions::component_id(&None), "check-box");
    assert_eq!(AttrFieldOptions::component_id(&Some(AttrFieldOptions::new())), "check-box");
    assert_eq!(AttrFieldOptions::component_id(&Some(AttrFieldOptions::new().id("c1".to_string()))), "c1");
}

#[test]
fn field_from_kind() {
    let f = AttrFieldState::from_kind(&AttrKind::Text { default: Some("x".to_string()), multiple_line: false });
    assert!(matches!(f, AttrFieldState::Text(ref s) if s == "x"));
    let f = AttrFieldState::from_kind(&AttrKind::Text { default: None, multiple_line: true });
    assert!(matches!(f, AttrFieldState::MultilineText(ref s) if s.is_empty()));
    let f = AttrFieldState::from_kind(&AttrKind::Select { options: vec!["a".to_string()] });
    assert!(matches!(f, AttrFieldState::Select { ref options, selected: None } if options == &vec!["a".to_string()]));
    let f = AttrFieldState::from_kind(&AttrKind::Bool);
    assert!(matches!(f, AttrFieldState::Bool(false)));
}

#[test]
fn field_value() {
    assert_eq!(text_of(&AttrFieldState::Text("a".to_string()).value()), Some(Some("a".to_string())));
    assert_eq!(text_of(&AttrFieldState::MultilineText("b".to_string()).value()), Some(Some("b".to_string())));
    assert_eq!(text_of(&select(&["c"], None).value()), Some(None));
    assert_eq!(text_of(&select(&["c"], Some("c")).value()), Some(Some("c".to_string())));
    assert!(matches!(AttrFieldState::Bool(true).value(), AttrValue::Bool(true)));
}

#[test]
fn field_set_then_read() {
    let mut f = AttrFieldState::Text(String::new());
    f.set_value(AttrValue::Text(Some("hello".to_string())));
    assert_eq!(text_of(&f.value()), Some(Some("hello".to_string())));
    f.set_value(AttrValue::Text(None));
    assert_eq!(text_of(&f.value()), Some(Some(String::new())));
    f.set_value(AttrValue::Bool(true));
    assert_eq!(text_of(&f.value()), Some(Some(String::new())));

    let mut f = AttrFieldState::MultilineText("x".to_string());
    f.set_value(AttrValue::Text(Some("two\nlines".to_string())));
    assert!(matches!(f, AttrFieldState::MultilineText(ref s) if s == "two\nlines"));

    let mut f = select(&["latin1", "utf8mb4"], None);
    f.set_value(AttrValue::Text(Some("utf8mb4".to_string())));
    assert!(matches!(f, AttrFieldState::Select { selected: Some(ref s), .. } if s == "utf8mb4"));
    assert_eq!(text_of(&f.value()), Some(Some("utf8mb4".to_string())));
    f.set_value(AttrValue::Text(Some("klingon".to_string())));
    assert!(matches!(f, AttrFieldState::Select { selected: None, ref options } if options.len() == 2));
    assert_eq!(text_of(&f.value()), Some(None));
    f.set_value(AttrValue::Text(Some("latin1".to_string())));
    f.set_value(AttrValue::Text(None));
    assert_eq!(text_of(&f.value()), Some(None));
    f.set_value(AttrValue::Text(Some("latin1".to_string())));
    f.set_value(AttrValue::Bool(true));
    assert_eq!(text_of(&f.value()), Some(None));

    let mut f = AttrFieldState::Bool(false);
    f.set_value(AttrValue::Bool(true));
    assert!(matches!(f.value(), AttrValue::Bool(true)));
    f.set_value(AttrValue::Text(Some("yes".to_string())));
    assert!(matches!(f.value(), AttrValue::Bool(false)));
}

#[test]
fn field_clear() {
    let mut f = AttrFieldState::Text("a".to_string());
    f.clear_value();
    assert!(matches!(f, AttrFieldState::Text(ref s) if s.is_empty()));
    let mut f = select(&["a", "b"], Some("a"));
    f.clear_value();
    assert!(matches!(f, AttrFieldState::Select { selected: None, ref options } if options.len() == 2));
    assert_eq!(text_of(&f.value()), Some(None));
    f.clear_value();
    assert_eq!(text_of(&f.value()), Some(None));
    let mut f = select(&["", "b"], Some("b"));
    f.clear_value();
    assert_eq!(text_of(&f.value()), Some(Some(String::new())));
    let mut f = AttrFieldState::Bool(true);
    f.clear_value();
    assert!(matches!(f, AttrFieldState::Bool(false)));
}

#[test]
fn topmost_hit_picks_last() {
    assert_eq!(topmost_hit(&vec![]), None);
    assert_eq!(topmost_hit(&vec![false, false]), None);
    assert_eq!(topmost_hit(&vec![true, false, true, false]), Some(2));
    assert_eq!(topmost_hit(&vec![true]), Some(0));
}

#[test]
fn actions_and_font_size() {
    let a = SchemaCreatedAction { schema_json: "{}".to_string() };
    assert_eq!(a.clone(), a);
    let o = FileOpenedAction { path: PathBuf::from("/tmp/a.erj") };
    assert_eq!(o, FileOpenedAction { path: PathBuf::from("/tmp/a.erj") });
    let s = FileSavedAction { path: PathBuf::from("/tmp/b.erj") };
    assert_eq!(s.path, PathBuf::from("/tmp/b.erj"));
    assert_ne!(FontSize::Small, FontSize::Large);
    assert_eq!(FontSize::Regular, FontSize::Regular);
}
