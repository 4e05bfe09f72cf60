use pwacc::dict::Dict;
use pwacc::matching::{
    patterns_to_regexes, pw_node_is_readable, pw_node_matches_regexes, pw_object_is_node,
    string_matches_any_pattern, try_patterns_to_regexes, Pattern,
};
use pwacc::object::{GlobalObject, ObjectType};

fn dict(pairs: &[(&str, &str)]) -> Dict {
    Dict { entries: pairs.iter().map(|(k, v)| (k.to_string(), v.to_string())).collect() }
}

fn node(id: u32, pairs: &[(&str, &str)]) -> GlobalObject {
    GlobalObject { id, type_: ObjectType::Node, props: Some(dict(pairs)) }
}

fn strings(v: &[&str]) -> Vec<String> {
    v.iter().map(|s| s.to_string()).collect()
}

#[test]
fn pattern_keeps_its_text() {
    let p = Pattern::new("^fire.*").unwrap();
    assert_eq!(p.source(), "^fire.*");
    assert!(p.is_match("firefox"));
    assert!(!p.is_match("chromium"));
}

#[test]
fn invalid_pattern_is_refused() {
    let e = Pattern::new("(unclosed").unwrap_err();
    assert_eq!(e.pattern, "(unclosed");
}

#[test]
fn patterns_compile_in_order() {
    let ps = patterns_to_regexes(&strings(&["a", "b+", "^c$"]));
    assert_eq!(ps.len(), 3);
    assert_eq!(ps[0].source(), "a");
    assert_eq!(ps[1].source(), "b+");
    assert_eq!(ps[2].source(), "^c$");
}

#[test]
fn try_patterns_reports_first_invalid() {
    let r = try_patterns_to_regexes(&strings(&["ok", "[bad", "(worse"]));
    assert_eq!(r.unwrap_err().pattern, "[bad");
    let r = try_patterns_to_regexes(&strings(&["ok", "fine"]));
    assert_eq!(r.unwrap().len(), 2);
    let r = try_patterns_to_regexes(&strings(&[]));
    assert_eq!(r.unwrap().len(), 0);
}

#[test]
fn string_matches_any() {
    let ps = patterns_to_regexes(&strings(&["^spot", "mpv"]));
    assert!(string_matches_any_pattern("spotify".to_string(), &ps));
    assert!(string_matches_any_pattern("the mpv player".to_string(), &ps));
    assert!(!string_matches_any_pattern("a spotter".to_string(), &ps));
    assert!(!string_matches_any_pattern("anything".to_string(), &Vec::new()));
}

#[test]
fn node_matched_by_application_name() {
    let ps = patterns_to_regexes(&strings(&["Firefox"]));
    let n = node(40, &[("application.name", "Firefox"), ("node.description", "Web")]);
    assert!(pw_node_matches_regexes(&n, &ps, false));
    let n = node(41, &[("application.name", "mpv"), ("node.description", "Firefox audio")]);
    assert!(!pw_node_matches_regexes(&n, &ps, false));
}

#[test]
fn node_matched_by_description_when_asked() {
    let ps = patterns_to_regexes(&strings(&["Firefox"]));
    let n = node(41, &[("application.name", "mpv"), ("node.description", "Firefox audio")]);
    assert!(pw_node_matches_regexes(&n, &ps, true));
    let n = node(42, &[("node.description", "Firefox audio")]);
    assert!(!pw_node_matches_regexes(&n, &ps, false));
    assert!(pw_node_matches_regexes(&n, &ps, true));
}

#[test]
fn node_without_application_name_is_not_matched() {
    let ps = patterns_to_regexes(&strings(&[".*"]));
    let n = node(43, &[("media.class", "Audio/Sink")]);
    assert!(!pw_node_matches_regexes(&n, &ps, false));
}

#[test]
fn first_entry_of_a_key_counts() {
    let ps = patterns_to_regexes(&strings(&["^one$"]));
    let n = node(44, &[("application.name", "one"), ("application.name", "two")]);
    assert!(pw_node_matches_regexes(&n, &ps, false));
    let n = node(45, &[("application.name", "two"), ("application.name", "one")]);
    assert!(!pw_node_matches_regexes(&n, &ps, false));
}

#[test]
fn readable_nodes_are_audio_output_streams() {
    assert!(pw_node_is_readable(&node(1, &[("media.class", "Stream/Output/Audio")])));
    assert!(!pw_node_is_readable(&node(2, &[("media.class", "Audio/Sink")])));
    assert!(!pw_node_is_readable(&node(3, &[])));
    let bare = GlobalObject { id: 4, type_: ObjectType::Node, props: None };
    assert!(!pw_node_is_readable(&bare));
}

#[test]
fn object_kinds() {
    assert!(pw_object_is_node(&node(1, &[])));
    let port = GlobalObject { id: 2, type_: ObjectType::Port, props: None };
    assert!(!pw_object_is_node(&port));
}
