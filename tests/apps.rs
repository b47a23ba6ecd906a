use quick_launcher::{entries_from_fields, entry_from_fields, launch_target, output_is_blank, parse_app_list, UwpAppInfo};

fn pairs(v: &[UwpAppInfo]) -> Vec<(String, String)> {
    v.iter().map(|a| (a.name.clone(), a.app_id.clone())).collect()
}

#[test]
fn bare_object_parses_to_one_entry() {
    let r = parse_app_list("{\"Name\":\"Calculator\",\"AppID\":\"Microsoft.WindowsCalculator_8wekyb3d8bbwe!App\"}").unwrap();
    assert_eq!(
        pairs(&r),
        vec![("Calculator".to_string(), "Microsoft.WindowsCalculator_8wekyb3d8bbwe!App".to_string())]
    );
}

#[test]
fn empty_name_record_is_dropped_and_fields_trimmed() {
    let r = parse_app_list("[{\"Name\":\" Foo \",\"AppID\":\"x\"},{\"Name\":\"\",\"AppID\":\"y\"}]").unwrap();
    assert_eq!(pairs(&r), vec![("Foo".to_string(), "x".to_string())]);
}

#[test]
fn alternate_id_key_is_read() {
    let r = parse_app_list("[{\"Name\":\"A\",\"AppId\":\"a\"},{\"Name\":\"B\"}]").unwrap();
    assert_eq!(pairs(&r), vec![("A".to_string(), "a".to_string())]);
}

#[test]
fn non_string_fields_are_dropped() {
    let r = parse_app_list("[{\"Name\":3,\"AppID\":\"a\"},{\"Name\":\"B\",\"AppID\":\"b\",\"Extra\":1}]").unwrap();
    assert_eq!(pairs(&r), vec![("B".to_string(), "b".to_string())]);
}

#[test]
fn other_json_values_yield_nothing() {
    assert!(parse_app_list("42").unwrap().is_empty());
    assert!(parse_app_list("\"text\"").unwrap().is_empty());
}

#[test]
fn blank_output_yields_nothing() {
    assert!(parse_app_list("").unwrap().is_empty());
    assert!(parse_app_list("  null \n").unwrap().is_empty());
    assert!(output_is_blank(" \r\n"));
    assert!(!output_is_blank("[]"));
}

#[test]
fn malformed_output_is_an_error() {
    assert!(parse_app_list("{not json").is_err());
}

#[test]
fn entry_needs_both_fields() {
    assert!(entry_from_fields(Some("A"), None).is_none());
    assert!(entry_from_fields(Some("  "), Some("a")).is_none());
    let e = entry_from_fields(Some(" A\t"), Some(" a ")).unwrap();
    assert_eq!((e.name.as_str(), e.app_id.as_str()), ("A", "a"));
}

#[test]
fn entries_keep_order() {
    let fields = vec![
        (Some("B".to_string()), Some("b".to_string())),
        (None, Some("z".to_string())),
        (Some("A".to_string()), Some("a".to_string())),
    ];
    let r = entries_from_fields(&fields);
    assert_eq!(pairs(&r), vec![("B".to_string(), "b".to_string()), ("A".to_string(), "a".to_string())]);
}

#[test]
fn launch_target_is_trimmed_and_prefixed() {
    assert_eq!(launch_target("  Foo!App "), Ok("shell:AppsFolder\\Foo!App".to_string()));
    assert_eq!(launch_target("   "), Err("empty app id".to_string()));
}
