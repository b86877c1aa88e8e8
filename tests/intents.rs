use mobile_sharetarget::{
    extract_android_intent_extra, extract_deep_link_scheme, extract_ios_shared_url,
    pop_and_extract_text_intent, pop_intent, push_new_intent, ConfigValue, ExtractError, GetPdf,
    IntentQueue, MobilePlatform, MobileSharetarget, SchemeCell, SchemeConfigError,
    TEXT_INTENT_KEY,
};

#[test]
fn test_android_extract() {
    let input = r"#Intent;action=android.intent.action.SEND;type=text\/plain;launchFlags=0x13400000;extendedLaunchFlags=0x4;component=com.tauri.dev\/.MainActivity;S.android.intent.extra.SUBJECT=The%20most%20serious%20conspiracy%20in%20French%20tech;S.android.intent.extra.TEXT=https%3A%2F%2Fyoutube.com%2Fwatch%3Fv%3D2wMxldl3Alk%26si%3Da-EfIBdz_xvHK5Bk;end";
    let result = extract_android_intent_extra(input, TEXT_INTENT_KEY);
    assert_eq!(
        result.unwrap(),
        "https%3A%2F%2Fyoutube.com%2Fwatch%3Fv%3D2wMxldl3Alk%26si%3Da-EfIBdz_xvHK5Bk"
    )
}

#[test]
fn android_extract_keeps_percent_encoding() {
    let input = "#Intent;S.android.intent.extra.TEXT=hello%20world;end";
    assert_eq!(
        extract_android_intent_extra(input, TEXT_INTENT_KEY),
        Some("hello%20world".to_string())
    );
}

#[test]
fn android_extract_absent_key() {
    let input = "#Intent;action=android.intent.action.SEND;S.android.intent.extra.SUBJECT=x;end";
    assert_eq!(extract_android_intent_extra(input, TEXT_INTENT_KEY), None);
    assert_eq!(extract_android_intent_extra("", TEXT_INTENT_KEY), None);
}

#[test]
fn android_extract_skips_other_shapes() {
    // wrong type prefix, key without `=`, then the real one
    let input = "i.android.intent.extra.TEXT=1;S.android.intent.extra.TEXT;S.android.intent.extra.TEXT=ok";
    assert_eq!(
        extract_android_intent_extra(input, TEXT_INTENT_KEY),
        Some("ok".to_string())
    );
}

#[test]
fn android_extract_first_match_wins() {
    let input = "S.k=first;S.k=second";
    assert_eq!(extract_android_intent_extra(input, "k"), Some("first".to_string()));
}

#[test]
fn android_extract_empty_value_and_prefix_not_mid_segment() {
    assert_eq!(extract_android_intent_extra("S.k=", "k"), Some(String::new()));
    assert_eq!(extract_android_intent_extra("xS.k=v", "k"), None);
    assert_eq!(extract_android_intent_extra("a;S.k=v=w;b", "k"), Some("v=w".to_string()));
}

#[test]
fn ios_extract_strips_prefix() {
    assert_eq!(
        extract_ios_shared_url("myscheme://share?url=https%3A%2F%2Fexample.com", "myscheme"),
        Some("https%3A%2F%2Fexample.com".to_string())
    );
}

#[test]
fn ios_extract_without_prefix_is_absent() {
    assert_eq!(extract_ios_shared_url("other://share?url=x", "myscheme"), None);
    assert_eq!(extract_ios_shared_url("myscheme://share", "myscheme"), None);
}

#[test]
fn ios_pop_without_prefix_is_an_error() {
    let mut q = IntentQueue::new();
    let mut scheme = SchemeCell::new();
    scheme.set("myscheme".to_string()).unwrap();
    push_new_intent(&mut q, "https://example.com".to_string());
    match pop_and_extract_text_intent(&mut q, MobilePlatform::Ios, &scheme) {
        Err(ExtractError::MalformedShareLink(raw)) => assert_eq!(raw, "https://example.com"),
        other => panic!("unexpected {:?}", other),
    }
    assert_eq!(pop_intent(&mut q), None);
}

#[test]
fn ios_pop_extracts_url() {
    let mut q = IntentQueue::new();
    let mut scheme = SchemeCell::new();
    scheme.set("myscheme".to_string()).unwrap();
    push_new_intent(&mut q, "myscheme://share?url=https%3A%2F%2Fexample.com".to_string());
    assert_eq!(
        pop_and_extract_text_intent(&mut q, MobilePlatform::Ios, &scheme).unwrap(),
        Some("https%3A%2F%2Fexample.com".to_string())
    );
    assert_eq!(
        pop_and_extract_text_intent(&mut q, MobilePlatform::Ios, &scheme).unwrap(),
        None
    );
}

#[test]
fn ios_pop_without_scheme_keeps_queue() {
    let mut q = IntentQueue::new();
    let scheme = SchemeCell::new();
    push_new_intent(&mut q, "myscheme://share?url=a".to_string());
    assert!(matches!(
        pop_and_extract_text_intent(&mut q, MobilePlatform::Ios, &scheme),
        Err(ExtractError::SchemeNotSet)
    ));
    assert_eq!(pop_intent(&mut q), Some("myscheme://share?url=a".to_string()));
}

#[test]
fn android_pop_extracts_text() {
    let mut q = IntentQueue::new();
    let scheme = SchemeCell::new();
    push_new_intent(&mut q, "#Intent;S.android.intent.extra.TEXT=hi;end".to_string());
    push_new_intent(&mut q, "#Intent;end".to_string());
    assert_eq!(
        pop_and_extract_text_intent(&mut q, MobilePlatform::Android, &scheme).unwrap(),
        Some("hi".to_string())
    );
    assert_eq!(
        pop_and_extract_text_intent(&mut q, MobilePlatform::Android, &scheme).unwrap(),
        None
    );
    assert_eq!(pop_intent(&mut q), None);
}

#[test]
fn pushes_then_pops_in_order() {
    let mut q = IntentQueue::new();
    let values: Vec<String> = (0..50).map(|i| format!("intent-{}", i)).collect();
    for v in &values {
        push_new_intent(&mut q, v.clone());
    }
    for v in &values {
        assert_eq!(pop_intent(&mut q).as_ref(), Some(v));
    }
    assert_eq!(pop_intent(&mut q), None);
}

#[test]
fn pop_empty_is_absent() {
    let mut q = IntentQueue::new();
    assert_eq!(q.pop(), None);
    assert_eq!(q.pop(), None);
}

#[test]
fn interleaved_producers_and_consumers_lose_nothing() {
    let mut q = IntentQueue::new();
    let mut popped: Vec<String> = Vec::new();
    let producers = 4;
    let per_producer = 25;
    for round in 0..per_producer {
        for p in 0..producers {
            q.push(format!("p{}-{}", p, round));
        }
        // two consumers take one each per round
        for _ in 0..2 {
            if let Some(s) = q.pop() {
                popped.push(s);
            }
        }
    }
    while let Some(s) = q.pop() {
        popped.push(s);
    }
    assert_eq!(popped.len(), producers * per_producer);
    let mut sorted = popped.clone();
    sorted.sort();
    sorted.dedup();
    assert_eq!(sorted.len(), producers * per_producer);
}

#[test]
fn scheme_is_set_once() {
    let mut cell = SchemeCell::new();
    assert!(!cell.is_set());
    assert_eq!(cell.get(), None);
    assert_eq!(cell.set("myscheme".to_string()), Ok(()));
    assert_eq!(cell.get(), Some(&"myscheme".to_string()));
    assert_eq!(cell.set("other".to_string()), Err("other".to_string()));
    assert_eq!(cell.get(), Some(&"myscheme".to_string()));
}

#[test]
fn desktop_facade_has_nothing() {
    let mut plugin = MobileSharetarget::new(None);
    plugin.push_intent("S.android.intent.extra.TEXT=x".to_string());
    assert_eq!(plugin.get_latest_intent(), None);
    assert!(matches!(plugin.get_latest_intent_and_extract_text(), Ok(None)));
    assert!(GetPdf::new().check_pending_intent().is_none());
}

#[test]
fn mobile_facade_pops() {
    let mut plugin = MobileSharetarget::new(Some(MobilePlatform::Ios));
    assert_eq!(plugin.set_deep_link_scheme("app".to_string()), Ok(()));
    assert_eq!(plugin.set_deep_link_scheme("b".to_string()), Err("b".to_string()));
    plugin.push_intent("first".to_string());
    plugin.push_intent("app://share?url=u".to_string());
    assert_eq!(plugin.get_latest_intent(), Some("first".to_string()));
    assert_eq!(plugin.get_latest_intent_and_extract_text().unwrap(), Some("u".to_string()));
    assert_eq!(plugin.get_latest_intent(), None);
}

fn obj(entries: Vec<(&str, ConfigValue)>) -> ConfigValue {
    ConfigValue::Object(entries.into_iter().map(|(k, v)| (k.to_string(), v)).collect())
}

fn plugins_with(deep_link: ConfigValue) -> Vec<(String, ConfigValue)> {
    vec![
        ("other".to_string(), ConfigValue::Null),
        ("deep-link".to_string(), deep_link),
    ]
}

#[test]
fn deep_link_scheme_read() {
    let dl = obj(vec![(
        "mobile",
        ConfigValue::Array(vec![obj(vec![
            ("host", ConfigValue::Str("h".to_string())),
            (
                "scheme",
                ConfigValue::Array(vec![
                    ConfigValue::Str("myscheme".to_string()),
                    ConfigValue::Str("second".to_string()),
                ]),
            ),
        ])]),
    )]);
    assert_eq!(extract_deep_link_scheme(&plugins_with(dl)), Ok("myscheme".to_string()));
}

#[test]
fn deep_link_scheme_errors() {
    assert_eq!(extract_deep_link_scheme(&vec![]), Err(SchemeConfigError::MissingDeepLink));
    assert_eq!(
        extract_deep_link_scheme(&plugins_with(obj(vec![]))),
        Err(SchemeConfigError::MissingMobile)
    );
    assert_eq!(
        extract_deep_link_scheme(&plugins_with(ConfigValue::Bool(true))),
        Err(SchemeConfigError::MissingMobile)
    );
    assert_eq!(
        extract_deep_link_scheme(&plugins_with(obj(vec![("mobile", ConfigValue::Null)]))),
        Err(SchemeConfigError::MobileNotArray)
    );
    assert_eq!(
        extract_deep_link_scheme(&plugins_with(obj(vec![("mobile", ConfigValue::Array(vec![]))]))),
        Err(SchemeConfigError::MobileEmpty)
    );
    let mobile = |m: ConfigValue| plugins_with(obj(vec![("mobile", ConfigValue::Array(vec![m]))]));
    assert_eq!(
        extract_deep_link_scheme(&mobile(obj(vec![]))),
        Err(SchemeConfigError::MissingScheme)
    );
    assert_eq!(
        extract_deep_link_scheme(&mobile(obj(vec![(
            "scheme",
            ConfigValue::Str("x".to_string())
        )]))),
        Err(SchemeConfigError::SchemeNotArray)
    );
    assert_eq!(
        extract_deep_link_scheme(&mobile(obj(vec![("scheme", ConfigValue::Array(vec![]))]))),
        Err(SchemeConfigError::SchemeEmpty)
    );
    assert_eq!(
        extract_deep_link_scheme(&mobile(obj(vec![(
            "scheme",
            ConfigValue::Array(vec![ConfigValue::Number("1".to_string())])
        )]))),
        Err(SchemeConfigError::SchemeNotString)
    );
}

#[test]
fn ios_pop_empty_without_scheme_is_absent() {
    let mut q = IntentQueue::new();
    let scheme = SchemeCell::new();
    assert!(q.is_empty());
    assert!(matches!(
        pop_and_extract_text_intent(&mut q, MobilePlatform::Ios, &scheme),
        Ok(None)
    ));
    let mut plugin = MobileSharetarget::new(Some(MobilePlatform::Ios));
    assert!(matches!(plugin.get_latest_intent_and_extract_text(), Ok(None)));
    push_new_intent(&mut q, "x".to_string());
    assert!(!q.is_empty());
}
