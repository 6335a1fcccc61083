use url_query_cleaner::policy::tracking_filters;
use url_query_cleaner::query::{filtered_query, has_prefix, is_filtered, join_params, retain_unfiltered};
use url_query_cleaner::{clean, clean_parsed, untrack, AllowedMarketingTracking, AllowedTracking};

fn none_allowed() -> AllowedTracking {
    AllowedTracking {
        marketing: AllowedMarketingTracking {
            utm: false,
            gclid: false,
            gclsrc: false,
            fbclid: false,
            mscklid: false,
            zanpid: false,
            dclid: false,
        },
    }
}

fn google_allowed() -> AllowedTracking {
    AllowedTracking {
        marketing: AllowedMarketingTracking {
            utm: false,
            gclid: true,
            gclsrc: true,
            fbclid: false,
            mscklid: false,
            zanpid: false,
            dclid: false,
        },
    }
}

fn pairs(items: &[(&str, &str)]) -> Vec<(String, String)> {
    items.iter().map(|(n, v)| (n.to_string(), v.to_string())).collect()
}

#[test]
fn valid_url_remove_utm() {
    assert_eq!(
        untrack("https://www.example.com/?utm_content=buffercf3b2", none_allowed()).unwrap(),
        "https://www.example.com/"
    );
    assert_eq!(untrack("https://www.example.com/?utm_content=buffercf3b2&utm_medium=social&utm_source=facebook.com&utm_campaign=buffer", none_allowed()).unwrap(), "https://www.example.com/");

    assert_eq!(
        untrack("https://www.example.com?utm_content=buffercf3b2", none_allowed()).unwrap(),
        "https://www.example.com/"
    );
}

#[test]
fn valid_url_remove_utm_mixed() {
    assert_eq!(
        untrack("https://www.example.com/?utm_content=buffercf3b2&name=ferret", none_allowed())
            .unwrap(),
        "https://www.example.com/?name=ferret"
    );
    assert_eq!(untrack("https://www.example.com/?utm_content=buffercf3b2&name=ferret&utm_medium=social&color=purple&utm_source=facebook.com&utm_campaign=buffer", none_allowed()).unwrap(), "https://www.example.com/?name=ferret&color=purple");

    assert_eq!(
        untrack("https://www.example.com?utm_content=buffercf3b2&name=ferret", none_allowed())
            .unwrap(),
        "https://www.example.com/?name=ferret"
    );
}

#[test]
fn valid_url_remove_utm_mixed_with_anchor() {
    assert_eq!(
        untrack(
            "https://www.example.com/?utm_content=buffercf3b2&name=ferret&gclid=someid#dope",
            none_allowed()
        )
        .unwrap(),
        "https://www.example.com/?name=ferret#dope"
    );
}

#[test]
fn valid_url_remove_all_mixed_except_google() {
    assert_eq!(
        untrack(
            "https://www.example.com/?utm_content=buffercf3b2&name=ferret&gclid=someid",
            google_allowed()
        )
        .unwrap(),
        "https://www.example.com/?name=ferret&gclid=someid"
    );
    assert_eq!(untrack("https://www.example.com/?utm_content=buffercf3b2&name=ferret&utm_medium=social&gclsrc=somesrc&color=purple&utm_source=facebook.com&utm_campaign=buffer", google_allowed()).unwrap(), "https://www.example.com/?name=ferret&gclsrc=somesrc&color=purple");

    assert_eq!(
        untrack(
            "https://www.example.com?utm_content=buffercf3b2&name=ferret&mscklid=somemsid",
            google_allowed()
        )
        .unwrap(),
        "https://www.example.com/?name=ferret"
    );
}

#[test]
#[should_panic]
fn invalid_url() {
    assert_eq!(untrack("http://[:::1]/", none_allowed()).unwrap(), "asdf");
}

#[test]
fn clean_removes_utm_prefix() {
    assert_eq!(
        clean("https://www.example.com/?utm_content=buffercf3b2&name=ferret", vec!["utm_"]).unwrap(),
        "https://www.example.com/?name=ferret"
    );
}

#[test]
fn clean_skips_empty_segment_and_removes_names() {
    assert_eq!(
        clean("https://www.example.com/?&name=ferret&troop=12&item=vase", vec!["name", "troop"])
            .unwrap(),
        "https://www.example.com/?item=vase"
    );
}

#[test]
fn untrack_all_flags_false_drops_query() {
    assert_eq!(
        untrack("https://www.example.com/?utm_content=x", AllowedTracking::default()).unwrap(),
        "https://www.example.com/"
    );
}

#[test]
fn untrack_keeps_allowed_gclid() {
    let mut opts = AllowedTracking::default();
    opts.marketing.gclid = true;
    assert_eq!(
        untrack("https://www.example.com/?utm_content=x&name=y&gclid=z", opts).unwrap(),
        "https://www.example.com/?name=y&gclid=z"
    );
}

#[test]
fn clean_keeps_fragment() {
    assert_eq!(
        clean("https://www.example.com/?utm_content=x&name=y&gclid=z#dope", vec!["utm_"]).unwrap(),
        "https://www.example.com/?name=y&gclid=z#dope"
    );
}

#[test]
fn clean_keeps_path_and_fragment() {
    assert_eq!(
        clean("https://example.org/a/b/c.html?utm_x=1&k=v#part", vec!["utm_"]).unwrap(),
        "https://example.org/a/b/c.html?k=v#part"
    );
    assert_eq!(
        clean("https://example.org/a/b?utm_x=1#part", vec!["utm_"]).unwrap(),
        "https://example.org/a/b#part"
    );
}

#[test]
fn prefix_filter_removes_longer_names() {
    assert_eq!(
        clean("https://example.org/?a&ab=1&abc=2", vec!["ab"]).unwrap(),
        "https://example.org/?a="
    );
    assert!(!is_filtered("a", &vec!["ab"]));
    assert!(is_filtered("ab", &vec!["ab"]));
    assert!(is_filtered("abc", &vec!["ab"]));
}

#[test]
fn all_filtered_leaves_no_question_mark() {
    let r = clean("https://example.org/p?x=1&y=2", vec!["x", "y"]).unwrap();
    assert_eq!(r, "https://example.org/p");
    assert!(!r.contains('?'));
}

#[test]
fn unmatched_filters_equal_no_filters() {
    let url = "https://example.org/p?x=1&y=2#f";
    let none: Vec<&str> = Vec::new();
    assert_eq!(clean(url, vec!["zz", "q"]).unwrap(), clean(url, none).unwrap());
    assert_eq!(clean(url, vec!["zz"]).unwrap(), "https://example.org/p?x=1&y=2#f");
}

#[test]
fn bare_host_gains_slash() {
    let none: Vec<&str> = Vec::new();
    assert_eq!(clean("https://example.org", none).unwrap(), "https://example.org/");
}

#[test]
fn more_filters_keep_fewer() {
    let url = "https://example.org/?a=1&b=2&c=3";
    assert_eq!(clean(url, vec!["a"]).unwrap(), "https://example.org/?b=2&c=3");
    assert_eq!(clean(url, vec!["a", "c"]).unwrap(), "https://example.org/?b=2");
}

#[test]
fn unparseable_url_gives_parse_error() {
    assert_eq!(
        clean("http://[:::1]/", vec!["utm_"]),
        Err(url::ParseError::InvalidIpv6Address)
    );
    assert_eq!(
        clean("not a url", vec!["utm_"]),
        Err(url::ParseError::RelativeUrlWithoutBase)
    );
}

#[test]
fn clean_parsed_passes_error_on() {
    let parsed = url::Url::parse("http://[:::1]/");
    assert_eq!(clean_parsed(parsed, &vec!["x"]), Err(url::ParseError::InvalidIpv6Address));
    let parsed = url::Url::parse("https://example.org/?x=1&y=2");
    assert_eq!(clean_parsed(parsed, &vec!["x"]).unwrap(), "https://example.org/?y=2");
}

#[test]
fn decoded_values_are_written_back() {
    assert_eq!(
        clean("https://example.org/?q=a+b&utm_source=z", vec!["utm_"]).unwrap(),
        "https://example.org/?q=a%20b"
    );
}

#[test]
fn has_prefix_cases() {
    assert!(has_prefix("utm_source", "utm_"));
    assert!(has_prefix("abc", ""));
    assert!(has_prefix("abc", "abc"));
    assert!(!has_prefix("ab", "abc"));
    assert!(!has_prefix("utmost", "utm_"));
}

#[test]
fn is_filtered_with_no_filters() {
    assert!(!is_filtered("anything", &Vec::new()));
}

#[test]
fn retain_and_join() {
    let p = pairs(&[("a", "1"), ("utm_x", "2"), ("b", ""), ("a", "3")]);
    let kept = retain_unfiltered(&p, &vec!["utm_"]);
    assert_eq!(kept, pairs(&[("a", "1"), ("b", ""), ("a", "3")]));
    assert_eq!(join_params(&kept), "a=1&b=&a=3");
    assert_eq!(join_params(&Vec::new()), "");
}

#[test]
fn filtered_query_cases() {
    let p = pairs(&[("utm_a", "1"), ("k", "v")]);
    assert_eq!(filtered_query(&p, &vec!["utm_"]), Some("k=v".to_string()));
    assert_eq!(filtered_query(&p, &vec!["utm_", "k"]), None);
    assert_eq!(filtered_query(&Vec::new(), &vec!["utm_"]), None);
}

#[test]
fn tracking_filters_by_policy() {
    assert_eq!(
        tracking_filters(AllowedTracking::default()),
        vec!["utm_", "gclid", "gclsrc", "dclid", "fbclid", "mscklid", "zanpid"]
    );
    assert_eq!(
        tracking_filters(google_allowed()),
        vec!["utm_", "dclid", "fbclid", "mscklid", "zanpid"]
    );
    let mut all = AllowedTracking::default();
    all.marketing = AllowedMarketingTracking {
        utm: true,
        gclid: true,
        gclsrc: true,
        dclid: true,
        fbclid: true,
        mscklid: true,
        zanpid: true,
    };
    assert!(tracking_filters(all).is_empty());
}
