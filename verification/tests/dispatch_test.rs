use axum_bindform::bind::{body_payload, dispatch, plan, query_payload, select};
use axum_bindform::media::text_eq;
use axum_bindform::{BindError, Codec, Codecs, MediaType, Payload, Source};

fn media(type_: &str, subtype: &str, suffix: Option<&str>) -> MediaType {
    MediaType {
        type_: type_.to_string(),
        subtype: subtype.to_string(),
        suffix: suffix.map(|s| s.to_string()),
    }
}

#[test]
fn plan_reads_the_three_content_types() {
    let all = Codecs::all();
    assert_eq!(plan(&all, Some("application/json")).unwrap(), Source::Body(Codec::Json));
    assert_eq!(
        plan(&all, Some("application/x-www-form-urlencoded")).unwrap(),
        Source::Body(Codec::UrlEncoded)
    );
    assert_eq!(plan(&all, Some("application/xml")).unwrap(), Source::Body(Codec::Xml));
}

#[test]
fn plan_reads_suffixes_parameters_and_case() {
    let all = Codecs::all();
    assert_eq!(
        plan(&all, Some("application/vnd.api+json")).unwrap(),
        Source::Body(Codec::Json)
    );
    assert_eq!(
        plan(&all, Some("application/atom+xml")).unwrap(),
        Source::Body(Codec::Xml)
    );
    assert_eq!(
        plan(&all, Some("application/json; charset=utf-8")).unwrap(),
        Source::Body(Codec::Json)
    );
    assert_eq!(
        plan(&all, Some("application/xml;charset=\"utf-8\"; a=b")).unwrap(),
        Source::Body(Codec::Xml)
    );
    assert_eq!(
        plan(&all, Some("Application/JSON")).unwrap(),
        Source::Body(Codec::Json)
    );
    assert_eq!(
        plan(&all, Some("application/a+b+x-www-form-urlencoded")).unwrap(),
        Source::Body(Codec::UrlEncoded)
    );
    assert_eq!(
        plan(&all, Some("application/json+zip")).unwrap(),
        Source::Body(Codec::Json)
    );
}

#[test]
fn plan_refuses_other_media_types() {
    let all = Codecs::all();
    for content_type in [
        "text/plain",
        "text/xml",
        "text/json",
        "image/svg+xml",
        "application/octet-stream",
        "application/jsonx",
        "application/zip+jsonx",
        "multipart/form-data; boundary=x",
        "*/*",
    ] {
        assert!(matches!(
            plan(&all, Some(content_type)),
            Err(BindError::InvalidMimeType)
        ));
    }
}

#[test]
fn plan_refuses_what_does_not_parse() {
    let all = Codecs::all();
    for content_type in ["json", "/", "/json", "application /json", "application/json;", "é/json"]
    {
        let planned = plan(&all, Some(content_type));
        if content_type == "application/json;" {
            assert_eq!(planned.unwrap(), Source::Body(Codec::Json));
        } else {
            assert!(matches!(planned, Err(BindError::InvalidMimeType)));
        }
    }
}

#[test]
fn plan_takes_the_query_only_for_an_empty_header() {
    let all = Codecs::all();
    assert_eq!(plan(&all, None).unwrap(), Source::Query);
    assert_eq!(plan(&all, Some("")).unwrap(), Source::Query);
    assert!(matches!(plan(&all, Some(" ")), Err(BindError::InvalidMimeType)));

    let no_form = Codecs { json: true, urlencoded: false, xml: true };
    assert!(matches!(plan(&no_form, None), Err(BindError::InvalidMimeType)));
    assert!(matches!(plan(&no_form, Some("")), Err(BindError::InvalidMimeType)));
}

#[test]
fn plan_skips_a_codec_that_is_off() {
    let only_xml = Codecs { json: false, urlencoded: false, xml: true };
    assert!(matches!(
        plan(&only_xml, Some("application/json")),
        Err(BindError::InvalidMimeType)
    ));
    assert_eq!(
        plan(&only_xml, Some("application/json+xml")).unwrap(),
        Source::Body(Codec::Xml)
    );
    assert_eq!(
        plan(&Codecs::all(), Some("application/json+xml")).unwrap(),
        Source::Body(Codec::Json)
    );
    assert_eq!(
        plan(&Codecs::all(), Some("application/xml+json")).unwrap(),
        Source::Body(Codec::Json)
    );
}

#[test]
fn select_takes_the_first_enabled_codec_that_is_named() {
    let all = Codecs::all();
    assert_eq!(select(&all, &media("application", "json", None)), Some(Codec::Json));
    assert_eq!(select(&all, &media("application", "ld", Some("json"))), Some(Codec::Json));
    assert_eq!(
        select(&all, &media("application", "x-www-form-urlencoded", None)),
        Some(Codec::UrlEncoded)
    );
    assert_eq!(select(&all, &media("application", "xml", None)), Some(Codec::Xml));
    assert_eq!(
        select(&all, &media("application", "xml", Some("x-www-form-urlencoded"))),
        Some(Codec::UrlEncoded)
    );
    assert_eq!(select(&all, &media("text", "json", None)), None);
    assert_eq!(select(&all, &media("application", "JSON", None)), None);
    assert_eq!(select(&all, &media("application", "", None)), None);
    assert_eq!(select(&Codecs::none(), &media("application", "json", None)), None);
}

#[test]
fn media_type_names_codecs_by_subtype_or_suffix() {
    let svg = media("image", "svg", Some("xml"));
    assert!(!svg.names(Codec::Xml));
    let atom = media("application", "atom", Some("xml"));
    assert!(atom.names(Codec::Xml));
    assert!(!atom.names(Codec::Json));
    assert!(!atom.names(Codec::UrlEncoded));
    let both = media("application", "json", Some("xml"));
    assert!(both.names(Codec::Json));
    assert!(both.names(Codec::Xml));
}

#[test]
fn dispatch_refuses_an_absent_media_type() {
    let all = Codecs::all();
    assert!(matches!(dispatch(&all, None), Err(BindError::InvalidMimeType)));
    let json = media("application", "json", None);
    assert_eq!(dispatch(&all, Some(&json)).unwrap(), Source::Body(Codec::Json));
    let plain = media("text", "plain", None);
    assert!(matches!(dispatch(&all, Some(&plain)), Err(BindError::InvalidMimeType)));
}

#[test]
fn codecs_and_their_names() {
    assert_eq!(Codec::Json.name(), "json");
    assert_eq!(Codec::UrlEncoded.name(), "x-www-form-urlencoded");
    assert_eq!(Codec::Xml.name(), "xml");
    let all = Codecs::all();
    assert!(all.has(Codec::Json) && all.has(Codec::UrlEncoded) && all.has(Codec::Xml));
    let none = Codecs::none();
    assert!(!none.has(Codec::Json) && !none.has(Codec::UrlEncoded) && !none.has(Codec::Xml));
    let only_form = Codecs { json: false, urlencoded: true, xml: false };
    assert!(!only_form.has(Codec::Json));
    assert!(only_form.has(Codec::UrlEncoded));
    assert!(!only_form.has(Codec::Xml));
}

#[test]
fn query_payload_is_the_query_or_empty() {
    assert_eq!(query_payload(Some("a=1&b=2")), Payload::Form("a=1&b=2".to_string()));
    assert_eq!(query_payload(Some("")), Payload::Form(String::new()));
    assert_eq!(query_payload(None), Payload::Form(String::new()));
}

#[test]
fn body_payload_frames_the_body_for_the_codec() {
    let body = vec![0x7b, 0xff, 0x00, 0x7d];
    assert_eq!(
        body_payload(Codec::Json, Ok(body.clone())).unwrap(),
        Payload::Json(body.clone())
    );
    assert_eq!(
        body_payload(Codec::Xml, Ok(body.clone())).unwrap(),
        Payload::Xml(body.clone())
    );
    assert_eq!(
        body_payload(Codec::UrlEncoded, Ok(body)).unwrap(),
        Payload::Form(String::new())
    );
    assert_eq!(
        body_payload(Codec::UrlEncoded, Ok("na\u{ef}ve=\u{2603}".as_bytes().to_vec())).unwrap(),
        Payload::Form("na\u{ef}ve=\u{2603}".to_string())
    );
    assert_eq!(
        body_payload(Codec::UrlEncoded, Ok(vec![0xed, 0xa0, 0x80])).unwrap(),
        Payload::Form(String::new())
    );
    assert_eq!(
        body_payload(Codec::UrlEncoded, Ok(Vec::new())).unwrap(),
        Payload::Form(String::new())
    );
}

#[test]
fn text_eq_compares_characters() {
    assert!(text_eq("", ""));
    assert!(text_eq("json", "json"));
    assert!(!text_eq("json", "jsan"));
    assert!(!text_eq("json", "jso"));
    assert!(!text_eq("json", "JSON"));
    assert!(text_eq("\u{2603}", "\u{2603}"));
    assert!(!text_eq("\u{2603}", "\u{2604}"));
}

#[test]
fn parse_reads_type_subtype_and_suffix() {
    assert_eq!(
        MediaType::parse("application/json"),
        Some(media("application", "json", None))
    );
    assert_eq!(
        MediaType::parse("image/svg+xml"),
        Some(media("image", "svg", Some("xml")))
    );
    assert_eq!(
        MediaType::parse("Application/Vnd.Api+JSON; Charset=UTF-8"),
        Some(media("application", "vnd.api", Some("json")))
    );
    assert_eq!(
        MediaType::parse("application/a+b+xml;q=1"),
        Some(media("application", "a+b", Some("xml")))
    );
    assert_eq!(MediaType::parse("*/*"), Some(media("*", "*", None)));
    assert_eq!(MediaType::parse("text/"), Some(media("text", "", None)));
    assert_eq!(MediaType::parse(""), None);
    assert_eq!(MediaType::parse("application"), None);
    assert_eq!(MediaType::parse("/json"), None);
    assert_eq!(MediaType::parse("application/json; charset"), None);
    assert_eq!(MediaType::parse("application/j son"), None);
}

#[test]
fn default_codecs_are_all_on() {
    assert_eq!(Codecs::default(), Codecs::all());
    assert_eq!(Codecs::default(), Codecs { json: true, urlencoded: true, xml: true });
    assert_eq!(Codecs::none(), Codecs { json: false, urlencoded: false, xml: false });
}

/// Every text over `alphabet` of length up to `longest`, each behind `prefix`.
fn texts(prefix: &str, alphabet: &[&str], longest: usize) -> Vec<String> {
    let mut all = vec![prefix.to_string()];
    let mut last = vec![prefix.to_string()];
    for _ in 0..longest {
        let mut next = Vec::new();
        for text in &last {
            for piece in alphabet {
                next.push(format!("{}{}", text, piece));
            }
        }
        all.extend(next.iter().cloned());
        last = next;
    }
    all
}

#[test]
fn parse_answers_on_every_short_text() {
    let alphabet = ["a", "/", ";", "=", "\"", "+", " ", "*", "\u{e9}"];
    let mut parsed = 0usize;
    let mut seen = 0usize;
    for prefix in ["", "a/b;", "a/b; charset=utf-8", "a/b; charset=\"utf-8\"", "a/b+c; x=\""] {
        for text in texts(prefix, &alphabet, 5) {
            seen += 1;
            if let Some(media) = MediaType::parse(&text) {
                parsed += 1;
                assert!(!media.type_.is_empty());
                assert!(text.to_ascii_lowercase().starts_with(&media.type_));
            }
        }
    }
    assert_eq!(seen, 5 * (1 + 9 + 81 + 729 + 6561 + 59049));
    assert!(parsed > 0);
}
