use deno_bindgen2_common::attr::{Attribute, Marker, Meta};
use deno_bindgen2_common::error::ParseError;

#[test]
fn test_attr() {
    let attr = Attribute::parse_str(
        "#[some_attr]
         #[doc = \"some unknown value\"]
         #[another_attr]",
    )
    .unwrap();
    assert!(attr.markers.is_empty());
    assert_eq!(attr.meta, vec![Meta { lit_str: "some unknown value".to_string() }]);
}

#[test]
fn test_marker() {
    let attr = Attribute::parse_str(
        "#[doc = \"deno_bindgen_constructor\"]
         #[doc = \"deno_bindgen\"]",
    )
    .unwrap();
    assert_eq!(attr.markers, vec![Marker::Constructor, Marker::DenoBindgen]);
    assert!(attr.has_deno_bindgen());
    assert!(!attr.has_non_blocking());
}

#[test]
fn test_cfg_attr() {
    let attr =
        Attribute::parse_str("#[cfg_attr(not(deno_bindgen), doc = \"deno_bindgen_constructor\")]").unwrap();
    assert!(attr.markers.is_empty());
}

#[test]
fn test_live_attr() {
    let attr = Attribute::parse_str("#[constructor]").unwrap();
    assert_eq!(attr.markers, vec![Marker::Constructor]);
    let attr = Attribute::parse_str("#[non_blocking]").unwrap();
    assert!(attr.has_non_blocking());
}

#[test]
fn test_mix_attr_is_refused() {
    let r = Attribute::parse_str("#[outer] #![innter]");
    assert_eq!(r.unwrap_err().error, ParseError::InnerAttribute);
}

#[test]
fn sentinels_round_trip() {
    for m in [Marker::DenoBindgen, Marker::NonBlocking, Marker::Constructor] {
        assert_eq!(Marker::try_from_sentinel(m.sentinel()), Ok(m));
    }
    assert_eq!(Marker::try_from_sentinel("deno_bindgen_unknown"), Err(ParseError::UnknownMarker));
}
