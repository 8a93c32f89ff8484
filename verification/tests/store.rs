use profile_store::profile::Profile;
use profile_store::store::{
    canonicalize_blob, interpret_read, payment_profile_path, ProfileStore, ReadOutcome,
};

#[test]
fn fresh_store_load_absent() {
    let store = ProfileStore::new();
    let loaded = store.load().expect("a fresh store must not fail to load");
    assert!(loaded.is_none());
}

#[test]
fn save_then_load_round_trip() {
    let mut store = ProfileStore::new();
    let blob = "{\"cardNumber\":\"4111111111111111\",  \"nested\": [1, 2, {\"x\": null}]}";
    store.save(blob).expect("saving valid JSON must succeed");
    let loaded = store
        .load()
        .expect("loading after a save must succeed")
        .expect("a saved record must be present");
    let original: serde_json::Value = serde_json::from_str(blob).unwrap();
    let reloaded: serde_json::Value = serde_json::from_str(&loaded).unwrap();
    assert_eq!(original, reloaded);
}

#[test]
fn save_is_idempotent_byte_identical() {
    let mut store = ProfileStore::new();
    let blob = "{\"zipCode\": \"94107\", \"license\": \"ABC123\"}";
    store.save(blob).expect("first save must succeed");
    let first = store.raw_contents().expect("a saved record must be present");
    store.save(blob).expect("second save must succeed");
    let second = store.raw_contents().expect("a saved record must be present");
    assert_eq!(first, second);
}

#[test]
fn save_malformed_fails_and_leaves_previous_contents() {
    let mut store = ProfileStore::new();
    store.save("{\"ok\": true}").expect("saving valid JSON must succeed");
    let before = store.raw_contents().expect("a saved record must be present");
    let err = store.save("{not json").expect_err("malformed JSON must be rejected");
    assert!(err.is_parse());
    assert!(!err.is_io());
    assert!(!err.is_path_resolution());
    let after = store.raw_contents().expect("the previous record must remain");
    assert_eq!(before, after);
}

#[test]
fn save_on_fresh_store_rejects_malformed_and_stores_nothing() {
    let mut store = ProfileStore::new();
    let err = store.save("[1, 2").expect_err("malformed JSON must be rejected");
    assert!(err.is_parse());
    assert!(err.message().starts_with("Failed to parse payment profile blob JSON: "));
    assert!(store.raw_contents().is_none());
}

#[test]
fn save_restricts_file_to_owner() {
    let mut store = ProfileStore::new();
    assert!(!store.is_owner_only());
    store.save("{\"secret\": \"s\"}").expect("saving valid JSON must succeed");
    assert!(store.is_owner_only());
}

#[test]
fn external_write_is_not_owner_restricted() {
    let mut store = ProfileStore::new();
    store.external_write("{}");
    assert!(!store.is_owner_only());
}

#[test]
fn typed_profile_round_trip_scenario() {
    let mut store = ProfileStore::new();
    let profile = Profile {
        card_number: "4111111111111111".to_string(),
        card_expiration: "12/29".to_string(),
        zip_code: "94107".to_string(),
        license: "ABC123".to_string(),
    };
    store.save_profile(&profile).expect("saving a typed profile must succeed");

    let loaded = store
        .load_profile()
        .expect("loading after a save must succeed")
        .expect("a saved record must be present");
    assert_eq!(loaded.card_number, "4111111111111111");
    assert_eq!(loaded.card_expiration, "12/29");
    assert_eq!(loaded.zip_code, "94107");
    assert_eq!(loaded.license, "ABC123");

    let raw = store.raw_contents().expect("a saved record must be present");
    let parsed: serde_json::Value = serde_json::from_str(&raw).expect("the file must be valid JSON");
    assert_eq!(parsed.get("cardNumber").unwrap().as_str().unwrap(), "4111111111111111");
    assert_eq!(parsed.get("cardExpiration").unwrap().as_str().unwrap(), "12/29");
    assert_eq!(parsed.get("zipCode").unwrap().as_str().unwrap(), "94107");
    assert_eq!(parsed.get("license").unwrap().as_str().unwrap(), "ABC123");
    assert!(raw.contains('\n'), "the stored form must be pretty-printed");
}

#[test]
fn typed_profile_stored_form_is_exact_pretty_json() {
    let mut store = ProfileStore::new();
    let profile = Profile {
        card_number: "4111111111111111".to_string(),
        card_expiration: "12/29".to_string(),
        zip_code: "94107".to_string(),
        license: "ABC123".to_string(),
    };
    store.save_profile(&profile).expect("saving a typed profile must succeed");
    let raw = store.raw_contents().expect("a saved record must be present");
    let expected = "{\n  \"cardExpiration\": \"12/29\",\n  \"cardNumber\": \"4111111111111111\",\n  \"license\": \"ABC123\",\n  \"zipCode\": \"94107\"\n}";
    assert_eq!(raw, expected);
}

#[test]
fn fresh_store_then_save_makes_record_present() {
    let mut store = ProfileStore::new();
    assert!(store.load().unwrap().is_none());
    store.save("{\"k\": true}").expect("saving valid JSON must succeed");
    assert!(store.load().unwrap().is_some());
}

#[test]
fn externally_written_invalid_text_surfaces_parse_error_on_load() {
    let mut store = ProfileStore::new();
    store.external_write("{not json");
    let err = store.load().expect_err("corrupt contents must not load silently");
    assert!(err.is_parse());
    assert!(err.message().starts_with("Failed to parse payment profile file JSON: "));
    let err = store
        .load_profile()
        .expect_err("corrupt contents must not load silently");
    assert!(err.is_parse());
    assert!(err.message().starts_with("Failed to parse payment profile file JSON: "));
}

#[test]
fn valid_json_without_profile_fields_fails_typed_load_only() {
    let mut store = ProfileStore::new();
    store.external_write("{\"cardNumber\": \"4111111111111111\"}");
    let opaque = store.load().expect("valid JSON must load as an opaque record");
    assert_eq!(opaque.unwrap(), "{\"cardNumber\": \"4111111111111111\"}");
    let err = store
        .load_profile()
        .expect_err("a record lacking required fields must not decode");
    assert!(err.is_parse());
}

#[test]
fn mistyped_profile_field_fails_typed_load() {
    let mut store = ProfileStore::new();
    store.external_write(
        "{\"cardNumber\": 4111, \"cardExpiration\": \"12/29\", \"zipCode\": \"94107\", \"license\": \"ABC123\"}",
    );
    let err = store
        .load_profile()
        .expect_err("a mistyped required field must not decode");
    assert!(err.is_parse());
}

#[test]
fn path_resolution_appends_fixed_file_name() {
    let path = payment_profile_path(Some("/home/user/.local/share/app".to_string()))
        .expect("a supplied base directory must resolve");
    assert_eq!(path, "/home/user/.local/share/app/payment_profile.json");
}

#[test]
fn path_resolution_fails_without_base_directory() {
    let err = payment_profile_path(None).expect_err("a missing base directory must fail");
    assert!(err.is_path_resolution());
    assert_eq!(err.message(), "Failed to resolve app data directory");
}

#[test]
fn interpret_read_distinguishes_every_outcome() {
    assert!(interpret_read(ReadOutcome::Absent).unwrap().is_none());

    let ok = interpret_read(ReadOutcome::Contents("{\"a\": 1}".to_string())).unwrap();
    assert_eq!(ok.unwrap(), "{\"a\": 1}");

    let err = interpret_read(ReadOutcome::Contents("{not json".to_string()))
        .expect_err("invalid contents must be a parse failure");
    assert!(err.is_parse());

    let err = interpret_read(ReadOutcome::Failure("disk unplugged".to_string()))
        .expect_err("a failed read must be an I/O failure");
    assert!(err.is_io());
    assert_eq!(
        err.message(),
        "Failed to read payment profile file: disk unplugged"
    );
}

#[test]
fn canonicalize_normalizes_formatting() {
    let spaced = "{ \"b\" : 1 ,\n \"a\" : [ true , null ] }";
    let compact = "{\"a\":[true,null],\"b\":1}";
    let canon_spaced = canonicalize_blob(spaced).expect("valid JSON must canonicalize");
    let canon_compact = canonicalize_blob(compact).expect("valid JSON must canonicalize");
    assert_eq!(canon_spaced, canon_compact);
    assert_ne!(canon_spaced, spaced);
    let original: serde_json::Value = serde_json::from_str(spaced).unwrap();
    let canonical: serde_json::Value = serde_json::from_str(&canon_spaced).unwrap();
    assert_eq!(original, canonical);
}

#[test]
fn canonicalize_is_a_fixpoint_on_its_own_output() {
    let canon = canonicalize_blob("{\"x\": [1, {\"y\": \"z\"}]}").unwrap();
    let again = canonicalize_blob(&canon).unwrap();
    assert_eq!(canon, again);
}

#[test]
fn canonicalize_is_a_fixpoint_on_float_bearing_json() {
    // A double whose shortest printed form a best-effort parser reads
    // back one ulp off; the correctly-rounded parser must not.
    let blob = "{\"value\": 51.248178375505404}";
    let canon = canonicalize_blob(blob).unwrap();
    assert!(canon.contains("51.248178375505404"));
    let again = canonicalize_blob(&canon).unwrap();
    assert_eq!(canon, again);

    let mut store = ProfileStore::new();
    store.save(blob).expect("saving valid JSON must succeed");
    let loaded = store.load().unwrap().unwrap();
    let original: serde_json::Value = serde_json::from_str(blob).unwrap();
    let reloaded: serde_json::Value = serde_json::from_str(&loaded).unwrap();
    assert_eq!(original, reloaded);
}

#[test]
fn canonicalize_rejects_invalid_with_cause() {
    let err = canonicalize_blob("\"unterminated").expect_err("invalid JSON must be rejected");
    assert!(err.is_parse());
    assert!(err.message().starts_with("Failed to parse payment profile blob JSON: "));
    assert!(err.message().len() > "Failed to parse payment profile blob JSON: ".len());
}
