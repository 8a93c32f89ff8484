//! The single-slot profile store.
//!
//! [`ProfileStore`] holds the state of the one file slot the store owns:
//! absent, or present with a text and a permission mark. Every save
//! validates the record and writes its canonical pretty-printed
//! re-encoding, never the caller's bytes verbatim; a load distinguishes
//! "never saved" from "present but corrupt". A host binary drives the
//! same decision functions ([`canonicalize_blob`], [`interpret_read`],
//! [`payment_profile_path`]) against the real file system.

use vstd::prelude::*;
use vstd::string::StringExecFns;
use crate::error::{has_context_prefix, lemma_concat_has_prefix, StoreError};
use crate::json::{json_canon, json_normal_form, json_struct_eq, json_valid, check_json,
    normalize_json};
use crate::profile::{decode_profile, encode_profile, profile_fields, profile_json, Profile};

verus! {

/// The file slot as the store sees it: the stored text, and whether the
/// permission-hardening step has restricted the file to its owner.
struct StoredFile {
    text: String,
    owner_only: bool,
}

/// A single-slot store for one payment profile record.
///
/// The slot models the one file the store owns exclusively; it is either
/// absent (never saved) or holds a text. A host that keeps the slot on
/// disk performs each transition the contracts describe through the
/// public decision functions of this module.
pub struct ProfileStore {
    file: Option<StoredFile>,
}

/// What the host's read of the store's file produced: no file, its full
/// contents, or a failure message from the read itself.
pub enum ReadOutcome {
    Absent,
    Contents(String),
    Failure(String),
}

/// Appends the fixed profile file name to the host-supplied application
/// data directory; fails when the host could not supply one.
pub fn payment_profile_path(base_dir: Option<String>) -> (r: Result<String, StoreError>)
    ensures
        base_dir matches Some(d) ==> (r matches Ok(p) && p@ == d@ + "/payment_profile.json"@),
        base_dir is None ==> (r matches Err(e) && e is PathResolution && e.spec_message()
            == "Failed to resolve app data directory"@),
{
    match base_dir {
        Some(dir) => Ok(dir.concat("/payment_profile.json")),
        None => Err(
            StoreError::PathResolution("Failed to resolve app data directory".to_owned()),
        ),
    }
}

/// Validates a caller-supplied record text and returns its canonical
/// pretty-printed re-encoding: the exact bytes a save stores. Succeeds
/// exactly on valid JSON; anything else is a parse failure.
pub fn canonicalize_blob(blob: &str) -> (r: Result<String, StoreError>)
    ensures
        r is Ok <==> json_valid(blob@),
        r matches Ok(t) ==> (t@ == json_canon(blob@) && json_normal_form(t@) == Some(t@)),
        r matches Err(e) ==> (e is Parse && has_context_prefix(
            e.spec_message(),
            "Failed to parse payment profile blob JSON: "@,
        )),
{
    match normalize_json(blob) {
        Ok(text) => Ok(text),
        Err(cause) => {
            proof {
                lemma_concat_has_prefix("Failed to parse payment profile blob JSON: "@, cause@);
            }
            Err(
                StoreError::Parse(
                    "Failed to parse payment profile blob JSON: ".to_owned().concat(
                        cause.as_str(),
                    ),
                ),
            )
        },
    }
}

/// Turns the outcome of the host's read into the store's answer: a
/// missing file is "no profile", not an error; a read failure is an I/O
/// error; contents are returned only when they parse as JSON, and are a
/// parse failure otherwise.
pub fn interpret_read(outcome: ReadOutcome) -> (r: Result<Option<String>, StoreError>)
    ensures
        match outcome {
            ReadOutcome::Absent => r matches Ok(o) && o is None,
            ReadOutcome::Contents(t) => {
                &&& json_valid(t@) ==> (r matches Ok(o) && o matches Some(x) && x@ == t@)
                &&& !json_valid(t@) ==> (r matches Err(e) && e is Parse && has_context_prefix(
                    e.spec_message(),
                    "Failed to parse payment profile file JSON: "@,
                ))
            },
            ReadOutcome::Failure(m) => r matches Err(e) && e is Io && e.spec_message()
                == "Failed to read payment profile file: "@ + m@,
        },
{
    match outcome {
        ReadOutcome::Absent => Ok(None),
        ReadOutcome::Contents(text) => match check_json(text.as_str()) {
            Ok(()) => Ok(Some(text)),
            Err(cause) => {
                proof {
                    lemma_concat_has_prefix(
                        "Failed to parse payment profile file JSON: "@,
                        cause@,
                    );
                }
                Err(
                    StoreError::Parse(
                        "Failed to parse payment profile file JSON: ".to_owned().concat(
                            cause.as_str(),
                        ),
                    ),
                )
            },
        },
        ReadOutcome::Failure(cause) => Err(
            StoreError::Io(
                "Failed to read payment profile file: ".to_owned().concat(cause.as_str()),
            ),
        ),
    }
}

impl ProfileStore {
    /// The stored text, when the slot holds one.
    pub closed spec fn contents(self) -> Option<Seq<char>> {
        match self.file {
            Some(f) => Some(f.text@),
            None => None,
        }
    }

    /// Whether the slot holds a file that the permission-hardening step
    /// has restricted to owner-only read and write.
    pub closed spec fn owner_only(self) -> bool {
        self.file matches Some(f) && f.owner_only
    }

    /// A fresh store: nothing was ever saved.
    pub fn new() -> (s: Self)
        ensures
            s.contents() is None,
    {
        ProfileStore { file: None }
    }

    /// Loads the stored record text. A store that was never saved to
    /// yields "no profile", not an error; a stored text is returned
    /// exactly when it still parses as JSON, and is a parse failure
    /// otherwise.
    pub fn load(&self) -> (r: Result<Option<String>, StoreError>)
        ensures
            match self.contents() {
                None => r matches Ok(o) && o is None,
                Some(t) => {
                    &&& json_valid(t) ==> (r matches Ok(o) && o matches Some(x) && x@ == t)
                    &&& !json_valid(t) ==> (r matches Err(e) && e is Parse && has_context_prefix(
                        e.spec_message(),
                        "Failed to parse payment profile file JSON: "@,
                    ))
                },
            },
    {
        match &self.file {
            None => Ok(None),
            Some(f) => interpret_read(ReadOutcome::Contents(f.text.clone())),
        }
    }

    /// Saves an opaque record text. The text must itself parse as JSON —
    /// validated here, not trusted from the caller — and the slot then
    /// holds its canonical re-encoding, restricted to the owner. A text
    /// that does not parse is rejected with a parse failure and leaves
    /// the slot untouched.
    pub fn save(&mut self, blob: &str) -> (r: Result<(), StoreError>)
        ensures
            json_valid(blob@) ==> r is Ok && final(self).contents() == Some(json_canon(blob@))
                && json_normal_form(json_canon(blob@)) == Some(json_canon(blob@))
                && final(self).owner_only(),
            !json_valid(blob@) ==> (r matches Err(e) && e is Parse && has_context_prefix(
                e.spec_message(),
                "Failed to parse payment profile blob JSON: "@,
            ) && final(self).contents() == old(self).contents() && final(self).owner_only()
                == old(self).owner_only()),
    {
        match canonicalize_blob(blob) {
            Ok(text) => {
                self.file = Some(StoredFile { text, owner_only: true });
                Ok(())
            },
            Err(e) => Err(e),
        }
    }

    /// Saves a typed profile record. Encoding a typed record always
    /// succeeds, the slot then holds its canonical JSON encoding,
    /// restricted to the owner, and decoding that encoding recovers the
    /// record's fields.
    pub fn save_profile(&mut self, profile: &Profile) -> (r: Result<(), StoreError>)
        ensures
            r is Ok,
            final(self).contents() == Some(
                profile_json(
                    profile.card_number@,
                    profile.card_expiration@,
                    profile.zip_code@,
                    profile.license@,
                ),
            ),
            profile_fields(final(self).contents()->Some_0) == Some(
                (
                    profile.card_number@,
                    profile.card_expiration@,
                    profile.zip_code@,
                    profile.license@,
                ),
            ),
            json_valid(final(self).contents()->Some_0),
            final(self).owner_only(),
    {
        let text = encode_profile(profile);
        self.save(text.as_str())
    }

    /// Loads and decodes the stored record as a typed profile. A store
    /// that was never saved to yields "no profile"; a stored text yields
    /// the profile exactly when it is valid JSON carrying the four
    /// required string fields, and is a parse failure otherwise.
    pub fn load_profile(&self) -> (r: Result<Option<Profile>, StoreError>)
        ensures
            match self.contents() {
                None => r matches Ok(o) && o is None,
                Some(t) => match profile_fields(t) {
                    Some(f) => {
                        &&& json_valid(t) ==> (r matches Ok(o) && o matches Some(p)
                            && p.card_number@ == f.0 && p.card_expiration@ == f.1
                            && p.zip_code@ == f.2 && p.license@ == f.3)
                        &&& !json_valid(t) ==> (r matches Err(e) && e is Parse
                            && has_context_prefix(
                                e.spec_message(),
                                "Failed to parse payment profile file JSON: "@,
                            ))
                    },
                    None => r matches Err(e) && e is Parse && has_context_prefix(
                        e.spec_message(),
                        "Failed to parse payment profile file JSON: "@,
                    ),
                },
            },
    {
        match self.load() {
            Err(e) => Err(e),
            Ok(None) => Ok(None),
            Ok(Some(text)) => match decode_profile(text.as_str()) {
                Some(p) => Ok(Some(p)),
                None => {
                    proof {
                        lemma_concat_has_prefix(
                            "Failed to parse payment profile file JSON: "@,
                            "missing or mistyped profile fields"@,
                        );
                    }
                    Err(
                        StoreError::Parse(
                            "Failed to parse payment profile file JSON: ".to_owned().concat(
                                "missing or mistyped profile fields",
                            ),
                        ),
                    )
                },
            },
        }
    }

    /// Puts a text into the slot without validation, re-encoding or
    /// permission hardening, as an external writer bypassing the store
    /// would. The store never does this itself: it exists so that a
    /// caller can bring the slot into the reachable-but-abnormal
    /// "present but corrupt" state and observe how a load surfaces it.
    pub fn external_write(&mut self, text: &str)
        ensures
            final(self).contents() == Some(text@),
            !final(self).owner_only(),
    {
        self.file = Some(StoredFile { text: text.to_owned(), owner_only: false });
    }

    /// The raw stored bytes, exactly as a save or an external writer
    /// left them, or nothing when the slot is absent.
    pub fn raw_contents(&self) -> (r: Option<String>)
        ensures
            r matches Some(t) ==> self.contents() == Some(t@),
            r is None ==> self.contents() is None,
    {
        match &self.file {
            Some(f) => Some(f.text.clone()),
            None => None,
        }
    }

    /// Whether the slot holds a file restricted to owner-only access.
    pub fn is_owner_only(&self) -> (b: bool)
        ensures
            b == self.owner_only(),
    {
        match &self.file {
            Some(f) => f.owner_only,
            None => false,
        }
    }
}

/// Round-trip law: when the slot holds the canonical re-encoding of a
/// saved record — which, as a save ensures, is its own normal form — the
/// text a load returns is structurally equal JSON to the record that was
/// saved.
pub proof fn lemma_save_load_round_trip(blob: Seq<char>, loaded: Seq<char>)
    requires
        json_valid(blob),
        loaded == json_canon(blob),
        json_normal_form(loaded) == Some(loaded),
    ensures
        json_struct_eq(loaded, blob),
{
}

/// Idempotence law: the bytes a successful save stores are a function of
/// the saved record alone, so two saves of the same record — whatever
/// the slots held before — leave byte-identical contents.
pub proof fn lemma_save_idempotent(
    blob: Seq<char>,
    first: Option<Seq<char>>,
    second: Option<Seq<char>>,
)
    requires
        json_valid(blob),
        first == Some(json_canon(blob)),
        second == Some(json_canon(blob)),
    ensures
        first == second,
{
}

} // verus!
