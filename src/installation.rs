use vstd::prelude::*;
use vstd::string::*;
use uuid::Uuid;

verus! {

/// Key under which older versions stored the installation identifier.
pub const LEGACY_INSTALLATION_ID_KEY: &'static str = "device_id";

/// Key under which the installation identifier is stored.
pub const INSTALLATION_ID_KEY: &'static str = "installation_id";

/// The identifier of this installation, and what to write to the key-value
/// store to keep it.
#[derive(Debug)]
pub struct InstallationId {
    /// The identifier.
    pub id: String,
    /// Whether it was found in the store rather than made now.
    pub existing: bool,
    /// Whether `id` is written under `INSTALLATION_ID_KEY`.
    pub store: bool,
    /// Whether the entry under `LEGACY_INSTALLATION_ID_KEY` is deleted.
    pub delete_legacy: bool,
}

/// Whether `c` is a digit of lower-case hexadecimal.
pub open spec fn is_lower_hex(c: char) -> bool {
    ('0' <= c && c <= '9') || ('a' <= c && c <= 'f')
}

/// Whether `s` is a UUID in its hyphenated form: 32 lower-case hexadecimal
/// digits in groups of 8, 4, 4, 4 and 12, separated by hyphens.
pub open spec fn is_hyphenated_uuid(s: Seq<char>) -> bool {
    &&& s.len() == 36
    &&& forall|i: int|
        0 <= i < 36 ==> if i == 8 || i == 13 || i == 18 || i == 23 {
            s[i] == '-'
        } else {
            is_lower_hex(#[trigger] s[i])
        }
}

#[verifier::external_type_specification]
#[verifier::external_body]
pub struct ExUuid(Uuid);

/// Relies on uuid::Uuid::new_v4 for a random identifier; nothing is known of
/// its value.
pub assume_specification[ Uuid::new_v4 ]() -> Uuid;

/// Relies on the `Display` impl of uuid::Uuid, which writes the hyphenated,
/// lower-case form.
#[verifier::external_body]
fn uuid_text(u: &Uuid) -> (r: String)
    ensures
        is_hyphenated_uuid(r@),
{
    u.to_string()
}

/// Whether a read of the store found a value.
pub open spec fn found<E>(read: Result<Option<String>, E>) -> bool {
    read matches Ok(Some(_))
}

/// The value that a read of the store found.
pub open spec fn found_value<E>(read: Result<Option<String>, E>) -> Seq<char>
    recommends
        found(read),
{
    match read {
        Ok(Some(v)) => v@,
        _ => Seq::empty(),
    }
}

/// Settles the installation identifier from the reads of the legacy and the
/// current key (a failed read counts as finding nothing), with `fresh` as
/// the identifier to use if neither holds one. A legacy identifier wins and
/// is moved to the current key; else a current one is kept as it is; else
/// `fresh` is stored as a new identifier.
pub fn installation_id_for<E, F>(
    legacy: Result<Option<String>, E>,
    current: Result<Option<String>, F>,
    fresh: String,
) -> (r: InstallationId)
    ensures
        found(legacy) ==> r.id@ == found_value(legacy) && r.existing && r.store
            && r.delete_legacy,
        !found(legacy) && found(current) ==> r.id@ == found_value(current) && r.existing
            && !r.store && !r.delete_legacy,
        !found(legacy) && !found(current) ==> r.id == fresh && !r.existing && r.store
            && !r.delete_legacy,
{
    match legacy {
        Ok(Some(id)) => {
            return InstallationId { id, existing: true, store: true, delete_legacy: true };
        },
        _ => {},
    }
    match current {
        Ok(Some(id)) => InstallationId { id, existing: true, store: false, delete_legacy: false },
        _ => InstallationId { id: fresh, existing: false, store: true, delete_legacy: false },
    }
}

/// Settles the installation identifier as `installation_id_for` does,
/// making a new random identifier only when the store holds none.
pub fn installation_id<E, F>(legacy: Result<Option<String>, E>, current: Result<
    Option<String>,
    F,
>) -> (r: InstallationId)
    ensures
        found(legacy) ==> r.id@ == found_value(legacy) && r.existing && r.store
            && r.delete_legacy,
        !found(legacy) && found(current) ==> r.id@ == found_value(current) && r.existing
            && !r.store && !r.delete_legacy,
        !found(legacy) && !found(current) ==> is_hyphenated_uuid(r.id@) && !r.existing
            && r.store && !r.delete_legacy,
{
    let stored = (legacy matches Ok(Some(_))) || (current matches Ok(Some(_)));
    if stored {
        installation_id_for(legacy, current, String::new())
    } else {
        let u = Uuid::new_v4();
        installation_id_for(legacy, current, uuid_text(&u))
    }
}

} // verus!
