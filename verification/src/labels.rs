use vstd::prelude::*;

verus! {

/// The character sequence that lower-casing a string yields; it depends on
/// the characters of the input alone.
pub uninterp spec fn lower_of(s: Seq<char>) -> Seq<char>;

/// Relies on `str::to_lowercase` of std: returns the input lower-cased,
/// a function of the input characters alone.
#[verifier::external_body]
fn lowercase(s: &str) -> (r: String)
    ensures
        r@ == lower_of(s@),
{
    s.to_lowercase()
}

/// The display label for a sensor whose raw label lower-cases to
/// `lowered`: if `lowered` is one of the known vendor-specific names, the
/// hand-curated friendly replacement; otherwise the raw label `raw`
/// unchanged, in its original casing.
pub open spec fn friendly_label(lowered: Seq<char>, raw: Seq<char>) -> Seq<char> {
    if lowered == "iwlwifi_1 temp1"@ {
        "Wi-Fi Module"@
    } else if lowered == "sensor 1"@ {
        "Sensor 1"@
    } else if lowered == "sensor 2"@ {
        "Sensor 2"@
    } else if lowered == "composite"@ {
        "Chipset"@
    } else if lowered == "edge"@ {
        "GPU (Edge)"@
    } else if lowered == "tctl"@ {
        "CPU (Tctl)"@
    } else {
        raw
    }
}

/// Maps a raw sensor label to its display label: a case-insensitive
/// lookup in the fixed vendor-quirk table, falling back to the raw label
/// verbatim when no entry matches.
pub fn remap_label(raw: &str) -> (out: String)
    ensures
        out@ == friendly_label(lower_of(raw@), raw@),
{
    let lowered = lowercase(raw);
    if lowered == "iwlwifi_1 temp1".to_owned() {
        "Wi-Fi Module".to_owned()
    } else if lowered == "sensor 1".to_owned() {
        "Sensor 1".to_owned()
    } else if lowered == "sensor 2".to_owned() {
        "Sensor 2".to_owned()
    } else if lowered == "composite".to_owned() {
        "Chipset".to_owned()
    } else if lowered == "edge".to_owned() {
        "GPU (Edge)".to_owned()
    } else if lowered == "tctl".to_owned() {
        "CPU (Tctl)".to_owned()
    } else {
        raw.to_owned()
    }
}

/// Every entry of the remap table maps exactly: a label that lower-cases
/// to a table key gets that key's friendly name, whatever its raw casing
/// was.
pub proof fn lemma_friendly_label_table(raw: Seq<char>)
    ensures
        friendly_label("iwlwifi_1 temp1"@, raw) == "Wi-Fi Module"@,
        friendly_label("sensor 1"@, raw) == "Sensor 1"@,
        friendly_label("sensor 2"@, raw) == "Sensor 2"@,
        friendly_label("composite"@, raw) == "Chipset"@,
        friendly_label("edge"@, raw) == "GPU (Edge)"@,
        friendly_label("tctl"@, raw) == "CPU (Tctl)"@,
{
    reveal_strlit("iwlwifi_1 temp1");
    reveal_strlit("sensor 1");
    reveal_strlit("sensor 2");
    reveal_strlit("composite");
    reveal_strlit("edge");
    reveal_strlit("tctl");
    assert("composite"@.len() == 9);
    assert("sensor 1"@.len() == 8);
    assert("iwlwifi_1 temp1"@.len() == 15);
    assert("sensor 1"@[7] == '1');
    assert("sensor 2"@[7] == '2');
    assert("edge"@[0] == 'e');
    assert("tctl"@[0] == 't');
}

/// A label whose lower-cased form matches no table key passes through
/// unchanged, character for character.
pub proof fn lemma_friendly_label_pass_through(lowered: Seq<char>, raw: Seq<char>)
    requires
        lowered != "iwlwifi_1 temp1"@,
        lowered != "sensor 1"@,
        lowered != "sensor 2"@,
        lowered != "composite"@,
        lowered != "edge"@,
        lowered != "tctl"@,
    ensures
        friendly_label(lowered, raw) == raw,
{
}

} // verus!
