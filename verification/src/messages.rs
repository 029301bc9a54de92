use vstd::prelude::*;

verus! {

/// Number of characters in a freshly drawn deduplication identity: the
/// hyphenated rendering of a random 128-bit identifier.
pub const DEDUPLICATION_ID_LEN: usize = 36;

/// One message pulled from the source queue.
///
/// The acknowledgment token may be absent (a delivery inconsistency); such a
/// message is skipped by the engine and left on the source queue.
pub struct FetchedMessage {
    pub identity: String,
    pub acknowledgment_token: Option<String>,
    pub body: String,
}

/// The outbound copy of one fetched message, created immediately before a
/// send call and discarded after it returns.
pub struct TransferRecord {
    pub body: String,
    pub deduplication_id: String,
    pub group_id: String,
}

/// Spec-level image of a transfer record.
pub struct RecordView {
    pub body: Seq<char>,
    pub deduplication_id: Seq<char>,
    pub group_id: Seq<char>,
}

impl View for TransferRecord {
    type V = RecordView;

    open spec fn view(&self) -> RecordView {
        RecordView {
            body: self.body@,
            deduplication_id: self.deduplication_id@,
            group_id: self.group_id@,
        }
    }
}

/// Relies on `uuid::Uuid::new_v4` for a fresh random 128-bit identifier and on
/// `Uuid`'s `Display` impl, which renders it in the 36-character hyphenated
/// form.  The value is random, so nothing is assumed of it beyond its length:
/// two calls may (with negligible probability) return the same string.
#[verifier::external_body]
fn fresh_deduplication_id() -> (r: String)
    ensures
        r@.len() == DEDUPLICATION_ID_LEN,
{
    uuid::Uuid::new_v4().to_string()
}

impl TransferRecord {
    /// Maps one message body to its outbound record: the body and the
    /// caller-supplied group id are taken verbatim, and a fresh deduplication
    /// identity is drawn for this call alone.
    pub fn new(body: String, group_id: String) -> (r: TransferRecord)
        ensures
            r@.body == body@,
            r@.group_id == group_id@,
            r@.deduplication_id.len() == DEDUPLICATION_ID_LEN,
    {
        TransferRecord { body, deduplication_id: fresh_deduplication_id(), group_id }
    }
}

} // verus!
