//! The hash-chained audit log: each event's integrity hash covers the hash
//! of the event before it and the event's own fields.
use vstd::prelude::*;
use vstd::utf8::encode_utf8;
use crate::models::{resource_type_label, AuditEvent, ResourceType, Timestamp};
use crate::encoding::{hex_encode, hex_text, is_lower_hex_digit, lemma_hex_text_shape, uuid_bytes, uuid_to_bytes};

verus! {

/// What the SHA-256 hash of `data` is (the `sha2` crate's digest).
pub uninterp spec fn sha256_digest(data: Seq<u8>) -> Seq<u8>;

/// `sha2::Sha256::digest`: the SHA-256 hash of `data`, a named result, and
/// 32 bytes long as SHA-256 always is.
#[verifier::external_body]
fn sha256(data: &[u8]) -> (r: Vec<u8>)
    ensures
        r@ == sha256_digest(data@),
        r@.len() == 32,
{
    <sha2::Sha256 as sha2::Digest>::digest(data).to_vec()
}

/// The first second chrono represents: January 1 of the year -262143, 00:00:00 UTC.
pub open spec fn earliest_utc_second() -> int {
    -8_334_601_228_800
}

/// The last second chrono represents: December 31 of the year 262142, 23:59:59 UTC.
pub open spec fn latest_utc_second() -> int {
    8_210_266_876_799
}

/// Whether `chrono::DateTime::<Utc>::from_timestamp` accepts these seconds and
/// nanoseconds: the second lies in chrono's range of years (-262143 to
/// 262142), and the nanoseconds are under a billion, or under two billion on
/// the last second of a minute (a leap second).
pub open spec fn utc_representable(secs: i64, nanos: u32) -> bool {
    &&& earliest_utc_second() <= secs <= latest_utc_second()
    &&& nanos < 2_000_000_000
    &&& (nanos >= 1_000_000_000 ==> secs % 60 == 59)
}

/// What `to_rfc3339` of that UTC date and time writes.
pub uninterp spec fn rfc3339_text(secs: i64, nanos: u32) -> Seq<char>;

/// The RFC 3339 text (`chrono::DateTime::to_rfc3339`) of the UTC instant
/// `ts`, built with `chrono::DateTime::from_timestamp`; `None` exactly where
/// chrono cannot represent the instant (as `from_timestamp` and the range of
/// `NaiveDate` and `NaiveTime` decide it, stated in [`utc_representable`]).
/// The text is a named result of chrono.
#[verifier::external_body]
pub(crate) fn rfc3339(ts: Timestamp) -> (r: Option<String>)
    ensures
        r is Some <==> utc_representable(ts.secs, ts.nanos),
        r matches Some(s) ==> s@ == rfc3339_text(ts.secs, ts.nanos),
{
    chrono::DateTime::from_timestamp(ts.secs, ts.nanos).map(|d| d.to_rfc3339())
}

/// The bytes that an event's integrity hash covers, after the previous hash:
/// the event's id, its timestamp in RFC 3339, its type, actor, resource
/// type, resource id, action and status.
pub open spec fn integrity_message(previous: Seq<char>, e: AuditEvent, stamp: Seq<char>) -> Seq<u8> {
    encode_utf8(previous) + uuid_bytes(e.id) + encode_utf8(stamp) + encode_utf8(e.event_type@)
        + encode_utf8(e.actor@) + encode_utf8(resource_type_label(e.resource_type)) + encode_utf8(
        e.resource_id@,
    ) + encode_utf8(e.action@) + encode_utf8(e.status@)
}

/// Whether the event's timestamp can be written in RFC 3339.
pub open spec fn stamp_representable(e: AuditEvent) -> bool {
    utc_representable(e.timestamp.secs, e.timestamp.nanos)
}

/// The integrity hash of `e` chained after `previous`: the lower-case hex of
/// the SHA-256 hash of its [`integrity_message`].
pub open spec fn integrity_hash(previous: Seq<char>, e: AuditEvent) -> Seq<char> {
    hex_text(
        sha256_digest(
            integrity_message(previous, e, rfc3339_text(e.timestamp.secs, e.timestamp.nanos)),
        ),
    )
}

/// The hash that the first event of the log is chained after.
pub open spec fn chain_start() -> Seq<char> {
    "START"@
}

/// The hash that the next event is chained after: the last hash recorded, or
/// [`chain_start`] for an empty log.
pub open spec fn predecessor_hash(last: Option<Seq<char>>) -> Seq<char> {
    match last {
        Some(h) => h,
        None => chain_start(),
    }
}

/// The hash that the event at position `i` of `log` is chained after.
pub open spec fn chained_after(log: Seq<AuditEvent>, i: int) -> Seq<char> {
    if i == 0 {
        chain_start()
    } else {
        log[i - 1].integrity_hash@
    }
}

/// The event at position `i` carries its integrity hash chained after the
/// event before it.
pub open spec fn link_holds(log: Seq<AuditEvent>, i: int) -> bool {
    &&& stamp_representable(log[i])
    &&& log[i].integrity_hash@ == integrity_hash(chained_after(log, i), log[i])
}

/// Every event's hash is its integrity hash chained after the hash of the
/// event before it, the first one after [`chain_start`].
pub open spec fn chain_intact(log: Seq<AuditEvent>) -> bool {
    forall|i: int| 0 <= i < log.len() ==> #[trigger] link_holds(log, i)
}

fn append_bytes(v: &mut Vec<u8>, s: &[u8])
    ensures
        final(v)@ == old(v)@ + s@,
{
    let ghost start = v@;
    let n = s.len();
    let mut i: usize = 0;
    while i < n
        invariant
            n == s@.len(),
            i <= n,
            v@ == start + s@.subrange(0, i as int),
        decreases n - i,
    {
        v.push(s[i]);
        i = i + 1;
        assert(s@.subrange(0, i as int) =~= s@.subrange(0, i - 1).push(s@[i - 1]));
    }
    assert(s@.subrange(0, n as int) =~= s@);
}

fn append_text(v: &mut Vec<u8>, s: &str)
    ensures
        final(v)@ == old(v)@ + encode_utf8(s@),
{
    append_bytes(v, s.as_bytes());
}

impl AuditEvent {
    /// The event's integrity hash chained after `previous_hash`; `None` exactly
    /// where its timestamp cannot be written in RFC 3339.
    pub fn calculate_integrity_hash(&self, previous_hash: &str) -> (r: Option<String>)
        ensures
            r is Some <==> stamp_representable(*self),
            r matches Some(h) ==> h@ == integrity_hash(previous_hash@, *self),
            r matches Some(h) ==> h@.len() == 64 && forall|i: int|
                0 <= i < 64 ==> is_lower_hex_digit(#[trigger] h@[i]),
    {
        let stamp = match rfc3339(self.timestamp) {
            Some(s) => s,
            None => return None,
        };
        let mut msg: Vec<u8> = Vec::new();
        append_text(&mut msg, previous_hash);
        let id_bytes = uuid_to_bytes(self.id);
        append_bytes(&mut msg, id_bytes.as_slice());
        append_text(&mut msg, stamp.as_str());
        append_text(&mut msg, self.event_type.as_str());
        append_text(&mut msg, self.actor.as_str());
        let label = self.resource_type.label();
        append_text(&mut msg, label.as_str());
        append_text(&mut msg, self.resource_id.as_str());
        append_text(&mut msg, self.action.as_str());
        append_text(&mut msg, self.status.as_str());
        assert(msg@ =~= integrity_message(previous_hash@, *self, stamp@));
        let digest = sha256(msg.as_slice());
        proof {
            lemma_hex_text_shape(digest@);
        }
        Some(hex_encode(digest.as_slice()))
    }
}

/// The hash that the next event is chained after: the last recorded hash,
/// or "START" where the log is empty.
pub fn predecessor(last: Option<String>) -> (r: String)
    ensures
        r@ == predecessor_hash(
            match last {
                Some(h) => Some(h@),
                None => None,
            },
        ),
{
    match last {
        Some(h) => h,
        None => String::from_str("START"),
    }
}

/// A new audit event with the given fields, sealed with its integrity hash
/// chained after the last recorded hash (`None` for an empty log); `None`
/// exactly where the timestamp cannot be written in RFC 3339.
pub fn sealed_event(
    id: u128,
    timestamp: Timestamp,
    event_type: &str,
    actor: &str,
    resource_type: ResourceType,
    resource_id: &str,
    action: &str,
    status: &str,
    metadata: Vec<(String, String)>,
    last_hash: Option<String>,
) -> (r: Option<AuditEvent>)
    ensures
        r is Some <==> utc_representable(timestamp.secs, timestamp.nanos),
        r matches Some(e) ==> {
            &&& e.id == id
            &&& e.timestamp == timestamp
            &&& e.event_type@ == event_type@
            &&& e.actor@ == actor@
            &&& e.resource_type == resource_type
            &&& e.resource_id@ == resource_id@
            &&& e.action@ == action@
            &&& e.status@ == status@
            &&& e.metadata@ == metadata@
            &&& e.integrity_hash@.len() == 64
            &&& e.integrity_hash@ == integrity_hash(
                predecessor_hash(
                    match last_hash {
                        Some(h) => Some(h@),
                        None => None,
                    },
                ),
                e,
            )
        },
{
    let previous = predecessor(last_hash);
    let mut event = AuditEvent {
        id,
        timestamp,
        event_type: String::from_str(event_type),
        actor: String::from_str(actor),
        resource_type,
        resource_id: String::from_str(resource_id),
        action: String::from_str(action),
        status: String::from_str(status),
        metadata,
        integrity_hash: String::new(),
    };
    match event.calculate_integrity_hash(previous.as_str()) {
        Some(h) => {
            let ghost before = event;
            event.integrity_hash = h;
            assert(integrity_message(previous@, event, rfc3339_text(timestamp.secs, timestamp.nanos))
                == integrity_message(previous@, before, rfc3339_text(timestamp.secs, timestamp.nanos)));
            Some(event)
        },
        None => None,
    }
}

/// The positions of the entries whose integrity hash is empty (the
/// structural check of the audit ledger).
pub fn entries_without_hash(hashes: &Vec<String>) -> (r: Vec<usize>)
    ensures
        forall|i: int| 0 <= i < r@.len() ==> (r@[i] as int) < hashes@.len() && hashes@[r@[i] as int]@.len() == 0,
        forall|j: int| 0 <= j < hashes@.len() && hashes@[j]@.len() == 0 ==> r@.contains(j as usize),
        forall|a: int, b: int| 0 <= a < b < r@.len() ==> r@[a] < r@[b],
{
    let mut r: Vec<usize> = Vec::new();
    let n = hashes.len();
    let mut i: usize = 0;
    while i < n
        invariant
            n == hashes@.len(),
            i <= n,
            forall|k: int| 0 <= k < r@.len() ==> (r@[k] as int) < i && hashes@[r@[k] as int]@.len() == 0,
            forall|j: int| 0 <= j < i && hashes@[j]@.len() == 0 ==> r@.contains(j as usize),
            forall|a: int, b: int| 0 <= a < b < r@.len() ==> r@[a] < r@[b],
        decreases n - i,
    {
        let ghost prev = r@;
        if hashes[i].as_str().unicode_len() == 0 {
            r.push(i);
            assert(r@[r@.len() - 1] == i);
            assert forall|j: int| 0 <= j < i && hashes@[j]@.len() == 0 implies r@.contains(j as usize) by {
                let w = choose|w: int| 0 <= w < prev.len() && prev[w] == j as usize;
                assert(r@[w] == prev[w]);
            }
        }
        i = i + 1;
    }
    r
}

/// Appending keeps the chain intact: an event sealed after the last hash of
/// an intact log (after "START" where the log is empty) extends it to an
/// intact log.
pub proof fn lemma_sealing_extends_the_chain(log: Seq<AuditEvent>, e: AuditEvent)
    requires
        chain_intact(log),
        stamp_representable(e),
        e.integrity_hash@ == integrity_hash(
            predecessor_hash(
                if log.len() == 0 {
                    None
                } else {
                    Some(log.last().integrity_hash@)
                },
            ),
            e,
        ),
    ensures
        chain_intact(log.push(e)),
{
    let l2 = log.push(e);
    assert forall|i: int| 0 <= i < l2.len() implies #[trigger] link_holds(l2, i) by {
        if i < log.len() {
            assert(l2[i] == log[i]);
            if i > 0 {
                assert(l2[i - 1] == log[i - 1]);
            }
            assert(chained_after(l2, i) == chained_after(log, i));
            assert(link_holds(log, i));
        } else {
            assert(l2[i] == e);
            if i > 0 {
                assert(l2[i - 1] == log.last());
            }
        }
    }
}

} // verus!
