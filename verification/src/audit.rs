//! The hash-chained audit log: each entry carries the SHA-256 of the previous
//! entry's hash and the entry's own fields, each written with its length.
use vstd::prelude::*;
use vstd::utf8::{encode_utf8, encode_utf8_decode_utf8};
use crate::text::{hex_lower, uuid_text, nat_text, is_digit, is_hex_lower_char, lemma_hex_lower, usize_to_text, lemma_nat_text_digits,
    lemma_nat_text_injective, lemma_uuid_text_injective};
use crate::ids::{new_id, id_text};
use crate::clock::current_timestamp;

verus! {

/// The SHA-256 digest of a byte string.
pub uninterp spec fn sha256_digest(data: Seq<u8>) -> Seq<u8>;

/// SHA-256 of `data` (`sha2::Sha256::digest`): the named digest, 32 bytes long.
#[verifier::external_body]
fn sha256(data: &[u8]) -> (r: Vec<u8>)
    ensures
        r@ == sha256_digest(data@),
        r@.len() == 32,
{
    <sha2::Sha256 as sha2::Digest>::digest(data).to_vec()
}

/// Lowercase hexadecimal text of `data` (`hex::encode`): two digits per byte, high
/// nibble first.
#[verifier::external_body]
fn hex_encode(data: &[u8]) -> (r: String)
    ensures
        r@ == hex_lower(data@),
{
    hex::encode(data)
}

/// The hash the chain starts from.
pub open spec fn genesis_hash() -> Seq<char> {
    "GENESIS"@
}

/// One entry of the audit log.
#[derive(Debug, Clone)]
pub struct AuditEntry {
    pub entry_id: u128,
    pub timestamp: String,
    pub user_id: u128,
    pub user_name: String,
    pub action: String,
    pub entity_type: String,
    pub entity_id: u128,
    pub details: String,
    pub previous_hash: String,
    pub entry_hash: String,
}

impl AuditEntry {
    /// A copy of the entry.
    pub fn duplicate(&self) -> (r: AuditEntry)
        ensures
            r == *self,
    {
        AuditEntry {
            entry_id: self.entry_id,
            timestamp: self.timestamp.clone(),
            user_id: self.user_id,
            user_name: self.user_name.clone(),
            action: self.action.clone(),
            entity_type: self.entity_type.clone(),
            entity_id: self.entity_id,
            details: self.details.clone(),
            previous_hash: self.previous_hash.clone(),
            entry_hash: self.entry_hash.clone(),
        }
    }
}

/// A field of the hashed text: the number of its characters, a colon, then the
/// characters, so that nothing inside a field can pass for the end of a field.
pub open spec fn field_text(f: Seq<char>) -> Seq<char> {
    nat_text(f.len()) + seq![':'] + f
}

/// Fields written one after another, each followed by `|`.
pub open spec fn fields_text(fs: Seq<Seq<char>>) -> Seq<char>
    decreases fs.len(),
{
    if fs.len() == 0 {
        Seq::empty()
    } else {
        field_text(fs[0]) + seq!['|'] + fields_text(fs.drop_first())
    }
}

/// What an entry's hash covers: the previous hash, then the entry's identifier, time,
/// user, user name, action, entity type, entity and details.
pub open spec fn entry_fields(e: AuditEntry) -> Seq<Seq<char>> {
    seq![e.previous_hash@, uuid_text(e.entry_id), e.timestamp@, uuid_text(e.user_id), e.user_name@,
        e.action@, e.entity_type@, uuid_text(e.entity_id), e.details@]
}

/// The hashed text of an entry.
pub open spec fn entry_hash_input(e: AuditEntry) -> Seq<char> {
    fields_text(entry_fields(e))
}

/// Lowercase hex of the SHA-256 of the UTF-8 bytes of a text.
pub open spec fn text_digest(t: Seq<char>) -> Seq<char> {
    hex_lower(sha256_digest(encode_utf8(t)))
}

/// The entry's hash is the digest of its hashed text.
pub open spec fn entry_sealed(e: AuditEntry) -> bool {
    e.entry_hash@ == text_digest(entry_hash_input(e))
}

/// Appending a field to the list appends its text.
proof fn lemma_fields_push(fs: Seq<Seq<char>>, f: Seq<char>)
    ensures
        fields_text(fs.push(f)) == fields_text(fs) + field_text(f) + seq!['|'],
    decreases fs.len(),
{
    if fs.len() == 0 {
        assert(fs.push(f).drop_first() =~= Seq::<Seq<char>>::empty());
        assert(fields_text(Seq::<Seq<char>>::empty()) == Seq::<char>::empty());
        assert(fields_text(fs.push(f)) =~= field_text(f) + seq!['|']);
    } else {
        lemma_fields_push(fs.drop_first(), f);
        assert(fs.push(f).drop_first() =~= fs.drop_first().push(f));
        assert(fields_text(fs.push(f)) =~= fields_text(fs) + field_text(f) + seq!['|']);
    }
}

/// A field's text ends where its length says: what follows two equal texts that
/// start with fields is the same, and so are the fields.
pub proof fn lemma_field_split(a: Seq<char>, b: Seq<char>, x: Seq<char>, y: Seq<char>)
    requires
        field_text(a) + x == field_text(b) + y,
    ensures
        a == b,
        x == y,
{
    let na = nat_text(a.len());
    let nb = nat_text(b.len());
    let s = field_text(a) + x;
    lemma_nat_text_digits(a.len());
    lemma_nat_text_digits(b.len());
    assert(s == na + (seq![':'] + (a + x)));
    assert(s == nb + (seq![':'] + (b + y)));
    if na.len() < nb.len() {
        assert(s[na.len() as int] == ':');
        assert(s[na.len() as int] == nb[na.len() as int]);
        assert(is_digit(nb[na.len() as int]));
    } else if nb.len() < na.len() {
        assert(s[nb.len() as int] == ':');
        assert(s[nb.len() as int] == na[nb.len() as int]);
        assert(is_digit(na[nb.len() as int]));
    } else {
        assert(na =~= s.take(na.len() as int));
        assert(nb =~= s.take(nb.len() as int));
        lemma_nat_text_injective(a.len(), b.len());
        let k: int = na.len() as int + 1;
        assert(a =~= s.subrange(k, k + a.len()));
        assert(b =~= s.subrange(k, k + b.len()));
        assert(x =~= s.skip(k + a.len()));
        assert(y =~= s.skip(k + b.len()));
    }
}

/// Equal texts of equally many fields come from the same fields.
pub proof fn lemma_fields_injective(fs: Seq<Seq<char>>, gs: Seq<Seq<char>>)
    requires
        fs.len() == gs.len(),
        fields_text(fs) == fields_text(gs),
    ensures
        fs == gs,
    decreases fs.len(),
{
    if fs.len() > 0 {
        let x = seq!['|'] + fields_text(fs.drop_first());
        let y = seq!['|'] + fields_text(gs.drop_first());
        assert(fields_text(fs) =~= field_text(fs[0]) + x);
        assert(fields_text(gs) =~= field_text(gs[0]) + y);
        lemma_field_split(fs[0], gs[0], x, y);
        assert(fields_text(fs.drop_first()) =~= x.drop_first());
        assert(fields_text(gs.drop_first()) =~= y.drop_first());
        lemma_fields_injective(fs.drop_first(), gs.drop_first());
        assert(fs =~= seq![fs[0]] + fs.drop_first());
        assert(gs =~= seq![gs[0]] + gs.drop_first());
    } else {
        assert(fs =~= gs);
    }
}

/// The hash a new entry is chained to: that of the last entry, or the genesis hash.
pub open spec fn chain_tip(log: Seq<AuditEntry>) -> Seq<char> {
    if log.len() == 0 { genesis_hash() } else { log.last().entry_hash@ }
}

/// Every entry is sealed and chained to the one before it (the first to the genesis hash).
pub open spec fn chain_linked(log: Seq<AuditEntry>) -> bool {
    forall|i: int|
        0 <= i < log.len() ==> {
            &&& entry_sealed(#[trigger] log[i])
            &&& log[i].previous_hash@ == chain_tip(log.take(i))
        }
}

/// Appends a field and its `|` to the text being hashed.
fn push_field(out: &mut String, f: &str, Ghost(fs): Ghost<Seq<Seq<char>>>)
    requires
        old(out)@ == fields_text(fs),
    ensures
        final(out)@ == fields_text(fs.push(f@)),
{
    proof {
        reveal_strlit("|");
        reveal_strlit(":");
        lemma_fields_push(fs, f@);
    }
    let n = usize_to_text(f.unicode_len());
    out.append(n.as_str());
    out.append(":");
    out.append(f);
    out.append("|");
    assert(out@ =~= fields_text(fs) + field_text(f@) + seq!['|']);
}

/// The audit log of the application.
pub struct AuditLog;

impl AuditLog {
    /// Builds the entry with the given identifier and time, sealed to `previous_hash`.
    pub fn create_entry_at(
        entry_id: u128,
        timestamp: &str,
        user_id: u128,
        user_name: &str,
        action: &str,
        entity_type: &str,
        entity_id: u128,
        details: &str,
        previous_hash: &str,
    ) -> (r: AuditEntry)
        ensures
            r.entry_id == entry_id,
            r.timestamp@ == timestamp@,
            r.user_id == user_id,
            r.user_name@ == user_name@,
            r.action@ == action@,
            r.entity_type@ == entity_type@,
            r.entity_id == entity_id,
            r.details@ == details@,
            r.previous_hash@ == previous_hash@,
            entry_sealed(r),
            r.entry_hash@.len() == 64,
            forall|i: int| 0 <= i < 64 ==> #[trigger] is_hex_lower_char(r.entry_hash@[i]),
    {
        let ghost mut fs: Seq<Seq<char>> = Seq::empty();
        let mut data = String::new();
        proof {
            reveal_strlit("|");
            reveal_strlit(":");
        }
        push_field(&mut data, previous_hash, Ghost(fs));
        proof { fs = fs.push(previous_hash@); }
        let id = id_text(entry_id);
        push_field(&mut data, id.as_str(), Ghost(fs));
        proof { fs = fs.push(id@); }
        push_field(&mut data, timestamp, Ghost(fs));
        proof { fs = fs.push(timestamp@); }
        let user = id_text(user_id);
        push_field(&mut data, user.as_str(), Ghost(fs));
        proof { fs = fs.push(user@); }
        push_field(&mut data, user_name, Ghost(fs));
        proof { fs = fs.push(user_name@); }
        push_field(&mut data, action, Ghost(fs));
        proof { fs = fs.push(action@); }
        push_field(&mut data, entity_type, Ghost(fs));
        proof { fs = fs.push(entity_type@); }
        let entity = id_text(entity_id);
        push_field(&mut data, entity.as_str(), Ghost(fs));
        proof { fs = fs.push(entity@); }
        push_field(&mut data, details, Ghost(fs));
        proof { fs = fs.push(details@); }
        let digest = sha256(data.as_str().as_bytes());
        let entry_hash = hex_encode(digest.as_slice());
        proof {
            lemma_hex_lower(digest@);
        }
        let r = AuditEntry {
            entry_id,
            timestamp: timestamp.to_string(),
            user_id,
            user_name: user_name.to_string(),
            action: action.to_string(),
            entity_type: entity_type.to_string(),
            entity_id,
            details: details.to_string(),
            previous_hash: previous_hash.to_string(),
            entry_hash,
        };
        assert(fs =~= entry_fields(r));
        r
    }

    /// Builds a new entry with a fresh identifier and the current time, sealed to
    /// `previous_hash`.
    pub fn create_entry(
        user_id: u128,
        user_name: &str,
        action: &str,
        entity_type: &str,
        entity_id: u128,
        details: &str,
        previous_hash: &str,
    ) -> (r: AuditEntry)
        ensures
            r.user_id == user_id,
            r.user_name@ == user_name@,
            r.action@ == action@,
            r.entity_type@ == entity_type@,
            r.entity_id == entity_id,
            r.details@ == details@,
            r.previous_hash@ == previous_hash@,
            entry_sealed(r),
            r.entry_hash@.len() == 64,
            forall|i: int| 0 <= i < 64 ==> #[trigger] is_hex_lower_char(r.entry_hash@[i]),
    {
        let entry_id = new_id();
        let timestamp = current_timestamp();
        AuditLog::create_entry_at(entry_id, timestamp.as_str(), user_id, user_name, action,
            entity_type, entity_id, details, previous_hash)
    }
}

/// Appending an entry that is sealed and chained to the tip keeps the log linked, and
/// the new tip is the entry's hash.
pub proof fn lemma_chain_extend(log: Seq<AuditEntry>, e: AuditEntry)
    requires
        chain_linked(log),
        entry_sealed(e),
        e.previous_hash@ == chain_tip(log),
    ensures
        chain_linked(log.push(e)),
        chain_tip(log.push(e)) == e.entry_hash@,
{
    let l2 = log.push(e);
    assert forall|i: int| 0 <= i < l2.len() implies {
        &&& entry_sealed(#[trigger] l2[i])
        &&& l2[i].previous_hash@ == chain_tip(l2.take(i))
    } by {
        if i < log.len() {
            assert(l2.take(i) == log.take(i));
        } else {
            assert(l2.take(i) == log);
        }
    }
}

/// Tampering is detected: an entry of a linked log replaced by one whose hashed text
/// has a digest other than the stored hash,
/// while the stored hashes are kept, leaves a log that is no longer linked.
pub proof fn law_changed_payload_breaks_chain(log: Seq<AuditEntry>, i: int, e: AuditEntry)
    requires
        chain_linked(log),
        0 <= i < log.len(),
        e.entry_hash@ == log[i].entry_hash@,
        text_digest(entry_hash_input(e)) != log[i].entry_hash@,
    ensures
        !chain_linked(log.update(i, e)),
{
    let l2 = log.update(i, e);
    assert(l2[i] == e);
    assert(!entry_sealed(l2[i]));
}

/// Tampering is detected: an entry of a linked log, but for the last, replaced by
/// one with another hash (resealed or not) leaves a log that is no longer linked, as
/// the next entry is still chained to the old hash.
pub proof fn law_rehashed_entry_breaks_chain(log: Seq<AuditEntry>, i: int, e: AuditEntry)
    requires
        chain_linked(log),
        0 <= i && i + 1 < log.len(),
        e.entry_hash@ != log[i].entry_hash@,
    ensures
        !chain_linked(log.update(i, e)),
{
    let l2 = log.update(i, e);
    assert(log.take(i + 1).last() == log[i]);
    assert(l2.take(i + 1).last() == e);
    assert(l2[i + 1] == log[i + 1]);
    assert(log[i + 1].previous_hash@ == chain_tip(log.take(i + 1)));
    if chain_linked(l2) {
        assert(l2[i + 1].previous_hash@ == chain_tip(l2.take(i + 1)));
    }
}

/// Two entries differ in something their hash covers: the previous hash, identifier,
/// time, user, user name, action, entity type, entity or details.
pub open spec fn entries_differ(e1: AuditEntry, e2: AuditEntry) -> bool {
    ||| e1.previous_hash@ != e2.previous_hash@
    ||| e1.entry_id != e2.entry_id
    ||| e1.timestamp@ != e2.timestamp@
    ||| e1.user_id != e2.user_id
    ||| e1.user_name@ != e2.user_name@
    ||| e1.action@ != e2.action@
    ||| e1.entity_type@ != e2.entity_type@
    ||| e1.entity_id != e2.entity_id
    ||| e1.details@ != e2.details@
}

/// Any change to an entry changes the bytes its hash covers: two entries that differ in
/// previous hash, identifier, time, user, user name, action, entity type, entity or
/// details have different hashed bytes, so their hashes differ unless SHA-256 collides.
pub proof fn law_changed_entry_changes_hashed_bytes(e1: AuditEntry, e2: AuditEntry)
    requires
        entries_differ(e1, e2),
    ensures
        encode_utf8(entry_hash_input(e1)) != encode_utf8(entry_hash_input(e2)),
{
    if encode_utf8(entry_hash_input(e1)) == encode_utf8(entry_hash_input(e2)) {
        encode_utf8_decode_utf8(entry_hash_input(e1));
        encode_utf8_decode_utf8(entry_hash_input(e2));
        lemma_fields_injective(entry_fields(e1), entry_fields(e2));
        let f1 = entry_fields(e1);
        let f2 = entry_fields(e2);
        assert(f1[1] == f2[1] && f1[3] == f2[3] && f1[7] == f2[7]);
        lemma_uuid_text_injective(e1.entry_id, e2.entry_id);
        lemma_uuid_text_injective(e1.user_id, e2.user_id);
        lemma_uuid_text_injective(e1.entity_id, e2.entity_id);
        assert(f1[0] == f2[0] && f1[2] == f2[2] && f1[4] == f2[4] && f1[5] == f2[5] && f1[6] == f2[6]
            && f1[8] == f2[8]);
    }
}

} // verus!
