//! The trust session: a time-boxed grant that lets the daemon start without
//! asking the user.
//!
//! The record is one line of four fields with a colon between each two:
//! subject, expiry, issuer and seal. The expiry is a decimal Unix timestamp
//! in seconds; the other fields are opaque. This module only reads records.
//! Whatever cannot be read as a record is no valid session.

use crate::text::count;
use crate::text::decimal_i64;
use crate::text::decimal_text;
use crate::text::free_of;
use crate::text::join;
use crate::text::lemma_decimal_text_reads_back;
use crate::text::lemma_split_join;
use crate::text::lemma_split_len;
use crate::text::parse_i64;
use crate::text::split;
use crate::text::split_fields;
use vstd::prelude::*;
use vstd::string::*;

verus! {

/// The character between two fields of a record.
pub const FIELD_SEPARATOR: char = ':';

/// The number of fields of a record.
pub const FIELD_COUNT: usize = 4;

/// A trust session as it was read from its record.
#[derive(Clone, Debug, PartialEq, Eq)]
pub struct TrustSession {
    pub subject_id: String,
    /// The moment from which the grant no longer holds, in seconds since
    /// the Unix epoch.
    pub expires_at: i64,
    pub issuer_tag: String,
    pub seal: String,
}

/// A trust session as plain values.
pub struct TrustSessionView {
    pub subject_id: Seq<char>,
    pub expires_at: int,
    pub issuer_tag: Seq<char>,
    pub seal: Seq<char>,
}

impl View for TrustSession {
    type V = TrustSessionView;

    open spec fn view(&self) -> TrustSessionView {
        TrustSessionView {
            subject_id: self.subject_id@,
            expires_at: self.expires_at as int,
            issuer_tag: self.issuer_tag@,
            seal: self.seal@,
        }
    }
}

/// Why a text is no record of a trust session.
#[derive(Clone, Copy, Debug, PartialEq, Eq, Structural)]
pub enum TrustSessionError {
    /// The text does not have exactly four fields.
    WrongFieldCount,
    /// The second field is no decimal timestamp that fits 64 bits.
    InvalidExpiry,
}

/// The trust session that `content` records, or why it records none.
pub open spec fn parsed(content: Seq<char>) -> Result<TrustSessionView, TrustSessionError> {
    let fields = split(content, FIELD_SEPARATOR);
    if fields.len() != FIELD_COUNT {
        Err(TrustSessionError::WrongFieldCount)
    } else {
        match decimal_i64(fields[1]) {
            Some(expires_at) => Ok(
                TrustSessionView {
                    subject_id: fields[0],
                    expires_at: expires_at as int,
                    issuer_tag: fields[2],
                    seal: fields[3],
                },
            ),
            None => Err(TrustSessionError::InvalidExpiry),
        }
    }
}

/// Whether a session still holds at the moment `now`, in seconds since the
/// Unix epoch: it does strictly before its expiry, and no longer at the
/// moment of expiry itself.
pub open spec fn holds_at(session: TrustSessionView, now: int) -> bool {
    now < session.expires_at
}

/// Whether `content` records a trust session that holds at `now`.
pub open spec fn valid_at(content: Seq<char>, now: int) -> bool {
    match parsed(content) {
        Ok(session) => holds_at(session, now),
        Err(_) => false,
    }
}

/// Whether the record that was read, if any could be, is a trust session
/// that holds at `now`.
pub open spec fn session_valid(content: Option<Seq<char>>, now: int) -> bool {
    match content {
        Some(text) => valid_at(text, now),
        None => false,
    }
}

/// A text with any number of fields but four is no valid session at any
/// moment. The number of fields is one more than the number of separators.
pub proof fn lemma_wrong_field_count_is_invalid(content: Seq<char>, now: int)
    requires
        split(content, FIELD_SEPARATOR).len() != FIELD_COUNT,
    ensures
        count(content, FIELD_SEPARATOR) != 3,
        parsed(content) == Err::<TrustSessionView, TrustSessionError>(
            TrustSessionError::WrongFieldCount,
        ),
        !valid_at(content, now),
{
    lemma_split_len(content, FIELD_SEPARATOR);
}

/// A text with a number of separators other than three is no valid session
/// at any moment.
pub proof fn lemma_wrong_separator_count_is_invalid(content: Seq<char>, now: int)
    requires
        count(content, FIELD_SEPARATOR) != 3,
    ensures
        !valid_at(content, now),
{
    lemma_split_len(content, FIELD_SEPARATOR);
}

/// A session whose expiry lies strictly in the past is invalid, one whose
/// expiry lies strictly in the future is valid, and one that expires at this
/// very moment is invalid.
pub proof fn lemma_validity_by_expiry(content: Seq<char>, now: int)
    requires
        parsed(content) is Ok,
    ensures
        parsed(content)->Ok_0.expires_at < now ==> !valid_at(content, now),
        parsed(content)->Ok_0.expires_at > now ==> valid_at(content, now),
        parsed(content)->Ok_0.expires_at == now ==> !valid_at(content, now),
{
}

/// The record that is written from four fields.
pub open spec fn record_of(
    subject_id: Seq<char>,
    expiry: Seq<char>,
    issuer_tag: Seq<char>,
    seal: Seq<char>,
) -> Seq<char> {
    join(seq![subject_id, expiry, issuer_tag, seal], FIELD_SEPARATOR)
}

/// A record that is written from four fields without separator is read back
/// field for field, and is valid exactly if its second field is a timestamp
/// that lies strictly after the present moment.
pub proof fn lemma_record_reads_back(
    subject_id: Seq<char>,
    expiry: Seq<char>,
    issuer_tag: Seq<char>,
    seal: Seq<char>,
    now: int,
)
    requires
        free_of(subject_id, FIELD_SEPARATOR),
        free_of(expiry, FIELD_SEPARATOR),
        free_of(issuer_tag, FIELD_SEPARATOR),
        free_of(seal, FIELD_SEPARATOR),
    ensures
        record_of(subject_id, expiry, issuer_tag, seal) == subject_id + seq![':'] + expiry + seq![
            ':',
        ] + issuer_tag + seq![':'] + seal,
        parsed(record_of(subject_id, expiry, issuer_tag, seal)) == match decimal_i64(expiry) {
            Some(expires_at) => Ok::<TrustSessionView, TrustSessionError>(
                TrustSessionView { subject_id, expires_at: expires_at as int, issuer_tag, seal },
            ),
            None => Err::<TrustSessionView, TrustSessionError>(TrustSessionError::InvalidExpiry),
        },
        valid_at(record_of(subject_id, expiry, issuer_tag, seal), now) <==> (decimal_i64(
            expiry,
        ) matches Some(expires_at) && now < expires_at),
{
    let fields = seq![subject_id, expiry, issuer_tag, seal];
    lemma_split_join(fields, FIELD_SEPARATOR);
    let three = fields.drop_last();
    let two = three.drop_last();
    let one = two.drop_last();
    assert(join(one, FIELD_SEPARATOR) == subject_id);
    assert(join(two, FIELD_SEPARATOR) =~= subject_id + seq![':'] + expiry);
    assert(join(three, FIELD_SEPARATOR) =~= subject_id + seq![':'] + expiry + seq![':']
        + issuer_tag);
}

/// For every timestamp, a record that carries it as its expiry is valid at
/// every moment strictly before the timestamp and at no other: not at the
/// timestamp itself, and not after it.
pub proof fn lemma_validity_for_every_timestamp(
    subject_id: Seq<char>,
    expires_at: i64,
    issuer_tag: Seq<char>,
    seal: Seq<char>,
    now: int,
)
    requires
        free_of(subject_id, FIELD_SEPARATOR),
        free_of(issuer_tag, FIELD_SEPARATOR),
        free_of(seal, FIELD_SEPARATOR),
    ensures
        valid_at(
            record_of(subject_id, decimal_text(expires_at as int), issuer_tag, seal),
            now,
        ) <==> now < expires_at,
{
    let expiry = decimal_text(expires_at as int);
    lemma_decimal_text_reads_back(expires_at as int);
    assert(free_of(expiry, FIELD_SEPARATOR));
    lemma_record_reads_back(subject_id, expiry, issuer_tag, seal, now);
}

/// A session that is invalid at one moment is invalid at every later one,
/// and one that is valid was valid at every earlier one.
pub proof fn lemma_validity_is_monotonic(content: Seq<char>, earlier: int, later: int)
    requires
        earlier <= later,
    ensures
        valid_at(content, later) ==> valid_at(content, earlier),
{
}

/// Reads a trust session from its record.
pub fn parse_trust_session(content: &str) -> (result: Result<TrustSession, TrustSessionError>)
    ensures
        match result {
            Ok(session) => parsed(content@) == Ok::<TrustSessionView, TrustSessionError>(
                session@,
            ),
            Err(error) => parsed(content@) == Err::<TrustSessionView, TrustSessionError>(error),
        },
{
    let mut fields = split_fields(content, FIELD_SEPARATOR);
    if fields.len() != FIELD_COUNT {
        return Err(TrustSessionError::WrongFieldCount);
    }
    let expiry = parse_i64(fields[1].as_str());
    match expiry {
        None => Err(TrustSessionError::InvalidExpiry),
        Some(expires_at) => {
            let seal = fields.pop().unwrap();
            let issuer_tag = fields.pop().unwrap();
            let _ = fields.pop();
            let subject_id = fields.pop().unwrap();
            Ok(TrustSession { subject_id, expires_at, issuer_tag, seal })
        },
    }
}

impl TrustSession {
    /// Whether the session still holds at `now`, in seconds since the Unix
    /// epoch.
    pub fn is_valid_at(&self, now: u64) -> (valid: bool)
        ensures
            valid == holds_at(self@, now as int),
    {
        self.expires_at > 0 && now < self.expires_at as u64
    }
}

/// Tells whether a silent start is granted at the moment `now`, in seconds
/// since the Unix epoch.
///
/// `content` is the text of the persisted record, or `None` where there is
/// no record or it could not be read. The answer is `true` only for a record
/// of exactly four fields whose expiry lies strictly after `now`; for
/// anything else it is `false`, never an error.
pub fn check_trust_session(content: Option<&str>, now: u64) -> (valid: bool)
    ensures
        valid == session_valid(
            match content {
                Some(text) => Some(text@),
                None => None,
            },
            now as int,
        ),
{
    match content {
        None => false,
        Some(text) => match parse_trust_session(text) {
            Ok(session) => session.is_valid_at(now),
            Err(_) => false,
        },
    }
}

} // verus!
