//! The OTP record, its store, and the lifecycle transitions.
//!
//! A record is issued for a normalized address with a fresh six-digit code
//! and a ten-minute expiry, consumed at most once by an atomic
//! find-and-mark verification, and superseded in bulk when a new code is
//! resent. A record never leaves the store and `is_used` is never reset:
//! history is retained.

use vstd::prelude::*;
use crate::email::{norm_of, valid_email, normalize_email, is_valid_email};
use rand::Rng;

verus! {

/// How many minutes an issued code stays valid.
pub const OTP_VALIDITY_MINUTES: u64 = 10;

/// A six-digit code lies in this closed range.
pub open spec fn code_in_range(code: u32) -> bool {
    100000 <= code <= 999999
}

/// Why an OTP operation was refused.
#[derive(Clone, Copy, Debug, PartialEq, Eq, Structural)]
pub enum OtpError {
    /// The address does not meet the mailbox grammar.
    ValidationError,
    /// The computed expiry would not lie past the issuance instant.
    ClockError,
    /// The backing store failed. The in-memory store never raises it; a
    /// storage adapter in front of a fallible backend does.
    StorageError,
}

impl OtpError {
    /// A short description of the error.
    pub fn message(&self) -> (m: &'static str)
        ensures
            *self == OtpError::ValidationError ==> m@ == "ValidationError: malformed email address"@,
            *self == OtpError::ClockError ==> m@ == "ClockError: expired time cannot be less than current time"@,
            *self == OtpError::StorageError ==> m@ == "StorageError: backing store failed"@,
    {
        match self {
            OtpError::ValidationError => "ValidationError: malformed email address",
            OtpError::ClockError => "ClockError: expired time cannot be less than current time",
            OtpError::StorageError => "StorageError: backing store failed",
        }
    }
}

/// One issued code, bound to a normalized address.
pub struct Otp {
    pub email: String,
    pub code: u32,
    pub is_used: bool,
    pub created_at: u64,
    pub expired_at: u64,
}

/// A record still open to verification at instant `now`: not yet
/// consumed or superseded, not yet expired.
pub open spec fn is_live(o: Otp, now: u64) -> bool {
    !o.is_used && o.expired_at > now
}

/// The record answers a verification query: bound to the queried
/// address, carrying the submitted code, and live.
pub open spec fn matches_query(o: Otp, email: Seq<char>, code: u32, now: u64) -> bool {
    o.email@ == email && o.code == code && is_live(o, now)
}

/// The same record, irreversibly marked used.
pub open spec fn consume(o: Otp) -> Otp {
    Otp { is_used: true, ..o }
}

/// Some record in the sequence answers the query.
pub open spec fn has_live_match(rs: Seq<Otp>, email: Seq<char>, code: u32, now: u64) -> bool {
    exists|i: int| 0 <= i < rs.len() && #[trigger] matches_query(rs[i], email, code, now)
}

/// Position `i` holds the first record answering the query.
pub open spec fn is_first_match(
    rs: Seq<Otp>,
    email: Seq<char>,
    code: u32,
    now: u64,
    i: int,
) -> bool {
    &&& 0 <= i < rs.len()
    &&& matches_query(rs[i], email, code, now)
    &&& forall|j: int| 0 <= j < i ==> !(#[trigger] matches_query(rs[j], email, code, now))
}

/// Every record bound to `email` marked used; all others untouched.
pub open spec fn invalidate_all(rs: Seq<Otp>, email: Seq<char>) -> Seq<Otp> {
    rs.map(|i: int, o: Otp| if o.email@ == email { consume(o) } else { o })
}

/// The store of issued codes. It owns every record, and it serializes
/// the lifecycle transitions: each call below is one atomic step, so two
/// competing verifications can never both read the same unconsumed
/// record.
pub struct OtpStore {
    records: Vec<Otp>,
}

impl View for OtpStore {
    type V = Seq<Otp>;

    closed spec fn view(&self) -> Seq<Otp> {
        self.records@
    }
}

impl OtpStore {
    /// An empty store.
    pub fn new() -> (s: Self)
        ensures
            s@ == Seq::<Otp>::empty(),
    {
        OtpStore { records: Vec::new() }
    }

    /// How many records the store holds, consumed and live alike.
    pub fn len(&self) -> (n: usize)
        ensures
            n == self@.len(),
    {
        self.records.len()
    }
}

/// Compute the issuance and expiry instants for a validity window of
/// `mins` minutes starting at `now`. Defensive: a window that would not
/// put the expiry strictly past `now` is refused rather than truncated.
pub fn util_time(now: u64, mins: u64) -> (r: Result<(u64, u64), OtpError>)
    ensures
        match r {
            Ok(t) => t.0 == now && t.1 == now + mins * 60 && t.1 > now,
            Err(e) => {
                &&& e == OtpError::ClockError
                &&& (mins == 0 || now + mins * 60 > u64::MAX)
            },
        },
{
    if mins == 0 || mins > u64::MAX / 60 {
        return Err(OtpError::ClockError);
    }
    let secs: u64 = mins * 60;
    if secs > u64::MAX - now {
        return Err(OtpError::ClockError);
    }
    Ok((now, now + secs))
}

/// Relies on rand's `Rng::gen_range`: a draw from a non-empty inclusive
/// range lies within that range.
#[verifier::external_body]
fn generate_code() -> (code: u32)
    ensures
        code_in_range(code),
{
    rand::thread_rng().gen_range(100000..=999999)
}

impl Otp {
    /// Issue a fresh record for `email` at instant `now`: normalize the
    /// address, refuse a malformed one, draw a six-digit code, and stamp
    /// the ten-minute expiry.
    pub fn new(email: String, now: u64) -> (r: Result<Otp, OtpError>)
        ensures
            match r {
                Ok(o) => {
                    &&& valid_email(norm_of(email@))
                    &&& o.email@ == norm_of(email@)
                    &&& code_in_range(o.code)
                    &&& !o.is_used
                    &&& o.created_at == now
                    &&& o.expired_at == now + 600
                },
                Err(OtpError::ValidationError) => !valid_email(norm_of(email@)),
                Err(OtpError::ClockError) => {
                    &&& valid_email(norm_of(email@))
                    &&& now + 600 > u64::MAX
                },
                Err(OtpError::StorageError) => false,
            },
    {
        let normalized = normalize_email(email.as_str());
        if !is_valid_email(normalized.as_str()) {
            return Err(OtpError::ValidationError);
        }
        let stamps = match util_time(now, OTP_VALIDITY_MINUTES) {
            Ok(t) => t,
            Err(_) => {
                return Err(OtpError::ClockError);
            },
        };
        Ok(
            Otp {
                email: normalized,
                code: generate_code(),
                is_used: false,
                created_at: stamps.0,
                expired_at: stamps.1,
            },
        )
    }

    /// Persist a copy of this record in the store. The in-memory store
    /// cannot fail; the `Result` mirrors what a fallible backend returns.
    pub fn insert_otp(&self, store: &mut OtpStore) -> (r: Result<(), OtpError>)
        ensures
            final(store)@ == old(store)@.push(*self),
            r is Ok,
    {
        let copy = Otp {
            email: self.email.clone(),
            code: self.code,
            is_used: self.is_used,
            created_at: self.created_at,
            expired_at: self.expired_at,
        };
        store.records.push(copy);
        Ok(())
    }

    /// Atomic find-and-consume. The first record bound to the normalized
    /// address and carrying `code`, not yet used and not yet expired at
    /// `now`, is marked used; `Ok(true)` comes back exactly when one was.
    /// A wrong code, an already consumed record and an expired record are
    /// deliberately indistinguishable: all give `Ok(false)`.
    pub fn verify_otp(code: u32, email: String, now: u64, store: &mut OtpStore) -> (r: Result<
        bool,
        OtpError,
    >)
        ensures
            ({
                let rs = old(store)@;
                let q = norm_of(email@);
                match r {
                    Ok(hit) => {
                        &&& hit == has_live_match(rs, q, code, now)
                        &&& (!hit ==> final(store)@ == rs)
                        &&& (hit ==> exists|i: int|
                            {
                                &&& #[trigger] is_first_match(rs, q, code, now, i)
                                &&& final(store)@ == rs.update(i, consume(rs[i]))
                            })
                    },
                    Err(_) => false,
                }
            }),
    {
        let q = normalize_email(email.as_str());
        let ghost rs = store@;
        let n = store.records.len();
        let mut i: usize = 0;
        while i < n
            invariant
                0 <= i <= n,
                n == rs.len(),
                rs == old(store)@,
                store@ == rs,
                q@ == norm_of(email@),
                forall|j: int| 0 <= j < i ==> !(#[trigger] matches_query(rs[j], q@, code, now)),
            decreases n - i,
        {
            let hit = {
                let rec = &store.records[i];
                rec.code == code && !rec.is_used && rec.expired_at > now && rec.email == q
            };
            if hit {
                store.records[i].is_used = true;
                proof {
                    let qs = norm_of(email@);
                    assert(matches_query(rs[i as int], qs, code, now));
                    assert(has_live_match(rs, qs, code, now));
                    assert(is_first_match(rs, qs, code, now, i as int));
                    assert(store@[i as int] == consume(rs[i as int]));
                    assert(store@ =~= rs.update(i as int, consume(rs[i as int])));
                }
                return Ok(true);
            }
            proof {
                assert(!matches_query(rs[i as int], q@, code, now));
            }
            i = i + 1;
        }
        proof {
            assert(!has_live_match(rs, q@, code, now));
        }
        Ok(false)
    }

    /// Resend: supersede, then issue. Every record bound to the
    /// normalized address is marked used in one bulk pass, and one fresh
    /// record with a new code and expiry is appended. Returns the
    /// normalized address and the fresh code, for mail delivery. A
    /// malformed address or an overflowing expiry is refused before the
    /// store is touched.
    pub fn update_otp(email: String, now: u64, store: &mut OtpStore) -> (r: Result<
        (String, u32),
        OtpError,
    >)
        ensures
            ({
                let rs = old(store)@;
                let q = norm_of(email@);
                match r {
                    Ok(out) => {
                        &&& valid_email(q)
                        &&& out.0@ == q
                        &&& code_in_range(out.1)
                        &&& final(store)@.len() == rs.len() + 1
                        &&& final(store)@ == invalidate_all(rs, q).push(final(store)@.last())
                        &&& ({
                            let fresh = final(store)@.last();
                            &&& fresh.email@ == q
                            &&& fresh.code == out.1
                            &&& !fresh.is_used
                            &&& fresh.created_at == now
                            &&& fresh.expired_at == now + 600
                        })
                    },
                    Err(OtpError::ValidationError) => {
                        &&& !valid_email(q)
                        &&& final(store)@ == rs
                    },
                    Err(OtpError::ClockError) => {
                        &&& valid_email(q)
                        &&& now + 600 > u64::MAX
                        &&& final(store)@ == rs
                    },
                    Err(OtpError::StorageError) => false,
                }
            }),
    {
        let q = normalize_email(email.as_str());
        if !is_valid_email(q.as_str()) {
            return Err(OtpError::ValidationError);
        }
        let stamps = match util_time(now, OTP_VALIDITY_MINUTES) {
            Ok(t) => t,
            Err(_) => {
                return Err(OtpError::ClockError);
            },
        };
        let code = generate_code();

        // Bulk supersession: one conditional pass over the records.
        let ghost rs = store@;
        let n = store.records.len();
        let mut i: usize = 0;
        while i < n
            invariant
                0 <= i <= n,
                n == rs.len(),
                rs == old(store)@,
                store@.len() == rs.len(),
                q@ == norm_of(email@),
                forall|j: int|
                    0 <= j < i ==> store@[j] == (if rs[j].email@ == q@ {
                        consume(#[trigger] rs[j])
                    } else {
                        rs[j]
                    }),
                forall|j: int| i <= j < n ==> store@[j] == #[trigger] rs[j],
            decreases n - i,
        {
            let same = store.records[i].email == q;
            if same {
                store.records[i].is_used = true;
                proof {
                    assert(store@[i as int] == consume(rs[i as int]));
                }
            }
            i = i + 1;
        }
        proof {
            assert(store@ =~= invalidate_all(rs, q@));
        }

        let out_email = q.clone();
        let fresh = Otp { email: q, code, is_used: false, created_at: stamps.0, expired_at: stamps.1 };
        store.records.push(fresh);
        Ok((out_email, code))
    }
}

/// Consumption is at most once: once a verification has consumed the
/// sole record answering a query, no record answers that query again, at
/// the same instant or any later one. Read with `verify_otp`'s contract:
/// the first call returns `true` and hands back the consumed store, on
/// which every repeat of the query returns `false`.
pub proof fn lemma_verify_consumes_once(
    rs: Seq<Otp>,
    email: Seq<char>,
    code: u32,
    i: int,
    now1: u64,
    now2: u64,
)
    requires
        is_first_match(rs, email, code, now1, i),
        forall|j: int|
            0 <= j < rs.len() && #[trigger] matches_query(rs[j], email, code, now1) ==> j == i,
        now1 <= now2,
    ensures
        has_live_match(rs, email, code, now1),
        !has_live_match(rs.update(i, consume(rs[i])), email, code, now2),
{
    let rs2 = rs.update(i, consume(rs[i]));
    assert(matches_query(rs[i], email, code, now1));
    assert forall|j: int| 0 <= j < rs2.len() implies !(#[trigger] matches_query(
        rs2[j],
        email,
        code,
        now2,
    )) by {
        if j == i {
            assert(rs2[j].is_used);
        } else {
            assert(rs2[j] == rs[j]);
            if matches_query(rs[j], email, code, now2) {
                assert(rs[j].expired_at > now2 >= now1);
                assert(matches_query(rs[j], email, code, now1));
                assert(false);
            }
        }
    }
}

/// An expired record never answers a query: when every record bound to
/// the address and code has `expired_at <= now`, verification at `now`
/// finds no live match, correct code and unconsumed state notwithstanding.
pub proof fn lemma_expired_never_matches(rs: Seq<Otp>, email: Seq<char>, code: u32, now: u64)
    requires
        forall|j: int|
            0 <= j < rs.len() && (#[trigger] rs[j]).email@ == email && rs[j].code == code
                ==> now >= rs[j].expired_at,
    ensures
        !has_live_match(rs, email, code, now),
{
    assert forall|j: int| 0 <= j < rs.len() implies !(#[trigger] matches_query(
        rs[j],
        email,
        code,
        now,
    )) by {
        if matches_query(rs[j], email, code, now) {
            assert(rs[j].email@ == email && rs[j].code == code);
            assert(rs[j].expired_at > now);
        }
    }
}

/// Resend supersedes every prior code: after the bulk invalidation of an
/// address and the append of one fresh record, a query for that address
/// succeeds exactly on the fresh code, and only while the fresh record
/// is live.
pub proof fn lemma_resend_supersedes(
    rs: Seq<Otp>,
    fresh: Otp,
    email: Seq<char>,
    code: u32,
    now: u64,
)
    requires
        fresh.email@ == email,
    ensures
        has_live_match(invalidate_all(rs, email).push(fresh), email, code, now) <==> (code
            == fresh.code && is_live(fresh, now)),
{
    let rs2 = invalidate_all(rs, email).push(fresh);
    assert(rs2.len() == rs.len() + 1);
    if has_live_match(rs2, email, code, now) {
        let j = choose|j: int| 0 <= j < rs2.len() && #[trigger] matches_query(
            rs2[j],
            email,
            code,
            now,
        );
        if j < rs.len() {
            assert(rs2[j] == (if rs[j].email@ == email {
                consume(rs[j])
            } else {
                rs[j]
            }));
            assert(false);
        } else {
            assert(rs2[j] == fresh);
        }
    }
    if code == fresh.code && is_live(fresh, now) {
        assert(rs2[rs.len() as int] == fresh);
        assert(matches_query(rs2[rs.len() as int], email, code, now));
    }
}

/// No transition ever reverts `is_used`: a record once consumed or
/// superseded stays so, both under the single consuming update of a
/// verification and under the bulk invalidation of a resend.
pub proof fn lemma_used_never_reverts(rs: Seq<Otp>, email: Seq<char>, i: int, j: int)
    requires
        0 <= i < rs.len(),
        0 <= j < rs.len(),
        rs[j].is_used,
    ensures
        rs.update(i, consume(rs[i]))[j].is_used,
        invalidate_all(rs, email)[j].is_used,
{
}

/// Exactly one of several competing verifications of the same live code
/// wins. The store serializes the calls — each is one atomic
/// find-and-consume step — so whichever runs first consumes the sole
/// matching record, and every later call at the same instant finds no
/// live match and returns `false`.
pub proof fn lemma_single_winner(rs: Seq<Otp>, email: Seq<char>, code: u32, i: int, now: u64)
    requires
        is_first_match(rs, email, code, now, i),
        forall|j: int|
            0 <= j < rs.len() && #[trigger] matches_query(rs[j], email, code, now) ==> j == i,
    ensures
        has_live_match(rs, email, code, now),
        !has_live_match(rs.update(i, consume(rs[i])), email, code, now),
{
    lemma_verify_consumes_once(rs, email, code, i, now, now);
}

} // verus!
