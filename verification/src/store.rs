//! The client-side store: the record collection, its loading flag and its
//! last error, together with the reducers that reconcile them with the
//! outcome of each backend request.
//!
//! Every backend call is made outside the library. The transport hands the
//! reducers a plain description of how the call ended — the decoded body,
//! the rejecting status code, or the transport's failure text — and each
//! reducer states exactly how the store changes and what the caller is
//! told, for every such outcome.

use vstd::prelude::*;
use crate::domain::GoatParams;
use crate::errors::AppError;
use crate::text::{decimal_string, spec_decimal};

verus! {

broadcast use vstd::seq_lib::group_filter_ensures;

/// How a write request (create, update or delete) ended.
#[derive(Debug, PartialEq)]
pub enum RequestOutcome {
    /// The response arrived with an ok status.
    Accepted,
    /// The response arrived, but with the given non-ok status code.
    Rejected(u16),
    /// The request never completed; the transport's description of why.
    Failed(String),
}

/// How a fetch of the full collection ended.
#[derive(Debug)]
pub enum FetchOutcome {
    /// The response body decoded into a record collection.
    Received(Vec<GoatParams>),
    /// A response arrived but its body did not decode; the decoder's text.
    Undecodable(String),
    /// The request never completed; the transport's description of why.
    Unreachable(String),
}

/// The shared store: the current record collection, a loading flag, and
/// the last error message, if any.
#[derive(Debug, Clone, PartialEq)]
pub struct GoatStore {
    /// The complete list of goats retrieved from the backend.
    pub goats: Vec<GoatParams>,
    /// True while data is currently being loaded.
    pub loading: bool,
    /// The error message of the last failed fetch or create, if any.
    pub error: Option<String>,
}

impl Default for GoatStore {
    /// The initial store: no records, not loading, no error.
    fn default() -> (s: Self)
        ensures
            s.goats@ == Seq::<GoatParams>::empty(),
            !s.loading,
            s.error is None,
    {
        GoatStore { goats: Vec::new(), loading: false, error: None }
    }
}

/// The records of `s` except those named `name`, in their original order.
pub open spec fn spec_without(s: Seq<GoatParams>, name: Seq<char>) -> Seq<GoatParams> {
    s.filter(|g: GoatParams| g.name@ != name)
}

/// The first position in `s` holding a record named `name`, if any.
fn position_by_name(goats: &Vec<GoatParams>, name: &String) -> (r: Option<usize>)
    ensures
        r matches Some(i) ==> i < goats@.len() && goats@[i as int].name@ == name@ && (forall|j: int|
            0 <= j < i ==> goats@[j].name@ != name@),
        r is None ==> forall|j: int| 0 <= j < goats@.len() ==> goats@[j].name@ != name@,
{
    let mut i: usize = 0;
    while i < goats.len()
        invariant
            i <= goats@.len(),
            forall|j: int| 0 <= j < i ==> goats@[j].name@ != name@,
        decreases goats@.len() - i,
    {
        if goats[i].name == *name {
            return Some(i);
        }
        i = i + 1;
    }
    None
}

impl GoatStore {
    /// Marks an operation as in flight: raises `loading` and clears the
    /// previous error, leaving the collection untouched.
    pub fn begin_request(&mut self)
        ensures
            final(self).goats == old(self).goats,
            final(self).loading,
            final(self).error is None,
    {
        self.loading = true;
        self.error = None;
    }

    /// Reconciles the store with the end of a fetch: a decoded body
    /// replaces the collection wholesale and clears the error; any failure
    /// records its message and leaves the previous collection untouched.
    /// Either way the loading flag drops.
    pub fn finish_fetch(&mut self, outcome: FetchOutcome)
        ensures
            !final(self).loading,
            outcome matches FetchOutcome::Received(gs) ==> final(self).goats == gs && final(self).error is None,
            outcome matches FetchOutcome::Undecodable(m) ==> final(self).goats == old(self).goats
                && (final(self).error matches Some(e) && e@ == "Failed to parse goats JSON: "@ + m@),
            outcome matches FetchOutcome::Unreachable(m) ==> final(self).goats == old(self).goats
                && (final(self).error matches Some(e) && e@ == "HTTP request failed: "@ + m@),
    {
        match outcome {
            FetchOutcome::Received(gs) => {
                self.goats = gs;
                self.loading = false;
                self.error = None;
            },
            FetchOutcome::Undecodable(m) => {
                let mut msg = String::from_str("Failed to parse goats JSON: ");
                msg.append(m.as_str());
                self.loading = false;
                self.error = Some(msg);
            },
            FetchOutcome::Unreachable(m) => {
                let mut msg = String::from_str("HTTP request failed: ");
                msg.append(m.as_str());
                self.loading = false;
                self.error = Some(msg);
            },
        }
    }

    /// Reconciles the store with the end of a create: on acknowledgment the
    /// submitted record — the client's own copy, not a server echo — is
    /// appended; on failure the collection is untouched and the message is
    /// recorded. Either way the loading flag drops.
    pub fn finish_add(&mut self, goat: GoatParams, outcome: RequestOutcome)
        ensures
            !final(self).loading,
            outcome is Accepted ==> final(self).goats@ == old(self).goats@.push(goat) && final(self).error == old(self).error,
            outcome matches RequestOutcome::Rejected(status) ==> final(self).goats == old(self).goats
                && (final(self).error matches Some(e) && e@ == "Server error: HTTP "@
                + spec_decimal(status as nat)),
            outcome matches RequestOutcome::Failed(m) ==> final(self).goats == old(self).goats
                && (final(self).error matches Some(e) && e@ == "Network error: "@ + m@),
    {
        match outcome {
            RequestOutcome::Accepted => {
                self.goats.push(goat);
                self.loading = false;
            },
            RequestOutcome::Rejected(status) => {
                let mut msg = String::from_str("Server error: HTTP ");
                let digits = decimal_string(status);
                msg.append(digits.as_str());
                self.loading = false;
                self.error = Some(msg);
            },
            RequestOutcome::Failed(m) => {
                let mut msg = String::from_str("Network error: ");
                msg.append(m.as_str());
                self.loading = false;
                self.error = Some(msg);
            },
        }
    }

    /// Reconciles the store with the end of a delete for `goat_name`. On
    /// acknowledgment every record with that exact name leaves the
    /// collection and the caller is told `Ok`; on failure the store is
    /// untouched and the caller gets the error. The loading flag and error
    /// field are never touched by this path: failure is visible only
    /// through the returned result.
    pub fn settle_delete(&mut self, goat_name: String, outcome: RequestOutcome) -> (r: Result<
        (),
        AppError,
    >)
        ensures
            final(self).loading == old(self).loading,
            final(self).error == old(self).error,
            outcome is Accepted ==> final(self).goats@ == spec_without(
                old(self).goats@,
                goat_name@,
            ) && r is Ok,
            outcome matches RequestOutcome::Rejected(status) ==> *final(self) == *old(self) && (
            r matches Err(e) && e matches AppError::Unexpected(m) && m@ == "Server error "@
                + spec_decimal(status as nat) + " for deleting '"@ + goat_name@ + "'"@),
            outcome matches RequestOutcome::Failed(why) ==> *final(self) == *old(self) && (
            r matches Err(e) && e matches AppError::NetworkError(m) && m@ == "Network error: "@
                + why@ + " while deleting '"@ + goat_name@ + "'"@),
    {
        match outcome {
            RequestOutcome::Accepted => {
                let ghost pred = |g: GoatParams| g.name@ != goat_name@;
                let mut rest: Vec<GoatParams> = Vec::new();
                core::mem::swap(&mut self.goats, &mut rest);
                let ghost orig = rest@;
                let mut kept: Vec<GoatParams> = Vec::new();
                let ghost mut k: int = 0;
                proof {
                    assert(orig.take(0) =~= Seq::<GoatParams>::empty());
                    reveal(Seq::filter);
                }
                while rest.len() > 0
                    invariant
                        0 <= k <= orig.len(),
                        rest@ =~= orig.skip(k),
                        kept@ =~= orig.take(k).filter(pred),
                        pred == (|g: GoatParams| g.name@ != goat_name@),
                    decreases rest@.len(),
                {
                    let g = rest.remove(0);
                    proof {
                        assert(g == orig[k]);
                        assert(orig.take(k + 1) =~= orig.take(k).push(orig[k]));
                        assert(orig.take(k).push(orig[k]).drop_last() =~= orig.take(k));
                        reveal(Seq::filter);
                    }
                    if g.name == goat_name {
                        // the record leaves the collection
                    } else {
                        kept.push(g);
                    }
                    proof {
                        k = k + 1;
                        assert(rest@ =~= orig.skip(k));
                    }
                }
                proof {
                    assert(orig.take(k) =~= orig);
                }
                self.goats = kept;
                Ok(())
            },
            RequestOutcome::Rejected(status) => {
                let mut msg = String::from_str("Server error ");
                let digits = decimal_string(status);
                msg.append(digits.as_str());
                msg.append(" for deleting '");
                msg.append(goat_name.as_str());
                msg.append("'");
                Err(AppError::Unexpected(msg))
            },
            RequestOutcome::Failed(why) => {
                let mut msg = String::from_str("Network error: ");
                msg.append(why.as_str());
                msg.append(" while deleting '");
                msg.append(goat_name.as_str());
                msg.append("'");
                Err(AppError::NetworkError(msg))
            },
        }
    }

    /// Reconciles the store with the end of an update. On acknowledgment
    /// the record replaces the first entry bearing its name, or is appended
    /// when no entry bears it, and the caller is told `Ok`; on failure the
    /// store is untouched and the caller gets the error. The loading flag
    /// and error field are never touched by this path.
    pub fn settle_update(&mut self, updated_goat: GoatParams, outcome: RequestOutcome) -> (r:
        Result<(), AppError>)
        ensures
            final(self).loading == old(self).loading,
            final(self).error == old(self).error,
            outcome is Accepted ==> r is Ok && ({
                let s = old(self).goats@;
                if exists|j: int| 0 <= j < s.len() && s[j].name@ == updated_goat.name@ {
                    exists|i: int|
                        0 <= i < s.len() && s[i].name@ == updated_goat.name@ && (forall|j: int|
                            0 <= j < i ==> s[j].name@ != updated_goat.name@) && final(self).goats@
                            == s.update(i, updated_goat)
                } else {
                    final(self).goats@ == s.push(updated_goat)
                }
            }),
            outcome matches RequestOutcome::Rejected(status) ==> *final(self) == *old(self) && (
            r matches Err(e) && e matches AppError::Unexpected(m) && m@ == "Server returned error "@
                + spec_decimal(status as nat) + " while updating '"@ + updated_goat.name@ + "'"@),
            outcome matches RequestOutcome::Failed(why) ==> *final(self) == *old(self) && (
            r matches Err(e) && e matches AppError::NetworkError(m) && m@
                == "Network error while updating '"@ + updated_goat.name@ + "': "@ + why@),
    {
        match outcome {
            RequestOutcome::Accepted => {
                match position_by_name(&self.goats, &updated_goat.name) {
                    Some(i) => {
                        self.goats.set(i, updated_goat);
                    },
                    None => {
                        self.goats.push(updated_goat);
                    },
                }
                Ok(())
            },
            RequestOutcome::Rejected(status) => {
                let mut msg = String::from_str("Server returned error ");
                let digits = decimal_string(status);
                msg.append(digits.as_str());
                msg.append(" while updating '");
                msg.append(updated_goat.name.as_str());
                msg.append("'");
                Err(AppError::Unexpected(msg))
            },
            RequestOutcome::Failed(why) => {
                let mut msg = String::from_str("Network error while updating '");
                msg.append(updated_goat.name.as_str());
                msg.append("': ");
                msg.append(why.as_str());
                Err(AppError::NetworkError(msg))
            },
        }
    }
}

/// Two delete reconciliations commute: after deletes of `a` and `b` both
/// succeed, the collection holds exactly the records named neither `a` nor
/// `b`, whichever completion ran first.
pub proof fn lemma_delete_commutes(s: Seq<GoatParams>, a: Seq<char>, b: Seq<char>)
    ensures
        spec_without(spec_without(s, a), b) == spec_without(spec_without(s, b), a),
        forall|i: int|
            0 <= i < spec_without(spec_without(s, a), b).len() ==> (#[trigger] spec_without(
                spec_without(s, a),
                b,
            )[i].name@ != a && spec_without(spec_without(s, a), b)[i].name@ != b),
    decreases s.len(),
{
    reveal(Seq::filter);
    if s.len() == 0 {
        assert(spec_without(s, a) =~= Seq::<GoatParams>::empty());
        assert(spec_without(s, b) =~= Seq::<GoatParams>::empty());
        assert(spec_without(spec_without(s, a), b) =~= Seq::<GoatParams>::empty());
        assert(spec_without(spec_without(s, b), a) =~= Seq::<GoatParams>::empty());
    } else {
        let d = s.drop_last();
        let l = s.last();
        lemma_delete_commutes(d, a, b);
        assert(spec_without(d, a).push(l).drop_last() =~= spec_without(d, a));
        assert(spec_without(d, b).push(l).drop_last() =~= spec_without(d, b));
        let ab = spec_without(spec_without(s, a), b);
        let dab = spec_without(spec_without(d, a), b);
        if l.name@ != a && l.name@ != b {
            assert(spec_without(s, a) == spec_without(d, a).push(l));
            assert(spec_without(s, b) == spec_without(d, b).push(l));
            assert(ab == dab.push(l));
            assert(spec_without(spec_without(s, b), a) == spec_without(spec_without(d, b), a).push(
                l,
            ));
            assert forall|i: int| 0 <= i < ab.len() implies (ab[i].name@ != a && ab[i].name@
                != b) by {
                if i < dab.len() {
                    assert(ab[i] == dab[i]);
                } else {
                    assert(ab[i] == l);
                }
            }
        } else {
            assert(ab == dab);
            assert(spec_without(spec_without(s, b), a) == spec_without(spec_without(d, b), a));
            assert forall|i: int| 0 <= i < ab.len() implies (ab[i].name@ != a && ab[i].name@
                != b) by {
                assert(ab[i] == dab[i]);
            }
        }
    }
}

} // verus!
