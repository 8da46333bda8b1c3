use vstd::prelude::*;

use crate::certificate::{is_sentinel, revoked, Certificate, Identity};

verus! {

/// The key under which a certificate is stored.
#[derive(Clone, Copy, Debug, PartialEq, Eq, Structural)]
pub enum CertificateBook {
    Cert(u64),
}

/// Why a revocation was refused.
#[derive(Clone, Copy, Debug, PartialEq, Eq, Structural)]
pub enum RevokeError {
    /// No certificate was ever issued under the identifier.
    NotFound,
    /// The caller is not the identity that issued the certificate.
    NotIssuer,
}

/// The record stored under `cert_id` in `book`, where the record of the
/// identifier `k` sits at position `k - 1`.
pub open spec fn lookup(book: Seq<Certificate>, cert_id: u64) -> Option<Certificate> {
    if 1 <= cert_id && cert_id <= book.len() {
        Some(book[cert_id - 1])
    } else {
        None
    }
}

/// The record that `issue_certificate` stores as the `book.len() + 1`-th.
pub open spec fn issued(
    book: Seq<Certificate>,
    issuer: Identity,
    student_name: String,
    course_name: String,
    institution: String,
    issue_date: u64,
) -> Certificate {
    Certificate {
        cert_id: (book.len() + 1) as u64,
        student_name,
        course_name,
        institution,
        issue_date,
        issuer,
        is_valid: true,
    }
}

/// What a revocation by `issuer` of `cert_id` answers.
pub open spec fn revoke_outcome(book: Seq<Certificate>, issuer: Seq<char>, cert_id: u64) -> Result<
    (),
    RevokeError,
> {
    match lookup(book, cert_id) {
        None => Err(RevokeError::NotFound),
        Some(c) => if c.issuer@ == issuer {
            Ok(())
        } else {
            Err(RevokeError::NotIssuer)
        },
    }
}

/// The records after a revocation by `issuer` of `cert_id`: on refusal, unchanged.
pub open spec fn after_revoke(book: Seq<Certificate>, issuer: Seq<char>, cert_id: u64) -> Seq<
    Certificate,
> {
    if revoke_outcome(book, issuer, cert_id) is Ok {
        book.update(cert_id - 1, revoked(book[cert_id - 1]))
    } else {
        book
    }
}

/// Each record sits under its own identifier, which counts up from 1.
pub open spec fn well_numbered(book: Seq<Certificate>) -> bool {
    &&& book.len() <= u64::MAX
    &&& forall|i: int| 0 <= i < book.len() ==> #[trigger] book[i].cert_id == i + 1
}

/// The registry: a counter of issued certificates and the records, kept in
/// order of issue.
pub struct CertificateContract {
    count: u64,
    book: Vec<Certificate>,
}

impl View for CertificateContract {
    type V = Seq<Certificate>;

    closed spec fn view(&self) -> Seq<Certificate> {
        self.book@
    }
}

impl CertificateContract {
    /// The counter equals the number of records, and each record sits under
    /// its own identifier.
    pub closed spec fn wf(&self) -> bool {
        &&& self.count as int == self.book@.len()
        &&& well_numbered(self.book@)
    }

    /// In a well-formed registry the records are numbered 1, 2, 3, ... in
    /// order of issue, with no gaps or repeats, and there are fewer of them
    /// than `u64` can count past.
    pub proof fn lemma_ids_dense(&self)
        requires
            self.wf(),
        ensures
            well_numbered(self@),
    {
    }

    /// An empty registry: nothing issued yet.
    pub fn new() -> (r: CertificateContract)
        ensures
            r.wf(),
            r@ == Seq::<Certificate>::empty(),
    {
        CertificateContract { count: 0, book: Vec::new() }
    }

    /// Rebuilds a registry from its records in order of issue; refused where
    /// a record does not sit under its own identifier.
    pub fn restore(records: Vec<Certificate>) -> (r: Option<CertificateContract>)
        ensures
            r is Some <==> well_numbered(records@),
            r matches Some(reg) ==> reg.wf() && reg@ == records@,
    {
        let n: usize = records.len();
        let mut i: usize = 0;
        while i < n
            invariant
                n == records@.len(),
                i <= n,
                forall|j: int| 0 <= j < i ==> #[trigger] records@[j].cert_id == j + 1,
            decreases n - i,
        {
            if records[i].cert_id != i as u64 + 1 {
                return None;
            }
            i = i + 1;
        }
        Some(CertificateContract { count: n as u64, book: records })
    }

    fn get(&self, key: &CertificateBook) -> (r: Option<&Certificate>)
        requires
            self.wf(),
        ensures
            match *key {
                CertificateBook::Cert(id) => match r {
                    Some(c) => lookup(self@, id) == Some(*c),
                    None => lookup(self@, id) is None,
                },
            },
    {
        let n: usize = self.book.len();
        match *key {
            CertificateBook::Cert(id) => {
                if 1 <= id && id <= self.count {
                    assert(id - 1 < n);
                    Some(&self.book[(id - 1) as usize])
                } else {
                    None
                }
            },
        }
    }

    /// Stores a new valid certificate under the next identifier and returns
    /// that identifier. `issue_date` is the time of issue, `issuer` the
    /// authenticated caller.
    pub fn issue_certificate(
        &mut self,
        issuer: Identity,
        student_name: String,
        course_name: String,
        institution: String,
        issue_date: u64,
    ) -> (cert_id: u64)
        requires
            old(self).wf(),
            old(self)@.len() < u64::MAX,
        ensures
            final(self).wf(),
            cert_id == old(self)@.len() + 1,
            final(self)@ == old(self)@.push(
                issued(old(self)@, issuer, student_name, course_name, institution, issue_date),
            ),
    {
        let cert_id = self.count + 1;
        let certificate = Certificate {
            cert_id,
            student_name,
            course_name,
            institution,
            issue_date,
            issuer,
            is_valid: true,
        };
        self.book.push(certificate);
        self.count = cert_id;
        proof {
            assert forall|i: int| 0 <= i < self.book@.len() implies #[trigger] self.book@[i].cert_id
                == i + 1 by {
                if i < old(self).book@.len() {
                    assert(self.book@[i] == old(self).book@[i]);
                }
            }
        }
        cert_id
    }

    /// The record issued under `cert_id`; for an identifier never issued, the
    /// sentinel record (identifier 0, texts `Not_Found`, not valid).
    pub fn verify_certificate(&self, cert_id: u64) -> (r: Certificate)
        requires
            self.wf(),
        ensures
            match lookup(self@, cert_id) {
                Some(c) => r == c,
                None => is_sentinel(r),
            },
    {
        let key = CertificateBook::Cert(cert_id);
        match self.get(&key) {
            Some(c) => c.duplicate(),
            None => Certificate::sentinel(),
        }
    }

    /// Marks the certificate `cert_id` as no longer valid, on behalf of
    /// `issuer`. Refused, with nothing changed, where no such certificate
    /// exists or where `issuer` did not issue it.
    pub fn revoke_certificate(&mut self, issuer: &Identity, cert_id: u64) -> (r: Result<
        (),
        RevokeError,
    >)
        requires
            old(self).wf(),
        ensures
            final(self).wf(),
            r == revoke_outcome(old(self)@, issuer@, cert_id),
            final(self)@ == after_revoke(old(self)@, issuer@, cert_id),
    {
        let key = CertificateBook::Cert(cert_id);
        let allowed = match self.get(&key) {
            None => Err(RevokeError::NotFound),
            Some(c) => if c.issuer.same_as(issuer) {
                Ok(())
            } else {
                Err(RevokeError::NotIssuer)
            },
        };
        if allowed.is_err() {
            return allowed;
        }
        let n: usize = self.book.len();
        assert(cert_id - 1 < n);
        let idx = (cert_id - 1) as usize;
        let mut certificate = self.book[idx].duplicate();
        certificate.is_valid = false;
        self.book.set(idx, certificate);
        proof {
            assert(self.book@ =~= old(self).book@.update(idx as int, revoked(old(self).book@[idx as int])));
            assert forall|i: int| 0 <= i < self.book@.len() implies #[trigger] self.book@[i].cert_id
                == i + 1 by {
                if i != idx {
                    assert(self.book@[i] == old(self).book@[i]);
                }
            }
        }
        Ok(())
    }

    /// The number of certificates issued so far, which is also the highest
    /// identifier issued.
    pub fn get_total_certificates(&self) -> (r: u64)
        requires
            self.wf(),
        ensures
            r == self@.len(),
    {
        self.count
    }
}

} // verus!
