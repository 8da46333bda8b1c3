use vstd::prelude::*;

use crate::certificate::{revoked, same_issue, Certificate, Identity};
use crate::registry::{after_revoke, issued, lookup, revoke_outcome, well_numbered, RevokeError};

verus! {

/// Issuing hands out the identifier just past the last one, so that the
/// identifiers come out as 1, 2, 3, ... with no gap or repeat, and the
/// number of records grows by exactly one.
pub proof fn law_issue_numbers_next(
    book: Seq<Certificate>,
    issuer: Identity,
    student_name: String,
    course_name: String,
    institution: String,
    issue_date: u64,
)
    requires
        well_numbered(book),
        book.len() < u64::MAX,
    ensures
        ({
            let c = issued(book, issuer, student_name, course_name, institution, issue_date);
            &&& c.cert_id == book.len() + 1
            &&& book.push(c).len() == book.len() + 1
            &&& well_numbered(book.push(c))
        }),
{
    let c = issued(book, issuer, student_name, course_name, institution, issue_date);
    let nb = book.push(c);
    assert forall|i: int| 0 <= i < nb.len() implies #[trigger] nb[i].cert_id == i + 1 by {
        if i < book.len() {
            assert(nb[i] == book[i]);
        }
    }
}

/// After an issue, the new identifier finds the record just issued, valid
/// and with the fields it was given, and every identifier issued before
/// finds what it found before.
pub proof fn law_issue_then_lookup(
    book: Seq<Certificate>,
    issuer: Identity,
    student_name: String,
    course_name: String,
    institution: String,
    issue_date: u64,
    other: u64,
)
    requires
        well_numbered(book),
        book.len() < u64::MAX,
    ensures
        ({
            let c = issued(book, issuer, student_name, course_name, institution, issue_date);
            let nb = book.push(c);
            &&& lookup(nb, (book.len() + 1) as u64) == Some(c)
            &&& c.cert_id == book.len() + 1 && c.is_valid && c.issuer == issuer
            &&& c.student_name == student_name && c.course_name == course_name
            &&& c.institution == institution && c.issue_date == issue_date
            &&& lookup(book, other) is Some ==> lookup(nb, other) == lookup(book, other)
        }),
{
}

/// A revocation leaves the number of records unchanged, and so the count of
/// issued certificates.
pub proof fn law_revoke_keeps_count(book: Seq<Certificate>, issuer: Seq<char>, cert_id: u64)
    ensures
        after_revoke(book, issuer, cert_id).len() == book.len(),
{
}

/// A revocation of one identifier leaves the record of every other
/// identifier as it was.
pub proof fn law_revoke_keeps_others(
    book: Seq<Certificate>,
    issuer: Seq<char>,
    cert_id: u64,
    other: u64,
)
    requires
        other != cert_id,
    ensures
        lookup(after_revoke(book, issuer, cert_id), other) == lookup(book, other),
{
}

/// No revocation adds or removes a record, changes a field other than the
/// validity flag, or makes a record valid again.
pub proof fn law_revoke_keeps_issue(
    book: Seq<Certificate>,
    issuer: Seq<char>,
    cert_id: u64,
    other: u64,
)
    ensures
        ({
            let nb = after_revoke(book, issuer, cert_id);
            &&& lookup(nb, other) is Some <==> lookup(book, other) is Some
            &&& lookup(book, other) is Some ==> same_issue(
                lookup(nb, other)->0,
                lookup(book, other)->0,
            )
            &&& lookup(book, other) is Some && lookup(nb, other)->0.is_valid ==> lookup(
                book,
                other,
            )->0.is_valid
        }),
{
}

/// A revocation that succeeds leaves the record invalid, with every other
/// field as it was issued.
pub proof fn law_revoke_invalidates(book: Seq<Certificate>, issuer: Seq<char>, cert_id: u64)
    requires
        revoke_outcome(book, issuer, cert_id) is Ok,
    ensures
        ({
            let c = lookup(book, cert_id)->0;
            let nb = after_revoke(book, issuer, cert_id);
            &&& lookup(nb, cert_id) == Some(revoked(c))
            &&& !lookup(nb, cert_id)->0.is_valid
            &&& same_issue(lookup(nb, cert_id)->0, c)
        }),
{
}

/// A revocation asked by an identity other than the record's issuer is
/// refused and changes nothing.
pub proof fn law_foreign_revoke_refused(book: Seq<Certificate>, issuer: Seq<char>, cert_id: u64)
    requires
        lookup(book, cert_id) is Some,
        lookup(book, cert_id)->0.issuer@ != issuer,
    ensures
        revoke_outcome(book, issuer, cert_id) == Err::<(), RevokeError>(RevokeError::NotIssuer),
        after_revoke(book, issuer, cert_id) == book,
{
}

/// A revocation of an identifier never issued is refused and changes
/// nothing: neither the records nor their count.
pub proof fn law_missing_revoke_refused(book: Seq<Certificate>, issuer: Seq<char>, cert_id: u64)
    requires
        lookup(book, cert_id) is None,
    ensures
        revoke_outcome(book, issuer, cert_id) == Err::<(), RevokeError>(RevokeError::NotFound),
        after_revoke(book, issuer, cert_id) == book,
{
}

/// Revoking twice ends as revoking once: the second succeeds as well and
/// changes nothing more.
pub proof fn law_revoke_idempotent(book: Seq<Certificate>, issuer: Seq<char>, cert_id: u64)
    requires
        revoke_outcome(book, issuer, cert_id) is Ok,
    ensures
        ({
            let nb = after_revoke(book, issuer, cert_id);
            &&& revoke_outcome(nb, issuer, cert_id) is Ok
            &&& after_revoke(nb, issuer, cert_id) == nb
        }),
{
    let nb = after_revoke(book, issuer, cert_id);
    let c = book[cert_id - 1];
    assert(nb[cert_id - 1] == revoked(c));
    assert(nb.update(cert_id - 1, revoked(nb[cert_id - 1])) =~= nb);
}

} // verus!
