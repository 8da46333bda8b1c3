use vstd::prelude::*;

verus! {

/// An issuer identity, held as the text of its address.
#[derive(Debug)]
pub struct Identity {
    pub address: String,
}

impl View for Identity {
    type V = Seq<char>;

    open spec fn view(&self) -> Seq<char> {
        self.address@
    }
}

impl Identity {
    pub fn new(address: String) -> (r: Identity)
        ensures
            r.address == address,
    {
        Identity { address }
    }

    /// Exact comparison of two identities.
    pub fn same_as(&self, other: &Identity) -> (r: bool)
        ensures
            r == (self@ == other@),
    {
        self.address == other.address
    }

    pub fn duplicate(&self) -> (r: Identity)
        ensures
            r == *self,
    {
        Identity { address: self.address.clone() }
    }
}

/// One issued credential.
#[derive(Debug)]
pub struct Certificate {
    pub cert_id: u64,
    pub student_name: String,
    pub course_name: String,
    pub institution: String,
    pub issue_date: u64,
    pub issuer: Identity,
    pub is_valid: bool,
}

/// The text placed in every text field of the record that stands for "absent".
pub open spec fn not_found_text() -> Seq<char> {
    seq!['N', 'o', 't', '_', 'F', 'o', 'u', 'n', 'd']
}

/// The placeholder issuer of the record that stands for "absent".
pub open spec fn placeholder_address() -> Seq<char> {
    seq!['G'] + Seq::new(52, |i: int| 'A') + seq!['W', 'H', 'F']
}

/// The record that `verify_certificate` returns for an identifier never issued.
pub open spec fn is_sentinel(c: Certificate) -> bool {
    &&& c.cert_id == 0
    &&& c.student_name@ == not_found_text()
    &&& c.course_name@ == not_found_text()
    &&& c.institution@ == not_found_text()
    &&& c.issue_date == 0
    &&& c.issuer@ == placeholder_address()
    &&& !c.is_valid
}

/// Every field but the validity flag agrees.
pub open spec fn same_issue(a: Certificate, b: Certificate) -> bool {
    &&& a.cert_id == b.cert_id
    &&& a.student_name == b.student_name
    &&& a.course_name == b.course_name
    &&& a.institution == b.institution
    &&& a.issue_date == b.issue_date
    &&& a.issuer == b.issuer
}

/// The record as it stands after revocation.
pub open spec fn revoked(c: Certificate) -> Certificate {
    Certificate { is_valid: false, ..c }
}

fn not_found() -> (r: String)
    ensures
        r@ == not_found_text(),
{
    proof {
        reveal_strlit("Not_Found");
    }
    "Not_Found".to_owned()
}

fn placeholder_issuer() -> (r: Identity)
    ensures
        r@ == placeholder_address(),
{
    proof {
        reveal_strlit("GAAAAAAAAAAAAAAAAAAAAAAAAAAAAAAAAAAAAAAAAAAAAAAAAAAAAWHF");
        assert("GAAAAAAAAAAAAAAAAAAAAAAAAAAAAAAAAAAAAAAAAAAAAAAAAAAAAWHF"@ =~= placeholder_address());
    }
    Identity::new("GAAAAAAAAAAAAAAAAAAAAAAAAAAAAAAAAAAAAAAAAAAAAAAAAAAAAWHF".to_owned())
}

impl Certificate {
    /// The record that stands for "no certificate under this identifier".
    pub fn sentinel() -> (r: Certificate)
        ensures
            is_sentinel(r),
    {
        Certificate {
            cert_id: 0,
            student_name: not_found(),
            course_name: not_found(),
            institution: not_found(),
            issue_date: 0,
            issuer: placeholder_issuer(),
            is_valid: false,
        }
    }

    pub fn duplicate(&self) -> (r: Certificate)
        ensures
            r == *self,
    {
        Certificate {
            cert_id: self.cert_id,
            student_name: self.student_name.clone(),
            course_name: self.course_name.clone(),
            institution: self.institution.clone(),
            issue_date: self.issue_date,
            issuer: self.issuer.duplicate(),
            is_valid: self.is_valid,
        }
    }
}

} // verus!
