use vstd::prelude::*;
use vstd::string::StringExecFns;

verus! {

/// An identity on the instance: a user name, and a domain when the account
/// lives on a remote instance. A missing domain means the account is local.
#[derive(Debug, PartialEq, Eq)]
pub struct Account {
    pub username: String,
    pub domain: Option<String>,
}

impl Account {
    /// The canonical display form: `@username` for a local account,
    /// `@username@domain` for a remote one.
    pub open spec fn display(self) -> Seq<char> {
        match self.domain {
            Some(d) => seq!['@'] + self.username@ + seq!['@'] + d@,
            None => seq!['@'] + self.username@,
        }
    }

    pub fn format_username(&self) -> (r: String)
        ensures
            r@ == self.display(),
    {
        let mut r = String::new();
        r.append("@");
        r.append(self.username.as_str());
        match &self.domain {
            Some(d) => {
                r.append("@");
                r.append(d.as_str());
            },
            None => {},
        }
        proof {
            reveal_strlit("@");
            assert(r@ =~= self.display());
        }
        r
    }
}

} // verus!
