//! The display names of an organization's credential classes and ledger.

use vstd::prelude::*;

verus! {

/// The names and symbols under which an organization registers its three
/// credential classes and its result ledger. Each name is the name of the
/// organization, a space and the kind; each symbol is the first character of
/// the organization's name and a letter.
#[derive(Debug)]
pub struct Labels {
    pub admin: String,
    pub component: String,
    pub member: String,
    pub member_symbol: String,
    pub result: String,
    pub result_symbol: String,
}

impl Labels {
    /// The labels of the organization named `org_name`.
    pub fn of(org_name: &String) -> (labels: Labels)
        requires
            org_name@.len() > 0,
        ensures
            labels.admin@ == org_name@ + " Admin"@,
            labels.component@ == org_name@ + " Component"@,
            labels.member@ == org_name@ + " Member"@,
            labels.member_symbol@ == org_name@.take(1) + "M"@,
            labels.result@ == org_name@ + " Result"@,
            labels.result_symbol@ == org_name@.take(1) + "V"@,
    {
        let initial: &str = org_name.as_str().substring_char(0, 1);
        assert(initial@ =~= org_name@.take(1));
        Labels {
            admin: org_name.clone().concat(" Admin"),
            component: org_name.clone().concat(" Component"),
            member: org_name.clone().concat(" Member"),
            member_symbol: initial.to_owned().concat("M"),
            result: org_name.clone().concat(" Result"),
            result_symbol: initial.to_owned().concat("V"),
        }
    }
}

} // verus!
