//! Selecting and announcing the user's organization.

use vstd::prelude::*;
use vstd::string::*;
use crate::client::{Client, Io};
use crate::data::{clone_organization, Organization, PrintColor};
use crate::error::CmdError;
use crate::sorting::sort_organizations;
use crate::text::{str_eq, trim};

verus! {

/// The first organization carrying the slug stands at `i`.
pub open spec fn first_org_with_slug(orgs: Seq<Organization>, slug: Seq<char>, i: int) -> bool {
    0 <= i < orgs.len() && orgs[i].slug@ == slug && forall|k: int|
        0 <= k < i ==> orgs[k].slug@ != slug
}

/// The first organization carrying the name stands at `i`.
pub open spec fn first_org_with_name(orgs: Seq<Organization>, name: Seq<char>, i: int) -> bool {
    0 <= i < orgs.len() && orgs[i].name@ == name && forall|k: int|
        0 <= k < i ==> orgs[k].name@ != name
}

/// Looks an organization up by its slug, returning the first match.
pub fn find_org_by_slug(orgs: &Vec<Organization>, slug: &str) -> (r: Option<Organization>)
    ensures
        r matches Some(o) ==> exists|i: int|
            first_org_with_slug(orgs@, slug@, i) && o == orgs@[i],
        r matches None ==> forall|i: int| 0 <= i < orgs@.len() ==> orgs@[i].slug@ != slug@,
{
    let mut i: usize = 0;
    while i < orgs.len()
        invariant
            i <= orgs@.len(),
            forall|k: int| 0 <= k < i ==> orgs@[k].slug@ != slug@,
        decreases orgs@.len() - i,
    {
        if str_eq(orgs[i].slug.as_str(), slug) {
            proof {
                assert(first_org_with_slug(orgs@, slug@, i as int));
            }
            return Some(clone_organization(&orgs[i]));
        }
        i += 1;
    }
    None
}

/// Looks an organization up by its name, returning the first match.
pub fn find_org_by_name(orgs: &Vec<Organization>, name: &str) -> (r: Option<Organization>)
    ensures
        r matches Some(o) ==> exists|i: int|
            first_org_with_name(orgs@, name@, i) && o == orgs@[i],
        r matches None ==> forall|i: int| 0 <= i < orgs@.len() ==> orgs@[i].name@ != name@,
{
    let mut i: usize = 0;
    while i < orgs.len()
        invariant
            i <= orgs@.len(),
            forall|k: int| 0 <= k < i ==> orgs@[k].name@ != name@,
        decreases orgs@.len() - i,
    {
        if str_eq(orgs[i].name.as_str(), name) {
            proof {
                assert(first_org_with_name(orgs@, name@, i as int));
            }
            return Some(clone_organization(&orgs[i]));
        }
        i += 1;
    }
    None
}

/// The names of the pinned organizations, in their relative order.
pub open spec fn pinned_names(s: Seq<Organization>) -> Seq<String>
    decreases s.len(),
{
    if s.len() == 0 {
        Seq::empty()
    } else {
        let rest = pinned_names(s.drop_last());
        if s.last().pinned {
            rest.push(s.last().name)
        } else {
            rest
        }
    }
}

/// Collects the names of the pinned organizations, keeping their order.
pub fn pinned_org_names(orgs: &Vec<Organization>) -> (r: Vec<String>)
    ensures
        r@ == pinned_names(orgs@),
{
    let mut out: Vec<String> = Vec::new();
    let mut i: usize = 0;
    while i < orgs.len()
        invariant
            i <= orgs@.len(),
            out@ == pinned_names(orgs@.subrange(0, i as int)),
        decreases orgs@.len() - i,
    {
        if orgs[i].pinned {
            out.push(orgs[i].name.clone());
        }
        proof {
            let pre = orgs@.subrange(0, i as int);
            let post = orgs@.subrange(0, i + 1);
            assert(post.drop_last() =~= pre);
            assert(post.last() == orgs@[i as int]);
        }
        i += 1;
    }
    proof {
        assert(orgs@.subrange(0, orgs@.len() as int) =~= orgs@);
    }
    out
}

/// The names of all organizations, in their relative order.
pub fn all_org_names(orgs: &Vec<Organization>) -> (r: Vec<String>)
    ensures
        r@.len() == orgs@.len(),
        forall|i: int| 0 <= i < orgs@.len() ==> #[trigger] r@[i] == orgs@[i].name,
{
    let mut out: Vec<String> = Vec::new();
    let mut i: usize = 0;
    while i < orgs.len()
        invariant
            i <= orgs@.len(),
            out@.len() == i,
            forall|k: int| 0 <= k < i ==> #[trigger] out@[k] == orgs@[k].name,
        decreases orgs@.len() - i,
    {
        out.push(orgs[i].name.clone());
        i += 1;
    }
    out
}

/// Lists every organization pinned-first (names descending inside each
/// group, as the older menu showed them), asks for a slug on the console,
/// and returns the chosen organization; the caller persists its slug.
pub fn set_organization_old<I: Io, C: Client>(io: &mut I, client: &mut C) -> (r: Result<
    Organization,
    CmdError,
>)
    ensures
        r matches Err(e) ==> (e matches CmdError::TransportError { .. } || e
            matches CmdError::IoFailed { .. } || e matches CmdError::OrganizationSlugNotFound {
            ..
        }),
{
    let orgs = match client.get_organizations() {
        Ok(o) => o,
        Err(e) => {
            return Err(CmdError::TransportError { message: e });
        },
    };
    let sorted = sort_organizations(&orgs, true);
    match io.println("Available Organizations:", PrintColor::Normal) {
        Ok(u) => u,
        Err(e) => {
            return Err(CmdError::IoFailed { message: e });
        },
    }
    match io.println("", PrintColor::Normal) {
        Ok(u) => u,
        Err(e) => {
            return Err(CmdError::IoFailed { message: e });
        },
    }
    let mut last_pinned = true;
    let mut i: usize = 0;
    while i < sorted.len()
        decreases sorted@.len() - i,
    {
        if sorted[i].pinned != last_pinned {
            match io.println("----------", PrintColor::Normal) {
                Ok(u) => u,
                Err(e) => {
                    return Err(CmdError::IoFailed { message: e });
                },
            }
        }
        match io.print(sorted[i].name.as_str(), PrintColor::Normal) {
            Ok(u) => u,
            Err(e) => {
                return Err(CmdError::IoFailed { message: e });
            },
        }
        match io.print(" Slug: ", PrintColor::Normal) {
            Ok(u) => u,
            Err(e) => {
                return Err(CmdError::IoFailed { message: e });
            },
        }
        match io.println(sorted[i].slug.as_str(), PrintColor::Normal) {
            Ok(u) => u,
            Err(e) => {
                return Err(CmdError::IoFailed { message: e });
            },
        }
        last_pinned = sorted[i].pinned;
        i += 1;
    }
    match io.print("\nChoose organization by writing its slug: ", PrintColor::Normal) {
        Ok(u) => u,
        Err(e) => {
            return Err(CmdError::IoFailed { message: e });
        },
    }
    let line = match io.read_line() {
        Ok(l) => l,
        Err(e) => {
            return Err(CmdError::IoFailed { message: e });
        },
    };
    let slug = trim(line.as_str());
    match find_org_by_slug(&sorted, slug.as_str()) {
        Some(org) => Ok(org),
        None => Err(CmdError::OrganizationSlugNotFound { slug }),
    }
}

/// Offers the pinned organizations in an interactive menu, with a final
/// entry that opens the full list, and returns the chosen organization; the
/// caller persists its slug.
pub fn set_organization<I: Io, C: Client>(io: &mut I, client: &mut C) -> (r: Result<
    Organization,
    CmdError,
>)
    ensures
        r matches Err(e) ==> (e matches CmdError::TransportError { .. } || e
            matches CmdError::IoFailed { .. } || e == CmdError::NoOrganizationChosen || e
            == CmdError::OrganizationNameNotFound),
{
    match io.println("Fetching organizations...", PrintColor::Normal) {
        Ok(u) => u,
        Err(e) => {
            return Err(CmdError::IoFailed { message: e });
        },
    }
    let orgs = match client.get_organizations() {
        Ok(o) => o,
        Err(e) => {
            return Err(CmdError::TransportError { message: e });
        },
    };
    let sorted = sort_organizations(&orgs, false);
    let mut pinned = pinned_org_names(&sorted);
    let others = String::from_str("View all organizations");
    pinned.push(others.clone());
    let prompt = String::from_str("Select your organization: ");
    let first_pick = match io.pick(prompt.as_str(), &pinned) {
        Ok(p) => p,
        Err(e) => {
            return Err(CmdError::IoFailed { message: e });
        },
    };
    let mut org_name: Option<String> = match first_pick {
        Some(result) => {
            if result.eq(&others) {
                let all = all_org_names(&sorted);
                match io.pick(prompt.as_str(), &all) {
                    Ok(p) => p,
                    Err(e) => {
                        return Err(CmdError::IoFailed { message: e });
                    },
                }
            } else {
                Some(result)
            }
        },
        None => {
            return Err(CmdError::NoOrganizationChosen);
        },
    };
    org_name = match org_name {
        Some(result) => {
            if result.eq(&others) {
                let all = all_org_names(&sorted);
                match io.pick(prompt.as_str(), &all) {
                    Ok(p) => p,
                    Err(e) => {
                        return Err(CmdError::IoFailed { message: e });
                    },
                }
            } else {
                Some(result)
            }
        },
        None => {
            return Err(CmdError::NoOrganizationChosen);
        },
    };
    let org_name = match org_name {
        Some(on) => on,
        None => {
            return Err(CmdError::NoOrganizationChosen);
        },
    };
    match find_org_by_name(&sorted, org_name.as_str()) {
        Some(org) => Ok(org),
        None => Err(CmdError::OrganizationNameNotFound),
    }
}

/// Checks the stored login, asks for an organization in the requested mode,
/// and announces the selection; the caller persists the returned slug.
pub fn organization<I: Io, C: Client>(io: &mut I, client: &mut C, interactive_mode: bool) -> (r:
    Result<Organization, CmdError>)
    ensures
        r matches Err(e) ==> (e matches CmdError::TransportError { .. } || e
            matches CmdError::IoFailed { .. } || if interactive_mode {
            e == CmdError::NoOrganizationChosen || e == CmdError::OrganizationNameNotFound
        } else {
            e matches CmdError::OrganizationSlugNotFound { .. }
        }),
{
    match client.load_login() {
        Ok(u) => u,
        Err(e) => {
            return Err(CmdError::TransportError { message: e });
        },
    }
    let org = if interactive_mode {
        match set_organization(io, client) {
            Ok(o) => o,
            Err(e) => {
                return Err(e);
            },
        }
    } else {
        match set_organization_old(io, client) {
            Ok(o) => o,
            Err(e) => {
                return Err(e);
            },
        }
    };
    let line = String::from_str("Selected ").concat(org.name.as_str()).concat(" as organization.");
    match io.println(line.as_str(), PrintColor::Success) {
        Ok(u) => u,
        Err(e) => {
            return Err(CmdError::IoFailed { message: e });
        },
    }
    Ok(org)
}

} // verus!
