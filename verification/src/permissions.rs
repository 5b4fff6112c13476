//! Permission configuration and execution-scoped grants.
//!
//! A declarative [`PermissionOptions`] is turned into an enforceable
//! [`PermissionGrant`] once per execution attempt.  Grants carry the number
//! of the attempt they were built for and are never reused: watch-mode
//! restarts must not leak capability state between iterations.

use vstd::prelude::*;

use crate::errors::RunError;

verus! {

/// Declarative permission configuration, as the front end parsed it.
///
/// `None` means the capability was not requested; `Some` of an empty list
/// requests the capability everywhere; `Some` of a non-empty list restricts
/// it to the named targets.  `allow_all` grants everything regardless of the
/// lists.
pub struct PermissionOptions {
    pub allow_all: bool,
    pub allow_read: Option<Vec<Vec<u8>>>,
    pub allow_write: Option<Vec<Vec<u8>>>,
    pub allow_net: Option<Vec<Vec<u8>>>,
}

/// What one capability of a grant permits.
pub enum Scope {
    /// Permitted everywhere.
    All,
    /// Permitted for the listed targets only.
    Listed(Vec<Vec<u8>>),
    /// Not granted; every use must be denied or prompted.
    Denied,
}

/// Mathematical image of a [`Scope`].
#[verifier::ext_equal]
pub ghost enum ScopeView {
    All,
    Listed(Seq<Seq<u8>>),
    Denied,
}

impl View for Scope {
    type V = ScopeView;

    open spec fn view(&self) -> ScopeView {
        match self {
            Scope::All => ScopeView::All,
            Scope::Listed(l) => ScopeView::Listed(l@.map_values(|t: Vec<u8>| t@)),
            Scope::Denied => ScopeView::Denied,
        }
    }
}

/// An execution-scoped capability set.  Built fresh for exactly one attempt;
/// the attempt number it was built for is part of the value.
pub struct PermissionGrant {
    pub grant_id: u64,
    pub read: Scope,
    pub write: Scope,
    pub net: Scope,
}

/// Mathematical image of a [`PermissionGrant`].
#[verifier::ext_equal]
pub ghost struct GrantView {
    pub grant_id: int,
    pub read: ScopeView,
    pub write: ScopeView,
    pub net: ScopeView,
}

impl View for PermissionGrant {
    type V = GrantView;

    open spec fn view(&self) -> GrantView {
        GrantView {
            grant_id: self.grant_id as int,
            read: self.read@,
            write: self.write@,
            net: self.net@,
        }
    }
}

/// Every named target is non-empty; an empty target cannot be parsed into
/// a path or host and makes the configuration invalid.
pub open spec fn entry_list_valid(l: Seq<Seq<u8>>) -> bool {
    forall|i: int| 0 <= i < l.len() ==> l[i].len() > 0
}

/// The deep view of an optional target list.
pub open spec fn opt_list_view(l: Option<Vec<Vec<u8>>>) -> Option<Seq<Seq<u8>>> {
    match l {
        Some(v) => Some(v@.map_values(|t: Vec<u8>| t@)),
        None => None,
    }
}

/// An optional target list is absent or wholly valid.
pub open spec fn opt_list_valid(l: Option<Seq<Seq<u8>>>) -> bool {
    match l {
        Some(v) => entry_list_valid(v),
        None => true,
    }
}

/// The whole configuration can be turned into a grant.
pub open spec fn options_valid(o: PermissionOptions) -> bool {
    &&& opt_list_valid(opt_list_view(o.allow_read))
    &&& opt_list_valid(opt_list_view(o.allow_write))
    &&& opt_list_valid(opt_list_view(o.allow_net))
}

/// Whether the configuration requests any permission at all.
pub open spec fn has_permission(o: PermissionOptions) -> bool {
    ||| o.allow_all
    ||| o.allow_read is Some
    ||| o.allow_write is Some
    ||| o.allow_net is Some
}

/// The scope one capability resolves to.
pub open spec fn scope_spec(allow_all: bool, l: Option<Seq<Seq<u8>>>) -> ScopeView {
    if allow_all {
        ScopeView::All
    } else {
        match l {
            None => ScopeView::Denied,
            Some(v) => if v.len() == 0 {
                ScopeView::All
            } else {
                ScopeView::Listed(v)
            },
        }
    }
}

/// The grant a valid configuration denotes for attempt `grant_id`.
pub open spec fn grant_spec(o: PermissionOptions, grant_id: int) -> GrantView {
    GrantView {
        grant_id: grant_id,
        read: scope_spec(o.allow_all, opt_list_view(o.allow_read)),
        write: scope_spec(o.allow_all, opt_list_view(o.allow_write)),
        net: scope_spec(o.allow_all, opt_list_view(o.allow_net)),
    }
}

/// All entries of a target list are non-empty.
fn check_entry_list(l: &Vec<Vec<u8>>) -> (r: bool)
    ensures
        r == entry_list_valid(l@.map_values(|t: Vec<u8>| t@)),
{
    let n: usize = l.len();
    let mut i: usize = 0;
    while i < n
        invariant
            0 <= i <= n,
            n == l@.len(),
            forall|j: int| 0 <= j < i ==> #[trigger] l@[j]@.len() > 0,
        decreases n - i,
    {
        if l[i].len() == 0 {
            proof {
                assert(l@.map_values(|t: Vec<u8>| t@)[i as int].len() == 0);
            }
            return false;
        }
        i = i + 1;
    }
    true
}

/// The scope one capability resolves to.
fn build_scope(allow_all: bool, l: Option<Vec<Vec<u8>>>) -> (s: Scope)
    ensures
        s@ == scope_spec(allow_all, opt_list_view(l)),
{
    if allow_all {
        Scope::All
    } else {
        match l {
            None => Scope::Denied,
            Some(v) => if v.len() == 0 {
                Scope::All
            } else {
                Scope::Listed(v)
            },
        }
    }
}

/// Build the enforceable grant for one execution attempt.
///
/// A pure function of the configuration: succeeds exactly on valid
/// configurations and then yields precisely the grant the configuration
/// denotes, stamped with the attempt number.  Must be called once per
/// attempt and the result never cached across watch iterations.
pub fn build_permissions(options: PermissionOptions, grant_id: u64) -> (r: Result<
    PermissionGrant,
    RunError,
>)
    ensures
        options_valid(options) ==> (r matches Ok(g) && g@ == grant_spec(options, grant_id as int)),
        !options_valid(options) ==> r == Err::<PermissionGrant, RunError>(RunError::Config),
{
    let valid: bool = (match &options.allow_read {
        Some(v) => check_entry_list(v),
        None => true,
    }) && (match &options.allow_write {
        Some(v) => check_entry_list(v),
        None => true,
    }) && (match &options.allow_net {
        Some(v) => check_entry_list(v),
        None => true,
    });
    if !valid {
        return Err(RunError::Config);
    }
    let PermissionOptions { allow_all, allow_read, allow_write, allow_net } = options;
    Ok(
        PermissionGrant {
            grant_id,
            read: build_scope(allow_all, allow_read),
            write: build_scope(allow_all, allow_write),
            net: build_scope(allow_all, allow_net),
        },
    )
}

} // verus!
