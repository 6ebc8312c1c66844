use vstd::prelude::*;

verus! {

/// The kinds of set that each scope owns.
#[derive(Clone, Copy, Debug, PartialEq, Eq, Structural)]
pub enum IamSetKind {
    Org,
    Res,
    Apps,
}

/// The lower-case name of a set kind.
pub open spec fn kind_name(kind: IamSetKind) -> Seq<char> {
    match kind {
        IamSetKind::Org => "org"@,
        IamSetKind::Res => "res"@,
        IamSetKind::Apps => "apps"@,
    }
}

impl IamSetKind {
    /// The lower-case name of the kind.
    pub fn lower_name(&self) -> (r: &'static str)
        ensures
            r@ == kind_name(*self),
    {
        match self {
            IamSetKind::Org => "org",
            IamSetKind::Res => "res",
            IamSetKind::Apps => "apps",
        }
    }
}

/// The code of the default set of a kind in a scope: the scope's own paths, a
/// colon, and the kind's lower-case name.
pub open spec fn default_code(kind: IamSetKind, own_paths: Seq<char>) -> Seq<char> {
    own_paths + ":"@ + kind_name(kind)
}

/// Services on the sets of the identity module.
pub struct IamSetServ;

impl IamSetServ {
    /// The code of the default organisation set of the platform scope.
    pub fn get_default_org_code_by_system() -> (r: String)
        ensures
            r@ == default_code(IamSetKind::Org, Seq::empty()),
    {
        let empty = String::new();
        IamSetServ::get_default_code(&IamSetKind::Org, &empty)
    }

    /// The code of the default set of `kind` in the scope `own_paths`.
    pub fn get_default_code(kind: &IamSetKind, own_paths: &String) -> (r: String)
        ensures
            r@ == default_code(*kind, own_paths@),
    {
        let mut code = own_paths.clone();
        code.append(":");
        code.append(kind.lower_name());
        code
    }
}

} // verus!
