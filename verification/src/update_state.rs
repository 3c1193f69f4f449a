use vstd::prelude::*;

verus! {

/// What a change does to the repository of packages.
#[derive(Clone, Copy, Debug, PartialEq, Eq, Hash, Structural)]
pub enum UpdateState {
    New,
    NewVersion,
    AddVersion,
    UpdateVersion,
    RemoveVersion,
}

impl UpdateState {
    /// The words that open the title of a commit.
    pub open spec fn label(self) -> Seq<char> {
        match self {
            UpdateState::New => "New package"@,
            UpdateState::NewVersion => "New version"@,
            UpdateState::AddVersion => "Add version"@,
            UpdateState::UpdateVersion => "Update version"@,
            UpdateState::RemoveVersion => "Remove version"@,
        }
    }

    /// The words that open the title of a commit.
    pub fn as_str(&self) -> (r: &'static str)
        ensures
            r@ == self.label(),
    {
        match self {
            UpdateState::New => "New package",
            UpdateState::NewVersion => "New version",
            UpdateState::AddVersion => "Add version",
            UpdateState::UpdateVersion => "Update version",
            UpdateState::RemoveVersion => "Remove version",
        }
    }
}

} // verus!
