//! Activation planning: switching the single active link to an installed
//! tag, and locating the binary a `run` must execute.

use vstd::prelude::*;
use vstd::string::*;
use crate::errors::ToolError;
use crate::paths::{binary_path, link_path, DirLayout, SpecDirLayout};
use crate::paths::{spec_binary_path, spec_link_path};

verus! {

/// The planned activation: remove whatever stands at `link_path`, then hard
/// link `source_path` there, falling back to a full copy where hard links
/// are unsupported.
#[derive(Debug, PartialEq, Eq)]
pub struct ActivatePlan {
    pub source_path: String,
    pub link_path: String,
}

/// The mathematical image of an `ActivatePlan`.
pub struct SpecActivatePlan {
    pub source_path: Seq<char>,
    pub link_path: Seq<char>,
}

impl View for ActivatePlan {
    type V = SpecActivatePlan;

    open spec fn view(&self) -> SpecActivatePlan {
        SpecActivatePlan { source_path: self.source_path@, link_path: self.link_path@ }
    }
}

/// What activating `tag` does: a `NotInstalled` failure when the tag's
/// binary is absent — with no filesystem mutation, since no plan is
/// produced — and otherwise the link switch from the tag's binary to the
/// link path.
pub open spec fn spec_plan_activate(
    l: SpecDirLayout,
    tag: Seq<char>,
    binary_present: bool,
) -> Result<SpecActivatePlan, ToolError> {
    if binary_present {
        Ok(SpecActivatePlan { source_path: spec_binary_path(l, tag), link_path: spec_link_path(l) })
    } else {
        Err(ToolError::NotInstalled)
    }
}

/// Plans the activation of `tag`; `binary_present` is the shell's
/// observation of whether the tag's installed binary exists.
pub fn plan_activate(l: &DirLayout, tag: &str, binary_present: bool) -> (r: Result<
    ActivatePlan,
    ToolError,
>)
    ensures
        match r {
            Ok(p) => spec_plan_activate(l@, tag@, binary_present) == Ok::<
                SpecActivatePlan,
                ToolError,
            >(p@),
            Err(e) => spec_plan_activate(l@, tag@, binary_present) == Err::<
                SpecActivatePlan,
                ToolError,
            >(e),
        },
{
    if binary_present {
        Ok(ActivatePlan { source_path: binary_path(l, tag), link_path: link_path(l) })
    } else {
        Err(ToolError::NotInstalled)
    }
}

/// Locates the binary that `run` must execute: the active link, or a
/// `NotInstalled` failure when no toolchain is selected.
pub fn plan_run(l: &DirLayout, link_present: bool) -> (r: Result<String, ToolError>)
    ensures
        link_present ==> (r matches Ok(p) && p@ == spec_link_path(l@)),
        !link_present ==> r == Result::<String, ToolError>::Err(ToolError::NotInstalled),
{
    if link_present {
        Ok(link_path(l))
    } else {
        Err(ToolError::NotInstalled)
    }
}

} // verus!
