//! The four kinds of link and the flags that select one.

use vstd::prelude::*;

use crate::error::LinkError;

verus! {

/// The kind of link to create.
#[derive(Debug, Clone, Copy, PartialEq, Eq, Structural)]
pub enum LinkType {
    /// A directory symlink.
    Soft,
    /// A hard link.
    Hard,
    /// A file symlink.
    Symbolic,
    /// A junction point.
    Junction,
}

impl LinkType {
    /// The name under which the kind is shown to the operator.
    pub open spec fn spec_name(self) -> Seq<char> {
        match self {
            LinkType::Soft => "Soft Link"@,
            LinkType::Hard => "Hard Link"@,
            LinkType::Symbolic => "Symbolic Link"@,
            LinkType::Junction => "Junction"@,
        }
    }

    /// The name under which the kind is shown to the operator.
    pub fn name(self) -> (text: &'static str)
        ensures
            text@ == self.spec_name(),
    {
        match self {
            LinkType::Soft => "Soft Link",
            LinkType::Hard => "Hard Link",
            LinkType::Symbolic => "Symbolic Link",
            LinkType::Junction => "Junction",
        }
    }
}

/// The link-kind flags as the caller gave them on the command line.
#[derive(Debug, Clone, Copy, PartialEq, Eq, Structural)]
pub struct LinkFlags {
    pub soft: bool,
    pub hard: bool,
    pub symbolic: bool,
    pub junction: bool,
}

impl LinkFlags {
    /// Whether the flag for `kind` is set.
    pub open spec fn selects(self, kind: LinkType) -> bool {
        match kind {
            LinkType::Soft => self.soft,
            LinkType::Hard => self.hard,
            LinkType::Symbolic => self.symbolic,
            LinkType::Junction => self.junction,
        }
    }

    /// How many of the four flags are set.
    pub open spec fn count(self) -> nat {
        let soft: nat = if self.soft { 1 } else { 0 };
        let hard: nat = if self.hard { 1 } else { 0 };
        let symbolic: nat = if self.symbolic { 1 } else { 0 };
        let junction: nat = if self.junction { 1 } else { 0 };
        soft + hard + symbolic + junction
    }

    /// Whether `kind` is the one and only kind selected.
    pub open spec fn selects_only(self, kind: LinkType) -> bool {
        forall|other: LinkType| self.selects(other) <==> other == kind
    }
}

/// Picks the link kind out of the flags. Exactly one flag must be set: with
/// none or with several the request is refused before anything is created.
pub fn parse_link_type(flags: &LinkFlags) -> (outcome: Result<LinkType, LinkError>)
    ensures
        flags.count() == 0 <==> outcome == Err::<LinkType, LinkError>(
            LinkError::NoLinkTypeSpecified,
        ),
        flags.count() > 1 <==> outcome == Err::<LinkType, LinkError>(
            LinkError::MultipleLinkTypesSpecified,
        ),
        flags.count() == 1 <==> outcome is Ok,
        forall|kind: LinkType| outcome == Ok::<LinkType, LinkError>(kind) <==> flags.selects_only(kind),
{
    let mut count: u8 = 0;
    if flags.soft {
        count = count + 1;
    }
    if flags.hard {
        count = count + 1;
    }
    if flags.symbolic {
        count = count + 1;
    }
    if flags.junction {
        count = count + 1;
    }
    if count == 0 {
        proof {
            assert forall|kind: LinkType| !flags.selects_only(kind) by {
                assert(!flags.selects(kind));
            }
        }
        Err(LinkError::NoLinkTypeSpecified)
    } else if count == 1 {
        let kind = if flags.soft {
            LinkType::Soft
        } else if flags.hard {
            LinkType::Hard
        } else if flags.symbolic {
            LinkType::Symbolic
        } else {
            LinkType::Junction
        };
        proof {
            assert(flags.selects_only(kind));
            assert forall|other: LinkType| flags.selects_only(other) implies other == kind by {
                assert(flags.selects(kind));
            }
        }
        Ok(kind)
    } else {
        proof {
            assert forall|kind: LinkType| !flags.selects_only(kind) by {
                if flags.selects_only(kind) {
                    assert(flags.selects(LinkType::Soft) ==> kind == LinkType::Soft);
                    assert(flags.selects(LinkType::Hard) ==> kind == LinkType::Hard);
                    assert(flags.selects(LinkType::Symbolic) ==> kind == LinkType::Symbolic);
                    assert(flags.selects(LinkType::Junction) ==> kind == LinkType::Junction);
                }
            }
        }
        Err(LinkError::MultipleLinkTypesSpecified)
    }
}

} // verus!
