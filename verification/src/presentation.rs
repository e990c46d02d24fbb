//! Which rendered content counts as the current presentation.
//!
//! Input that targets terminal cells (links, selections, workspace clicks) is only
//! admitted against content that was actually presented for the current generation.

use vstd::prelude::*;

verus! {

/// A candidate presentation: the content generation it was built from and the
/// terminal revision it shows, if any.
#[derive(Clone, Copy, Debug, PartialEq, Eq, Structural)]
pub struct PresentationIdentity {
    pub generation: u64,
    pub revision: Option<u64>,
}

/// Generation counter for presentable content and the identity last presented.
#[derive(Debug)]
pub struct PresentationState {
    pub generation: u64,
    pub presented: Option<PresentationIdentity>,
}

impl Default for PresentationState {
    fn default() -> (state: Self)
        ensures
            state.generation == 0,
            state.presented is None,
    {
        PresentationState::new()
    }
}

impl PresentationState {
    /// A fresh state: generation zero, nothing presented.
    pub fn new() -> (state: Self)
        ensures
            state.generation == 0,
            state.presented is None,
    {
        PresentationState { generation: 0, presented: None }
    }

    /// The identity that a presentation of `revision` built now would carry.
    pub fn candidate(&self, revision: Option<u64>) -> (identity: PresentationIdentity)
        ensures
            identity == (PresentationIdentity { generation: self.generation, revision }),
    {
        PresentationIdentity { generation: self.generation, revision }
    }

    /// Content changed: retire every candidate built before this call, but keep
    /// the presented geometry.
    pub fn content_changed(&mut self)
        requires
            old(self).generation < u64::MAX,
        ensures
            final(self).generation == old(self).generation + 1,
            final(self).presented == old(self).presented,
    {
        self.generation = self.generation + 1;
    }

    /// Structural change: retire all candidates and the presented geometry.
    pub fn invalidate(&mut self)
        requires
            old(self).generation < u64::MAX,
        ensures
            final(self).generation == old(self).generation + 1,
            final(self).presented is None,
    {
        self.content_changed();
        self.unpublish();
    }

    /// Record a presentation; only a candidate of the current generation is kept.
    pub fn publish(&mut self, candidate: PresentationIdentity)
        ensures
            final(self).generation == old(self).generation,
            final(self).presented == (if candidate.generation == old(self).generation {
                Some(candidate)
            } else {
                old(self).presented
            }),
    {
        if candidate.generation == self.generation {
            self.presented = Some(candidate);
        }
    }

    /// Forget the presented geometry.
    pub fn unpublish(&mut self)
        ensures
            final(self).generation == old(self).generation,
            final(self).presented is None,
    {
        self.presented = None;
    }

    /// Whether some presentation of the current content stands.
    pub fn has_presented_geometry(&self) -> (result: bool)
        ensures
            result == self.presented is Some,
    {
        self.presented.is_some()
    }

    /// The terminal revision of the standing presentation.
    pub fn presented_revision(&self) -> (result: Option<u64>)
        ensures
            result == (match self.presented {
                Some(identity) => identity.revision,
                None => None,
            }),
    {
        match self.presented {
            Some(identity) => identity.revision,
            None => None,
        }
    }

    /// Whether `identity` is exactly the presentation standing for the current content.
    pub fn is_current(&self, identity: PresentationIdentity) -> (result: bool)
        ensures
            result == self.spec_current(identity),
    {
        let presented_matches = match self.presented {
            Some(presented) => presented.generation == identity.generation
                && presented.revision == identity.revision,
            None => false,
        };
        identity.revision.is_some() && identity.generation == self.generation && presented_matches
    }

    pub open spec fn spec_current(&self, identity: PresentationIdentity) -> bool {
        &&& identity.revision is Some
        &&& identity.generation == self.generation
        &&& self.presented == Some(identity)
    }
}

/// Law: presenting the candidate that was just built for a revision makes that
/// candidate the current presentation.
pub proof fn lemma_published_candidate_is_current(
    state: PresentationState,
    revision: u64,
)
    ensures
        ({
            let candidate = PresentationIdentity { generation: state.generation, revision: Some(revision) };
            let published = PresentationState { generation: state.generation, presented: Some(candidate) };
            published.spec_current(candidate)
        }),
{
}

/// Law: once content changes (or the state is invalidated), no candidate built for
/// an earlier generation is current, whatever is published afterwards.
pub proof fn lemma_stale_candidate_never_current(
    state: PresentationState,
    stale: PresentationIdentity,
)
    requires
        stale.generation < state.generation,
    ensures
        !state.spec_current(stale),
        forall|candidate: PresentationIdentity|
            !(PresentationState {
                generation: state.generation,
                presented: if candidate.generation == state.generation {
                    Some(candidate)
                } else {
                    state.presented
                },
            }).spec_current(stale),
{
}

} // verus!
