//! From key events to playback decisions.
//!
//! Whether a resolved file exists is a question for the filesystem, which the
//! caller asks; the decision that follows from the answer is made here.

use vstd::prelude::*;
use crate::buffer::{completed_code, next_buffer, CodeBuffer};
use crate::catalog::{joined_path, SoundCatalog};
use crate::keys::InputEvent;

verus! {

/// What is done once a code has been entered.
#[derive(Clone, Debug, PartialEq, Eq)]
pub enum Playback {
    /// The code is unknown: nothing is played and nothing is reported.
    Skip,
    /// The code names a file that does not exist: it is reported and
    /// skipped.
    Missing(String),
    /// The file is queued for playback.
    Play(String),
}

/// The files queued for playback when a code resolved to `resolved`.
pub open spec fn dispatches(resolved: Option<Seq<char>>, exists: bool) -> Seq<Seq<char>> {
    match resolved {
        Some(p) => if exists {
            seq![p]
        } else {
            Seq::empty()
        },
        None => Seq::empty(),
    }
}

/// Whether a missing file is reported when a code resolved to `resolved`.
pub open spec fn reports_missing(resolved: Option<Seq<char>>, exists: bool) -> bool {
    resolved is Some && !exists
}

/// The decision for a resolved path, given whether the file exists.
pub open spec fn spec_playback(resolved: Option<String>, exists: bool) -> Playback {
    match resolved {
        Some(p) => if exists {
            Playback::Play(p)
        } else {
            Playback::Missing(p)
        },
        None => Playback::Skip,
    }
}

pub open spec fn opt_view(s: Option<String>) -> Option<Seq<char>> {
    match s {
        Some(p) => Some(p@),
        None => None,
    }
}

impl Playback {
    /// The files that this decision queues for playback.
    pub open spec fn spec_dispatched(&self) -> Seq<Seq<char>> {
        match self {
            Playback::Play(p) => seq![p@],
            _ => Seq::empty(),
        }
    }

    /// Whether this decision reports a missing file.
    pub open spec fn spec_reports_missing(&self) -> bool {
        self is Missing
    }
}

/// Decides what to do with the path that an entered code resolved to:
/// nothing for an unknown code, a report for a file that does not exist,
/// and playback of one that does.
pub fn playback_for(resolved: Option<String>, exists: bool) -> (r: Playback)
    ensures
        r == spec_playback(resolved, exists),
        r.spec_dispatched() == dispatches(opt_view(resolved), exists),
        r.spec_reports_missing() == reports_missing(opt_view(resolved), exists),
{
    match resolved {
        Some(p) => if exists {
            Playback::Play(p)
        } else {
            Playback::Missing(p)
        },
        None => Playback::Skip,
    }
}

/// A code known to the catalog whose file exists is played exactly once;
/// one whose file is missing is reported and not played; an unknown code,
/// the empty one included, is neither played nor reported.
pub proof fn lemma_lookup_outcomes(catalog: SoundCatalog, code: Seq<char>, exists: bool)
    ensures
        catalog.spec_map().contains_key(code) && exists ==> dispatches(
            catalog.spec_resolve(code),
            exists,
        ) == seq![joined_path(catalog.spec_sounds_path(), catalog.spec_map()[code])]
            && !reports_missing(catalog.spec_resolve(code), exists),
        catalog.spec_map().contains_key(code) && !exists ==> dispatches(
            catalog.spec_resolve(code),
            exists,
        ).len() == 0 && reports_missing(catalog.spec_resolve(code), exists),
        !catalog.spec_map().contains_key(code) ==> dispatches(
            catalog.spec_resolve(code),
            exists,
        ).len() == 0 && !reports_missing(catalog.spec_resolve(code), exists),
{
}

/// The running state of the soundboard: the code being typed and the
/// catalog it is looked up in.
pub struct Soundboard {
    buffer: CodeBuffer,
    catalog: SoundCatalog,
}

impl Soundboard {
    pub closed spec fn spec_buffer(&self) -> Seq<char> {
        self.buffer@
    }

    pub closed spec fn spec_catalog(&self) -> SoundCatalog {
        self.catalog
    }

    pub closed spec fn wf(&self) -> bool {
        self.buffer.wf() && self.catalog.wf()
    }

    /// A soundboard with an empty buffer over the given catalog.
    pub fn new(catalog: SoundCatalog) -> (r: Soundboard)
        requires
            catalog.wf(),
        ensures
            r.wf(),
            r.spec_buffer() == Seq::<char>::empty(),
            r.spec_catalog() == catalog,
    {
        Soundboard { buffer: CodeBuffer::new(), catalog }
    }

    pub fn catalog(&self) -> (r: &SoundCatalog)
        ensures
            *r == self.spec_catalog(),
    {
        &self.catalog
    }

    /// The digits typed since the last Enter.
    pub fn pending(&self) -> (r: &CodeBuffer)
        ensures
            r@ == self.spec_buffer(),
    {
        &self.buffer
    }

    /// Applies one raw event. When it completes a code, the code is resolved
    /// against the catalog and the path of its sound file, if the catalog
    /// knows it, is returned for the caller to probe; the buffer is cleared
    /// either way.
    pub fn handle_event(&mut self, ev: InputEvent) -> (r: Option<String>)
        requires
            old(self).wf(),
        ensures
            final(self).wf(),
            final(self).spec_catalog() == old(self).spec_catalog(),
            final(self).spec_buffer() == next_buffer(old(self).spec_buffer(), ev),
            opt_view(r) == match completed_code(old(self).spec_buffer(), ev) {
                Some(code) => old(self).spec_catalog().spec_resolve(code),
                None => None,
            },
    {
        match self.buffer.handle_key(ev) {
            Some(code) => self.catalog.resolve(code.as_str()),
            None => None,
        }
    }
}

} // verus!
