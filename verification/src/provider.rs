//! The provider directory: the startup-built mapping from provider
//! identifier to backend. Identifiers are upper-cased once at registration
//! and once at routing, so lookups are case-insensitive; the directory
//! never holds two entries for one identifier.
use vstd::prelude::*;

use crate::strutil::ascii_upper;
use crate::strutil::spec_upper;
use crate::LlmError;

verus! {

/// Whether some registered identifier equals `n`.
pub open spec fn has_provider(s: Seq<Seq<char>>, n: Seq<char>) -> bool {
    exists|i: int| 0 <= i < s.len() && s[i] == n
}

/// The directory of registered providers. The identifier at position `i`
/// routes to the backend that the process edge holds under handle `i`.
#[derive(Debug)]
pub struct LlmProvider {
    names: Vec<String>,
}

impl View for LlmProvider {
    type V = Seq<Seq<char>>;

    closed spec fn view(&self) -> Seq<Seq<char>> {
        self.names.deep_view()
    }
}

impl LlmProvider {
    /// No identifier is registered twice.
    pub open spec fn wf(&self) -> bool {
        forall|i: int, j: int| 0 <= i < j < self@.len() ==> self@[i] != self@[j]
    }

    /// An empty directory.
    pub fn new() -> (r: LlmProvider)
        ensures
            r.wf(),
            r@ == Seq::<Seq<char>>::empty(),
    {
        let r = LlmProvider { names: Vec::new() };
        proof {
            assert(r@ =~= Seq::<Seq<char>>::empty());
        }
        r
    }

    /// Registers a provider under its upper-cased identifier and hands
    /// back the handle to bind the backend under: the identifier's
    /// existing position when it is already present (the binding is
    /// replaced), a fresh one otherwise.
    pub fn register(&mut self, name: &str) -> (handle: usize)
        requires
            old(self).wf(),
        ensures
            final(self).wf(),
            handle < final(self)@.len(),
            final(self)@[handle as int] == spec_upper(name@),
            has_provider(old(self)@, spec_upper(name@)) ==> final(self)@ == old(self)@,
            !has_provider(old(self)@, spec_upper(name@)) ==> final(self)@ == old(self)@.push(
                spec_upper(name@),
            ) && handle == old(self)@.len(),
    {
        let upper = ascii_upper(name);
        let mut i: usize = 0;
        while i < self.names.len()
            invariant
                *self == *old(self),
                self.wf(),
                i <= self@.len(),
                upper@ == spec_upper(name@),
                forall|j: int| 0 <= j < i ==> self@[j] != upper@,
            decreases self@.len() - i,
        {
            let hit = self.names[i].eq(&upper);
            if hit {
                proof {
                    assert(self@[i as int] == upper@);
                }
                return i;
            }
            i = i + 1;
        }
        let ghost pre = self.names;
        let ghost um = upper;
        let n = self.names.len();
        self.names.push(upper);
        proof {
            crate::lemma_deep_view_push(pre, self.names, um);
            assert(self@ =~= old(self)@.push(spec_upper(name@)));
        }
        n
    }

    /// Resolves an inbound provider identifier, case-insensitively: the
    /// backend handle when the upper-cased identifier is registered, and
    /// otherwise the routing error that names the refused identifier.
    pub fn resolve(&self, provider: &str) -> (r: Result<usize, LlmError>)
        ensures
            match r {
                Ok(handle) => handle < self@.len() && self@[handle as int] == spec_upper(
                    provider@,
                ),
                Err(e) => !has_provider(self@, spec_upper(provider@)) && (e
                    matches LlmError::ProviderNotFound(n) && n@ == spec_upper(provider@)),
            },
    {
        let upper = ascii_upper(provider);
        let mut i: usize = 0;
        while i < self.names.len()
            invariant
                i <= self@.len(),
                upper@ == spec_upper(provider@),
                forall|j: int| 0 <= j < i ==> self@[j] != upper@,
            decreases self@.len() - i,
        {
            let hit = self.names[i].eq(&upper);
            if hit {
                proof {
                    assert(self@[i as int] == upper@);
                }
                return Ok(i);
            }
            i = i + 1;
        }
        Err(LlmError::ProviderNotFound(upper))
    }
}

} // verus!
