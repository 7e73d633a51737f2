//! The bridge between the views and the core: one change of the profile at
//! a time, and the texts of packages as the pages show them.

use vstd::prelude::*;
use crate::text::{is_space, lemma_join_spaces, lemma_words, lemma_words_have_no_space, squeeze, squeezed, words};
use crate::toast::{Kind, Toast, info};

verus! {

/// The operations that change a profile. Two must not overlap: the second
/// would read a manifest and a lock the first is about to replace.
#[derive(Debug)]
pub struct Changes {
    pub changing: bool,
}

impl Changes {
    /// No change runs.
    pub fn new() -> (c: Changes)
        ensures
            !c.changing,
    {
        Changes { changing: false }
    }

    /// A change asks to run. Only one runs at a time, a second one is refused
    /// with a message and never runs. `Ok` when it runs.
    pub fn change(&mut self) -> (r: Result<(), Toast>)
        ensures
            final(self).changing,
            old(self).changing <==> r is Err,
            r matches Err(t) ==> t.kind == Kind::Info && t.text@
                == "Wait for the running operation to finish"@,
    {
        if self.changing {
            return Err(info(String::from_str("Wait for the running operation to finish")));
        }
        self.changing = true;
        Ok(())
    }

    /// The change ended. Friends see the mods and the changed settings, so
    /// a change that went through is a reason to share the profile again:
    /// true then.
    pub fn changed(&mut self, ok: bool) -> (share: bool)
        ensures
            !final(self).changing,
            share == ok,
    {
        self.changing = false;
        ok
    }

    /// A background sync never queues behind the user, it skips and comes
    /// back.
    pub fn busy(&self) -> (r: bool)
        ensures
            r == self.changing,
    {
        self.changing
    }
}

/// The description of a package as one flowing text, a label wraps it by
/// itself.
pub fn summary(description: &str) -> (r: String)
    ensures
        r@ == squeezed(description@),
{
    squeeze(description)
}

/// The summary of a description is one flowing text: its only whitespace is
/// single spaces between two words, so it holds no line break and neither
/// starts nor ends with a space.
pub proof fn law_one_flowing_text(description: Seq<char>)
    ensures
        forall|k: int|
            0 <= k < squeezed(description).len() && is_space(#[trigger] squeezed(description)[k]) ==> {
                let t = squeezed(description);
                &&& t[k] == ' '
                &&& 0 < k < t.len() - 1
                &&& !is_space(t[k - 1])
                &&& !is_space(t[k + 1])
            },
{
    lemma_words(description);
    lemma_words_have_no_space(description);
    lemma_join_spaces(words(description));
}

} // verus!
