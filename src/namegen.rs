//! Display names for workers: the listed names in order, lower-cased, then
//! the same list again with `_1`, `_2`, ... appended.

use vstd::prelude::*;

use crate::text::{decimal, push_char, push_decimal};

verus! {

/// What `str::to_lowercase` makes of a text.
pub uninterp spec fn lower_of(s: Seq<char>) -> Seq<char>;

/// Relies on `str::to_lowercase`: the lower-case form of `s`, which depends
/// on the characters of `s` alone.
#[verifier::external_body]
fn lowercase(s: &str) -> (r: String)
    ensures
        r@ == lower_of(s@),
{
    s.to_lowercase()
}

/// The name for round `rep` built from the lower-cased name `lowered`.
pub open spec fn display_spec(lowered: Seq<char>, rep: nat) -> Seq<char> {
    if rep == 0 {
        lowered
    } else {
        lowered.push('_') + decimal(rep)
    }
}

/// The name for round `rep` built from an already lower-cased name.
pub fn display_name(lowered: String, rep: usize) -> (r: String)
    ensures
        r@ == display_spec(lowered@, rep as nat),
{
    let mut r = lowered;
    if rep > 0 {
        push_char(&mut r, '_');
        push_decimal(&mut r, rep);
    }
    r
}

/// One step of the generator at position `i` of round `rep` over `names`:
/// the name handed out and the position and round after it. `None` when
/// there are no names, or when the round counter cannot advance any further.
pub open spec fn name_step(names: Seq<Seq<char>>, i: nat, rep: nat) -> Option<(Seq<char>, nat, nat)> {
    let wraps = i >= names.len();
    let i2: nat = if wraps {
        0
    } else {
        i
    };
    let rep2: nat = if wraps {
        rep + 1
    } else {
        rep
    };
    if names.len() == 0 || (wraps && rep >= usize::MAX) {
        None
    } else {
        Some((display_spec(lower_of(names[i2 as int]), rep2), i2 + 1, rep2))
    }
}

/// Hands out worker names without end once it has at least one.
#[derive(Clone, Debug)]
pub struct NameGen {
    names: Vec<String>,
    i: usize,
    rep: usize,
}

impl NameGen {
    /// The listed names, without the lower-casing applied yet.
    pub closed spec fn names(&self) -> Seq<Seq<char>> {
        self.names@.map_values(|n: String| n@)
    }

    /// Index of the next name within the current round.
    pub closed spec fn index(&self) -> nat {
        self.i as nat
    }

    /// The current round.
    pub closed spec fn round(&self) -> nat {
        self.rep as nat
    }

    pub closed spec fn wf(&self) -> bool {
        self.i <= self.names@.len()
    }

    /// A generator over `names`, starting at the first one, round zero.
    pub fn new_from_names(names: Vec<String>) -> (r: Self)
        ensures
            r.wf(),
            r.names() == names@.map_values(|n: String| n@),
            r.index() == 0,
            r.round() == 0,
    {
        Self { names, i: 0, rep: 0 }
    }

    /// The next name: the next listed name, lower-cased, with `_<round>`
    /// appended from the second round on.
    pub fn next(&mut self) -> (r: Option<String>)
        requires
            old(self).wf(),
        ensures
            final(self).wf(),
            final(self).names() == old(self).names(),
            match name_step(old(self).names(), old(self).index(), old(self).round()) {
                Some((name, i, rep)) => {
                    &&& r is Some
                    &&& r->Some_0@ == name
                    &&& final(self).index() == i
                    &&& final(self).round() == rep
                },
                None => {
                    &&& r is None
                    &&& final(self).index() == old(self).index()
                    &&& final(self).round() == old(self).round()
                },
            },
    {
        let n = self.names.len();
        if n == 0 {
            return None;
        }
        if self.i >= n {
            if self.rep == usize::MAX {
                return None;
            }
            self.rep = self.rep + 1;
            self.i = 0;
        }
        let lowered = lowercase(self.names[self.i].as_str());
        let name = display_name(lowered, self.rep);
        self.i = self.i + 1;
        Some(name)
    }
}

} // verus!
