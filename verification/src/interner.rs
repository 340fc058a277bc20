//! Interned names: identifiers and literal texts are carried through the
//! parser as small symbols, and turned back into text only for diagnostics.

use vstd::prelude::*;
use vstd::string::StringExecFns;

verus! {

/// A reference to an interned string.
#[derive(Clone, Copy, Debug, PartialEq, Eq, Structural)]
pub struct Sym {
    pub index: usize,
}

impl Sym {
    /// The symbol every interner gives to the name `yield`.
    pub open spec fn spec_yield() -> Sym {
        Sym { index: 0 }
    }

    /// The symbol every interner gives to the name `await`.
    pub open spec fn spec_await() -> Sym {
        Sym { index: 1 }
    }

    /// The symbol every interner gives to the name `yield`.
    #[verifier::when_used_as_spec(spec_yield)]
    pub fn of_yield() -> (sym: Sym)
        ensures
            sym == Sym::spec_yield(),
    {
        Sym { index: 0 }
    }

    /// The symbol every interner gives to the name `await`.
    #[verifier::when_used_as_spec(spec_await)]
    pub fn of_await() -> (sym: Sym)
        ensures
            sym == Sym::spec_await(),
    {
        Sym { index: 1 }
    }

    /// The text that `self` stands for among `names`; empty where `names` has
    /// no such symbol.
    pub open spec fn text(self, names: Seq<Seq<char>>) -> Seq<char> {
        if self.index < names.len() {
            names[self.index as int]
        } else {
            Seq::empty()
        }
    }
}

/// No name occurs twice.
pub open spec fn distinct_names(names: Seq<Seq<char>>) -> bool {
    forall|i: int, j: int|
        0 <= i < names.len() && 0 <= j < names.len() && i != j ==> names[i] != names[j]
}

/// The table of interned names. A symbol is an index into it. Names are only
/// ever added, so a symbol keeps its text for the life of the table.
pub struct Interner {
    names: Vec<String>,
}

impl View for Interner {
    type V = Seq<Seq<char>>;

    /// The names in the order in which they were interned.
    closed spec fn view(&self) -> Seq<Seq<char>> {
        Seq::new(self.names@.len(), |i: int| self.names@[i]@)
    }
}

impl Interner {
    /// The table holds each name once, and the two reserved names first.
    pub open spec fn wf(&self) -> bool {
        &&& self@.len() >= 2
        &&& self@[0] == "yield"@
        &&& self@[1] == "await"@
        &&& distinct_names(self@)
    }

    /// A table that holds the two reserved names and nothing else.
    pub fn new() -> (interner: Self)
        ensures
            interner.wf(),
            interner@ == seq!["yield"@, "await"@],
    {
        let mut names: Vec<String> = Vec::new();
        names.push(String::from_str("yield"));
        names.push(String::from_str("await"));
        let interner = Interner { names };
        proof {
            reveal_strlit("yield");
            reveal_strlit("await");
            assert(interner@ =~= seq!["yield"@, "await"@]);
            assert("yield"@[0] != "await"@[0]);
        }
        interner
    }

    /// How many names the table holds.
    pub fn len(&self) -> (count: usize)
        ensures
            count == self@.len(),
    {
        self.names.len()
    }

    /// The symbol of `name`, if the table holds it.
    pub fn get(&self, name: &str) -> (found: Option<Sym>)
        ensures
            match found {
                Some(sym) => sym.index < self@.len() && self@[sym.index as int] == name@
                    && forall|j: int| 0 <= j < sym.index ==> self@[j] != name@,
                None => !self@.contains(name@),
            },
    {
        let wanted = String::from_str(name);
        let mut i: usize = 0;
        while i < self.names.len()
            invariant
                i <= self.names@.len(),
                wanted@ == name@,
                forall|j: int| 0 <= j < i ==> self@[j] != name@,
            decreases self.names@.len() - i,
        {
            if self.names[i] == wanted {
                return Some(Sym { index: i });
            }
            i = i + 1;
        }
        None
    }

    /// The symbol of `name`. A name that the table does not hold yet is added
    /// at its end; otherwise the table stays as it is.
    pub fn get_or_intern(&mut self, name: &str) -> (sym: Sym)
        requires
            old(self).wf(),
        ensures
            final(self).wf(),
            sym.text(final(self)@) == name@,
            sym.index < final(self)@.len(),
            old(self)@.contains(name@) ==> final(self)@ == old(self)@,
            !old(self)@.contains(name@) ==> final(self)@ == old(self)@.push(name@) && sym.index
                == old(self)@.len(),
    {
        match self.get(name) {
            Some(sym) => sym,
            None => {
                let index = self.names.len();
                self.names.push(String::from_str(name));
                proof {
                    assert(final(self)@ =~= old(self)@.push(name@));
                    assert forall|i: int, j: int|
                        0 <= i < self@.len() && 0 <= j < self@.len() && i != j implies self@[i]
                        != self@[j] by {
                        if i < index && j < index {
                            assert(old(self)@[i] != old(self)@[j]);
                        } else if i < index {
                            assert(old(self)@.contains(old(self)@[i]));
                        } else {
                            assert(old(self)@.contains(old(self)@[j]));
                        }
                    }
                }
                Sym { index }
            },
        }
    }

    /// The text of `sym`, if the table holds it.
    pub fn resolve(&self, sym: Sym) -> (name: Option<&str>)
        ensures
            match name {
                Some(text) => sym.index < self@.len() && text@ == sym.text(self@),
                None => sym.index >= self@.len(),
            },
    {
        if sym.index < self.names.len() {
            Some(self.names[sym.index].as_str())
        } else {
            None
        }
    }
}

} // verus!
