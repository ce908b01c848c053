use vstd::prelude::*;
use vstd::string::*;

use crate::stringify::Stringify;

verus! {

/// A set of attribute flags, kept in the order they were added.
#[derive(Debug, PartialEq, Eq, Hash)]
pub struct Flags {
    pub inner: Vec<Flag>,
}

/// The names of a sequence of flags.
pub open spec fn flag_names(fs: Seq<Flag>) -> Seq<Seq<char>> {
    fs.map_values(|f: Flag| f.name@)
}

impl View for Flags {
    type V = Seq<Seq<char>>;

    open spec fn view(&self) -> Seq<Seq<char>> {
        flag_names(self.inner@)
    }
}

/// The text of a sequence of flag names: `#name ` for each.
pub open spec fn flags_text(names: Seq<Seq<char>>) -> Seq<char>
    decreases names.len(),
{
    if names.len() == 0 {
        Seq::empty()
    } else {
        flags_text(names.drop_last()) + "#"@ + names.last() + " "@
    }
}

impl Flags {
    pub fn print_to_string(&self) -> (r: String)
        ensures
            r@ == flags_text(self@),
    {
        let mut s = String::new();
        let mut i: usize = 0;
        while i < self.inner.len()
            invariant
                i <= self.inner@.len(),
                s@ == flags_text(self@.take(i as int)),
            decreases self.inner@.len() - i,
        {
            proof {
                assert(self@.take(i + 1).drop_last() =~= self@.take(i as int));
            }
            s.append("#");
            s.append(self.inner[i].name.as_str());
            s.append(" ");
            i = i + 1;
        }
        assert(self@.take(i as int) =~= self@);
        s
    }

    pub fn new(inner: Vec<Flag>) -> (r: Self)
        ensures
            r@ == flag_names(inner@),
    {
        Self { inner }
    }

    pub fn push(&mut self, flag: Flag)
        ensures
            final(self)@ == old(self)@.push(flag@),
    {
        self.inner.push(flag);
        assert(flag_names(self.inner@) =~= flag_names(old(self).inner@).push(flag@));
    }

    pub fn contains(&self, flag: &Flag) -> (r: bool)
        ensures
            r == self@.contains(flag@),
    {
        let mut i: usize = 0;
        while i < self.inner.len()
            invariant
                i <= self.inner@.len(),
                forall|j: int| 0 <= j < i ==> self@[j] != flag@,
            decreases self.inner@.len() - i,
        {
            if self.inner[i].name == flag.name {
                assert(self@[i as int] == flag@);
                return true;
            }
            i = i + 1;
        }
        proof {
            if self@.contains(flag@) {
                let k = choose|k: int| 0 <= k < self@.len() && self@[k] == flag@;
                assert(self@[k] == flag@);
            }
        }
        false
    }

    /// The same flags without any flag named like `flag`.
    pub fn without(&self, flag: &Flag) -> (r: Flags)
        ensures
            r@ == self@.filter(|n: Seq<char>| n != flag@),
    {
        let mut out: Vec<Flag> = Vec::new();
        let mut i: usize = 0;
        while i < self.inner.len()
            invariant
                i <= self.inner@.len(),
                flag_names(out@) == self@.take(i as int).filter(|n: Seq<char>| n != flag@),
            decreases self.inner@.len() - i,
        {
            proof {
                reveal(Seq::filter);
                assert(self@.take(i + 1).drop_last() =~= self@.take(i as int));
            }
            if self.inner[i].name != flag.name {
                out.push(Flag { name: self.inner[i].name.clone() });
                assert(flag_names(out@) =~= self@.take(i + 1).filter(|n: Seq<char>| n != flag@));
            } else {
                assert(flag_names(out@) =~= self@.take(i + 1).filter(|n: Seq<char>| n != flag@));
            }
            i = i + 1;
        }
        assert(self@.take(i as int) =~= self@);
        Flags { inner: out }
    }

    /// A copy of these flags.
    pub fn duplicate(&self) -> (r: Flags)
        ensures
            r@ == self@,
    {
        let mut out: Vec<Flag> = Vec::new();
        let mut i: usize = 0;
        while i < self.inner.len()
            invariant
                i <= self.inner@.len(),
                out@.len() == i,
                forall|j: int| 0 <= j < i ==> #[trigger] out@[j].name@ == self.inner@[j].name@,
            decreases self.inner@.len() - i,
        {
            out.push(Flag { name: self.inner[i].name.clone() });
            i = i + 1;
        }
        assert(flag_names(out@) =~= self@);
        Flags { inner: out }
    }
}

impl Clone for Flags {
    fn clone(&self) -> (r: Self)
        ensures
            r@ == self@,
    {
        self.duplicate()
    }
}

impl Stringify for Flags {
    fn to_string(&self) -> (r: String) {
        self.print_to_string()
    }
}

/// An attribute flag, known by its name.
#[derive(Debug, Eq, Hash)]
pub struct Flag {
    pub name: String,
}

impl PartialEq for Flag {
    fn eq(&self, o: &Flag) -> (r: bool) {
        self.name == o.name
    }
}

impl vstd::std_specs::cmp::PartialEqSpecImpl for Flag {
    open spec fn obeys_eq_spec() -> bool {
        true
    }

    open spec fn eq_spec(&self, o: &Flag) -> bool {
        self.name@ == o.name@
    }
}

impl View for Flag {
    type V = Seq<char>;

    open spec fn view(&self) -> Seq<char> {
        self.name@
    }
}

impl Flag {
    /// The flag of a register that already holds an address.
    pub fn not_loadable() -> (r: Self)
        ensures
            r@ == "not_loadable"@,
    {
        Self { name: String::from_str("not_loadable") }
    }

    pub fn new(name: String) -> (r: Self)
        ensures
            r@ == name@,
    {
        Self { name }
    }
}

impl Clone for Flag {
    fn clone(&self) -> (r: Self)
        ensures
            r == *self,
    {
        Flag { name: self.name.clone() }
    }
}

impl Stringify for Flag {
    fn to_string(&self) -> (r: String) {
        let mut s = String::from_str("#");
        s.append(self.name.as_str());
        s
    }
}

} // verus!
